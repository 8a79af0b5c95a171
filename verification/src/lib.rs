pub mod agreement;
pub mod error;
pub mod identity;
pub mod laws;
pub mod ledger;
pub mod model;
pub mod vault;
