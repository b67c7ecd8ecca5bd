pub mod compose;
pub mod cost;
pub mod envelope;
pub mod identity;
pub mod ledger;
pub mod metadata;
pub mod model;
pub mod registry;
pub mod requests;
pub mod treasury;
pub mod upload;
