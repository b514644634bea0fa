//! Builders for ledger accounts whose identifier is derived from a seed, a code commitment
//! and a storage root, with the identifier's classification tags checked against the
//! builder's configuration.

pub mod types;
pub mod ledger;
pub mod account_builder;
pub mod fixtures;
