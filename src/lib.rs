//! A foreign table over an etcd key-value store: option handling, scan
//! planning, a drainable scan cursor and the check-then-act guards for
//! single-row mutations, all with verified contracts.

pub mod error;
pub mod options;
pub mod config;
pub mod validate;
pub mod plan;
pub mod cursor;
pub mod mutation;
pub mod store;
pub mod laws;
