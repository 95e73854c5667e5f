//! Quota state of providers: the snapshot that the data layer stores, the patch
//! that a remote provider reports, the rules that a patch keeps, and the
//! statements and decisions by which a patch is written to Postgres.

pub mod apply;
pub mod error;
pub mod laws;
pub mod promises;
pub mod quota;
pub mod repository;
pub mod sql;
pub mod table;
pub mod text;
pub mod types;
pub mod usd;
