//! Query execution core of a multi-dialect SQL client: connection planning,
//! batch preparation for the serialized task queue, transaction driving and
//! paging over cached results. Every function carries a machine-checked
//! contract.
pub mod error;
pub mod config;
pub mod port;
pub mod connect;
pub mod limit;
pub mod task;
pub mod tx;
pub mod cache;
pub mod registry;
pub mod result;
pub mod export;
