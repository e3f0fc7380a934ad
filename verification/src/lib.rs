//! Client-side model of a compute service: filters and paged listings,
//! server snapshots with their life-cycle actions, and the waiters that
//! turn an eventually-consistent state change into a bounded wait.
//!
//! Nothing here performs a request. Every operation that needs the service
//! hands out the request to make and takes the answer back as a value, so
//! that each decision is a function with a contract.

pub mod error;
pub mod net;
pub mod new_server;
pub mod pagination;
pub mod protocol;
pub mod query;
pub mod refs;
pub mod server;
pub mod server_query;
pub mod text;
pub mod waiters;
pub mod waiting;
