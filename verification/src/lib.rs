//! The resource-management core of a small betting service: a cache client
//! that speaks to one of two backends, and the start-up sequence of the
//! relational connection pool. Nothing here performs I/O: every function
//! decides what is to be done next, and the caller does it.

pub mod config;
pub mod db;
pub mod domain;
pub mod errors;
pub mod handlers;
pub mod text;
