//! What the service deals in.

pub mod models;
