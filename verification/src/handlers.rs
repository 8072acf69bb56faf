//! What the request handlers take in.

pub mod subscriptions;
