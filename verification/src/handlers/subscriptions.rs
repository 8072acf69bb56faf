//! Subscriptions.

use vstd::prelude::*;

verus! {

/// The form that a new subscriber fills in.
#[derive(Debug, Clone, PartialEq, Eq)]
pub struct FormData {
    pub email: String,
    pub name: String,
}

} // verus!
