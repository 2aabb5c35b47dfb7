//! Examination modules (subjects) of a session.

use vstd::prelude::*;

verus! {

/// A module, identified by its code within a session.
#[derive(Debug)]
pub struct Module {
    pub session_id: Option<i32>,
    pub code: String,
}

} // verus!
