//! Complaints of applicants about a mark.

use vstd::prelude::*;

verus! {

/// A complaint of an applicant about a module of a session.
#[derive(Debug)]
pub struct Reclamation {
    pub applicant_id: i32,
    pub module_id: String,
    pub session_id: i32,
    pub content: String,
}

} // verus!
