//! Research themes proposed by professors.

use vstd::prelude::*;

verus! {

/// A theme that a professor proposes in a session.
#[derive(Debug)]
pub struct Theme {
    pub session_id: i32,
    pub professor_id: i32,
    pub title: String,
    pub content: String,
}

} // verus!
