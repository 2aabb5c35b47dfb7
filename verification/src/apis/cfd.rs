//! What a CFD (head of a doctoral training) decides about its sessions.

use vstd::prelude::*;
use crate::model::user::Role;

verus! {

/// The roles that may reach the operations of a CFD.
pub const API_RULES: [Role; 1] = [Role::CFD];

/// The appointment of a professor as monitor of a session.
#[derive(Debug)]
pub struct MonitorAffectation {
    pub session_id: i32,
    pub professor_id: i32,
}

/// Whether the correction of a session has ended, given for each of its
/// results whether that result is corrected: it has ended when every
/// result is.
pub fn check_if_correction_ended(corrected: &[bool]) -> (ended: bool)
    ensures
        ended == forall|i: int| 0 <= i < corrected@.len() ==> #[trigger] corrected@[i],
{
    let mut i: usize = 0;
    while i < corrected.len()
        invariant
            i <= corrected@.len(),
            forall|j: int| 0 <= j < i ==> #[trigger] corrected@[j],
        decreases corrected@.len() - i,
    {
        if !corrected[i] {
            return false;
        }
        i = i + 1;
    }
    true
}

} // verus!
