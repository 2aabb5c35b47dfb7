//! What a vice-doyen manages on his virtual platform: sessions and the
//! applicants placed in them.

use vstd::prelude::*;
use crate::model::user::Role;

verus! {

/// The roles that may manage sessions, modules, placements and announcements.
pub const VICE_DOYEN_ROLES: [Role; 1] = [Role::ViceDoyen];

/// New settings of an existing session.
#[derive(Debug)]
pub struct UpdateSessionInput {
    pub id: i32,
    pub cfd_id: i32,
    pub starting_time: u64,
    pub ending_time: u64,
    pub room_number: u64,
}

/// The placement of an applicant in a session, with the anonymous encoding
/// under which his papers are corrected (empty until he is encoded).
#[derive(Debug)]
pub struct ApplicantAffectation {
    pub session_id: i32,
    pub applicant_id: i32,
    pub encoding: String,
}

/// A stored placement, whose encoding may still be missing.
#[derive(Debug)]
pub struct AffectationRow {
    pub session_id: i32,
    pub applicant_id: i32,
    pub encoding: Option<String>,
}

/// The placement that `row` describes: a missing encoding reads as empty.
pub open spec fn affectation_of(row: AffectationRow, a: ApplicantAffectation) -> bool {
    &&& a.session_id == row.session_id
    &&& a.applicant_id == row.applicant_id
    &&& a.encoding@ == match row.encoding {
        Some(e) => e@,
        None => Seq::<char>::empty(),
    }
}

/// The placements of a session, one per stored row, in the same order.
pub fn get_applicant_affectation(rows: Vec<AffectationRow>) -> (out: Vec<ApplicantAffectation>)
    ensures
        out@.len() == rows@.len(),
        forall|i: int| 0 <= i < rows@.len() ==> affectation_of(rows@[i], #[trigger] out@[i]),
{
    let ghost before = rows@;
    let mut out: Vec<ApplicantAffectation> = Vec::new();
    for row in it: rows
        invariant
            it.seq() == before,
            out@.len() == it.index(),
            forall|j: int| 0 <= j < it.index() ==> affectation_of(before[j], #[trigger] out@[j]),
    {
        let encoding = match row.encoding {
            Some(e) => e,
            None => String::new(),
        };
        out.push(ApplicantAffectation {
            applicant_id: row.applicant_id,
            session_id: row.session_id,
            encoding,
        });
    }
    out
}

} // verus!
