//! What a professor sees of the corrections assigned to him.

use vstd::prelude::*;
use crate::model::user::Role;
use crate::model::result::Result;

verus! {

/// The roles that may reach the operations of a professor.
pub const API_ROLES: [Role; 1] = [Role::Professor];

/// A mark that a professor gives to an applicant in a module.
#[derive(Debug)]
pub struct AddMarkInput {
    pub applicant_id: i32,
    pub module_id: String,
    pub session_id: i32,
    pub note: i32,
}

/// A stored result joined with the applicant's anonymous encoding, as the
/// database returns it.
#[derive(Debug)]
pub struct CorrectionRow {
    pub applicant_id: i32,
    pub module_id: String,
    pub session_id: i32,
    pub corrector_1_id: Option<i32>,
    pub corrector_2_id: Option<i32>,
    pub corrector_3_id: Option<i32>,
    pub note_1: Option<i32>,
    pub note_2: Option<i32>,
    pub note_3: Option<i32>,
    pub encoding: Option<String>,
}

/// Whether every corrector of `row` is known.
pub open spec fn correctors_known(row: CorrectionRow) -> bool {
    &&& row.corrector_1_id is Some
    &&& row.corrector_2_id is Some
    &&& row.corrector_3_id is Some
}

/// The three marks of `row` that the professor `prof` may see: only the mark
/// of the first slot that he holds, counting from the first corrector.
pub open spec fn visible_notes(row: CorrectionRow, prof: i32) -> (Option<i32>, Option<i32>, Option<i32>) {
    if row.corrector_1_id->0 == prof {
        (row.note_1, None, None)
    } else if row.corrector_2_id->0 == prof {
        (None, row.note_2, None)
    } else if row.corrector_3_id->0 == prof {
        (None, None, row.note_3)
    } else {
        (None, None, None)
    }
}

/// What the professor `prof` is shown of `row`: the result with only his own
/// mark and no display flags, and the applicant's encoding.
pub open spec fn correction_view(row: CorrectionRow, prof: i32) -> (Result, Option<String>) {
    let notes = visible_notes(row, prof);
    (
        Result {
            applicant_id: row.applicant_id,
            module_id: row.module_id,
            session_id: row.session_id,
            corrector_1_id: row.corrector_1_id->0,
            corrector_2_id: row.corrector_2_id->0,
            corrector_3_id: row.corrector_3_id->0,
            note_1: notes.0,
            note_2: notes.1,
            note_3: notes.2,
            display_to_applicant: None,
            display_to_cfd: None,
        },
        row.encoding,
    )
}

/// What the professor `prof` is shown of one row.
pub fn correction_for(row: CorrectionRow, prof: i32) -> (view: (Result, Option<String>))
    requires
        correctors_known(row),
    ensures
        view == correction_view(row, prof),
        view.0.applicant_id == row.applicant_id,
        view.0.module_id == row.module_id,
        view.0.session_id == row.session_id,
        view.0.corrector_1_id == row.corrector_1_id->0,
        view.0.corrector_2_id == row.corrector_2_id->0,
        view.0.corrector_3_id == row.corrector_3_id->0,
        view.0.display_to_applicant is None,
        view.0.display_to_cfd is None,
        view.1 == row.encoding,
        row.corrector_1_id->0 == prof ==> view.0.note_1 == row.note_1,
        view.0.note_1 is Some ==> row.corrector_1_id->0 == prof && view.0.note_1 == row.note_1,
        view.0.note_2 is Some ==> row.corrector_2_id->0 == prof && view.0.note_2 == row.note_2
            && view.0.note_1 is None,
        view.0.note_3 is Some ==> row.corrector_3_id->0 == prof && view.0.note_3 == row.note_3
            && view.0.note_1 is None && view.0.note_2 is None,
{
    let c1 = row.corrector_1_id.unwrap();
    let c2 = row.corrector_2_id.unwrap();
    let c3 = row.corrector_3_id.unwrap();
    let mut note_1: Option<i32> = None;
    let mut note_2: Option<i32> = None;
    let mut note_3: Option<i32> = None;
    if c1 == prof {
        note_1 = row.note_1;
    } else if c2 == prof {
        note_2 = row.note_2;
    } else if c3 == prof {
        note_3 = row.note_3;
    }
    (
        Result {
            applicant_id: row.applicant_id,
            module_id: row.module_id,
            session_id: row.session_id,
            corrector_1_id: c1,
            corrector_2_id: c2,
            corrector_3_id: c3,
            note_1,
            note_2,
            note_3,
            display_to_applicant: None,
            display_to_cfd: None,
        },
        row.encoding,
    )
}

/// What the professor `professor_id` is shown of the rows of his
/// corrections, row by row. The professor must be known when there is a
/// row, and every row must name its three correctors.
pub fn get_corrections(rows: Vec<CorrectionRow>, professor_id: Option<i32>) -> (views: Vec<(Result, Option<String>)>)
    requires
        rows@.len() > 0 ==> professor_id is Some,
        forall|i: int| 0 <= i < rows@.len() ==> correctors_known(#[trigger] rows@[i]),
    ensures
        views@.len() == rows@.len(),
        forall|i: int| 0 <= i < rows@.len() ==> #[trigger] views@[i] == correction_view(rows@[i], professor_id->0),
        forall|i: int| 0 <= i < rows@.len() ==> {
            &&& (#[trigger] views@[i]).0.applicant_id == rows@[i].applicant_id
            &&& views@[i].0.module_id == rows@[i].module_id
            &&& views@[i].0.session_id == rows@[i].session_id
            &&& views@[i].1 == rows@[i].encoding
        },
{
    let ghost before = rows@;
    let mut views: Vec<(Result, Option<String>)> = Vec::new();
    for row in it: rows
        invariant
            it.seq() == before,
            before.len() > 0 ==> professor_id is Some,
            forall|i: int| 0 <= i < before.len() ==> correctors_known(#[trigger] before[i]),
            views@.len() == it.index(),
            forall|j: int| 0 <= j < it.index() ==> #[trigger] views@[j] == correction_view(before[j], professor_id->0),
    {
        let prof = professor_id.unwrap();
        views.push(correction_for(row, prof));
    }
    views
}

/// What a professor is shown of a row names the same applicant, module,
/// session, correctors and encoding as the row, with no display flags.
pub proof fn lemma_correction_keeps_identity(row: CorrectionRow, prof: i32)
    requires
        correctors_known(row),
    ensures
        ({
            let (r, enc) = correction_view(row, prof);
            &&& r.applicant_id == row.applicant_id
            &&& r.module_id == row.module_id
            &&& r.session_id == row.session_id
            &&& Some(r.corrector_1_id) == row.corrector_1_id
            &&& Some(r.corrector_2_id) == row.corrector_2_id
            &&& Some(r.corrector_3_id) == row.corrector_3_id
            &&& r.display_to_applicant is None
            &&& r.display_to_cfd is None
            &&& enc == row.encoding
        }),
{
}

/// A professor is shown at most one mark of a row, and only the mark of a
/// slot that he holds.
pub proof fn lemma_professor_sees_only_own_mark(row: CorrectionRow, prof: i32)
    requires
        correctors_known(row),
    ensures
        ({
            let r = correction_view(row, prof).0;
            &&& r.note_1 is Some ==> r.corrector_1_id == prof && r.note_1 == row.note_1 && r.note_2 is None && r.note_3 is None
            &&& r.note_2 is Some ==> r.corrector_2_id == prof && r.note_2 == row.note_2 && r.note_1 is None && r.note_3 is None
            &&& r.note_3 is Some ==> r.corrector_3_id == prof && r.note_3 == row.note_3 && r.note_1 is None && r.note_2 is None
        }),
{
}

} // verus!
