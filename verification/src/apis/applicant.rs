//! What an applicant is shown: the themes he may choose and his rank.

use vstd::prelude::*;
use crate::model::user::Role;
use crate::model::theme::Theme;

verus! {

/// The roles that may reach the operations of an applicant.
pub const API_ROLES: [Role; 1] = [Role::Applicant];

/// A theme together with the email of the professor who proposes it.
#[derive(Debug)]
pub struct ThemeDisplay {
    pub t: Theme,
    pub professor: String,
}

/// An applicant's choice of a theme, with its order of priority.
#[derive(Debug)]
pub struct ThemeId {
    pub session_id: i32,
    pub professor_id: i32,
    pub order: i32,
}

/// A stored theme joined with the email of its professor.
#[derive(Debug)]
pub struct ThemeRow {
    pub session_id: i32,
    pub professor_id: i32,
    pub title: String,
    pub content: String,
    pub email: String,
}

/// Whether `d` shows the theme of `row` under its professor's email.
pub open spec fn displays(row: ThemeRow, d: ThemeDisplay) -> bool {
    &&& d.professor == row.email
    &&& d.t == Theme {
        session_id: row.session_id,
        professor_id: row.professor_id,
        title: row.title,
        content: row.content,
    }
}

/// The themes of a session as an applicant is shown them, one per row, in
/// the same order.
pub fn get_themes(rows: Vec<ThemeRow>) -> (out: Vec<ThemeDisplay>)
    ensures
        out@.len() == rows@.len(),
        forall|i: int| 0 <= i < rows@.len() ==> displays(rows@[i], #[trigger] out@[i]),
{
    let ghost before = rows@;
    let mut out: Vec<ThemeDisplay> = Vec::new();
    for row in it: rows
        invariant
            it.seq() == before,
            out@.len() == it.index(),
            forall|j: int| 0 <= j < it.index() ==> displays(before[j], #[trigger] out@[j]),
    {
        out.push(ThemeDisplay {
            professor: row.email,
            t: Theme {
                session_id: row.session_id,
                professor_id: row.professor_id,
                title: row.title,
                content: row.content,
            },
        });
    }
    out
}

/// The entries of a ranking listed best first, each paired with its rank:
/// the first is ranked 1, the next 2, and so on.
pub fn rank_in_order<T>(entries: Vec<T>) -> (ranked: Vec<(usize, T)>)
    ensures
        ranked@.len() == entries@.len(),
        forall|i: int| 0 <= i < entries@.len() ==> #[trigger] ranked@[i].0 == i + 1 && ranked@[i].1 == entries@[i],
{
    let ghost before = entries@;
    let mut ranked: Vec<(usize, T)> = Vec::new();
    let mut rank: usize = 0;
    let n = entries.len();
    for e in it: entries
        invariant
            it.seq() == before,
            before.len() == n,
            rank == it.index(),
            ranked@.len() == it.index(),
            forall|j: int| 0 <= j < it.index() ==> #[trigger] ranked@[j].0 == j + 1 && ranked@[j].1 == before[j],
    {
        rank = rank + 1;
        ranked.push((rank, e));
    }
    ranked
}

} // verus!
