//! Examination sessions and the announcements made to them.

use vstd::prelude::*;

verus! {

/// An examination session of a virtual platform, run by a CFD.
#[derive(Debug)]
pub struct Session {
    pub id: Option<i32>,
    pub virtual_platform_id: i32,
    pub cfd_id: i32,
    pub starting_time: i64,
    pub ending_time: i64,
    pub room_number: i32,
}

/// An announcement posted to a session.
#[derive(Debug)]
pub struct Announcement {
    pub id: Option<i32>,
    pub title: String,
    pub content: String,
    pub session_id: i32,
}

} // verus!
