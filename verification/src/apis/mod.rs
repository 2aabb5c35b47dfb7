//! What the web operations decide, grouped by the role that uses them.

pub mod admin;
pub mod cfd;
pub mod professor;
pub mod vice_doyen;
pub mod applicant;
pub mod response;
pub mod rows;
