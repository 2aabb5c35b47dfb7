//! Core of a doctorate-examination platform: the records it keeps, who may
//! reach which operation, the life of a login token, and the decisions the
//! web layer takes between its database calls.

pub mod model;
pub mod jwt;
pub mod authentication;
pub mod user;
pub mod apis;
