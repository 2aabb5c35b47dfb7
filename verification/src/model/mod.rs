//! The records that the platform stores and exchanges.

pub mod module;
pub mod reclamation;
pub mod result;
pub mod session;
pub mod theme;
pub mod user;
pub mod virtual_platform;
