//! The account record as the login form submits it: email, password and
//! role, without the directory fields.

use vstd::prelude::*;

verus! {

/// The role of an account.
#[derive(Clone, Copy, Debug, PartialEq, Eq, Structural)]
pub enum Role {
    Admin,
    CFD,
    ViceDoyen,
    Professor,
    Applicant,
}

/// Every role, in declaration order.
pub const ALL_ROLES: [Role; 5] = [
    Role::Admin,
    Role::CFD,
    Role::ViceDoyen,
    Role::Professor,
    Role::Applicant,
];

/// A login record.
#[derive(Debug)]
pub struct User {
    pub id: Option<i32>,
    pub email: String,
    pub password: Option<String>,
    pub role: Option<Role>,
}

} // verus!
