//! Accounts and the roles they may hold.

use vstd::prelude::*;

verus! {

/// The role of an account; it decides which operations the account may reach.
#[derive(Clone, Copy, Debug, PartialEq, Eq, Structural)]
pub enum Role {
    Admin,
    CFD,
    ViceDoyen,
    Professor,
    Applicant,
}

/// Every role, in declaration order.
pub const ALL_ROLES: [Role; 5] = [
    Role::Admin,
    Role::CFD,
    Role::ViceDoyen,
    Role::Professor,
    Role::Applicant,
];

/// An account as it is stored and exchanged.
#[derive(Debug)]
pub struct User {
    pub id: Option<i32>,
    pub name: String,
    pub email: String,
    pub password: Option<String>,
    pub role: Option<Role>,
    pub domaine: Option<String>,
    pub specialty: Option<String>,
}

/// Every role is among `ALL_ROLES`.
pub proof fn lemma_all_roles_complete(r: Role)
    ensures
        ALL_ROLES@.contains(r),
{
    let k: int = match r {
        Role::Admin => 0,
        Role::CFD => 1,
        Role::ViceDoyen => 2,
        Role::Professor => 3,
        Role::Applicant => 4,
    };
    assert(ALL_ROLES@[k] == r);
}

/// Whether `r` is one of `roles`.
pub fn role_in(roles: &[Role], r: Role) -> (found: bool)
    ensures
        found == roles@.contains(r),
{
    let mut i: usize = 0;
    while i < roles.len()
        invariant
            0 <= i <= roles@.len(),
            forall|j: int| 0 <= j < i ==> roles@[j] != r,
        decreases roles@.len() - i,
    {
        if roles[i] == r {
            return true;
        }
        i = i + 1;
    }
    false
}

} // verus!
