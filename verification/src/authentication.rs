//! Who may reach an operation, and whether submitted credentials match the
//! stored account.

use vstd::prelude::*;
use crate::model::user::{ALL_ROLES, Role, User, lemma_all_roles_complete, role_in};
use crate::jwt::{
    Claims, now_millis, spec_check_expiry, token_subject, without_password, CLOCK_LIMIT_MILLIS,
    TOKEN_LIFETIME_MILLIS,
};

verus! {

/// Whether two optional passwords are the same: both absent, or both
/// present with the same characters.
pub open spec fn same_password(a: Option<String>, b: Option<String>) -> bool {
    match (a, b) {
        (None, None) => true,
        (Some(x), Some(y)) => x@ == y@,
        _ => false,
    }
}

/// Whether the holder `claim` of a token passes the role gate `roles`: the
/// token names an account whose role is one of `roles`.
pub open spec fn role_admitted(claim: Option<User>, roles: Seq<Role>) -> bool {
    &&& claim is Some
    &&& claim->0.role is Some
    &&& roles.contains(claim->0.role->0)
}

/// Compares two optional passwords.
pub fn passwords_match(a: &Option<String>, b: &Option<String>) -> (same: bool)
    ensures
        same == same_password(*a, *b),
{
    match (a, b) {
        (None, None) => true,
        (Some(x), Some(y)) => x.eq(y),
        _ => false,
    }
}

/// The decision of a login: `stored` is the account found under the
/// submitted email (`None` when the lookup found none or failed); it is
/// granted exactly when its password equals the submitted one.
pub fn check_credentials(submitted: &User, stored: Option<User>) -> (granted: Option<User>)
    ensures
        granted == match stored {
            Some(found) => if same_password(found.password, submitted.password) {
                Some(found)
            } else {
                None
            },
            None => None,
        },
{
    match stored {
        Some(found) => {
            if passwords_match(&found.password, &submitted.password) {
                Some(found)
            } else {
                None
            }
        },
        None => None,
    }
}

/// Guards an operation by role and by a check on the caller.
///
/// `claim` is the account named by the caller's valid token (`None` when
/// there is no valid token). The caller passes when the account has a role
/// among `roles` and `checks` then holds of it; `logic` is run on the account
/// only then, and its result is returned. `checks` is not consulted when the
/// role gate fails.
pub fn secure_function<F, G, T>(checks: F, logic: G, roles: &[Role], claim: Option<User>) -> (res:
    Option<T>) where F: FnOnce(&User) -> bool, G: FnOnce(User) -> T
    requires
        forall|u: &User| #[trigger] call_requires(checks, (u,)),
        forall|u: User| #[trigger] call_requires(logic, (u,)),
    ensures
        res matches Some(t) ==> {
            &&& role_admitted(claim, roles@)
            &&& call_ensures(checks, (&claim->0,), true)
            &&& call_ensures(logic, (claim->0,), t)
        },
        res is None ==> !role_admitted(claim, roles@) || call_ensures(checks, (&claim->0,), false),
{
    match claim {
        Some(u) => {
            match u.role {
                Some(r) => {
                    if role_in(roles, r) && checks(&u) {
                        Some(logic(u))
                    } else {
                        None
                    }
                },
                None => None,
            }
        },
        None => None,
    }
}

/// `ALL_ROLES` admits exactly the accounts that have a role.
pub proof fn lemma_all_roles_admit_every_role(claim: Option<User>)
    ensures
        role_admitted(claim, ALL_ROLES@) <==> (claim is Some && claim->0.role is Some),
{
    if claim is Some && claim->0.role is Some {
        lemma_all_roles_complete(claim->0.role->0);
    }
}

/// The claims of the token that a login at time `now` (milliseconds since
/// the epoch) hands out: `stored` is the account found under the submitted
/// email. A token is issued for it, without its password and expiring one
/// lifetime after `now`, exactly when the submitted password matches.
pub fn login_at(submitted: &User, stored: Option<User>, now: u64) -> (issued: Option<Claims>)
    requires
        now + TOKEN_LIFETIME_MILLIS <= u64::MAX,
    ensures
        issued is Some <==> (stored is Some && same_password(stored->0.password, submitted.password)),
        issued matches Some(c) ==> {
            &&& c.sub@ == token_subject()
            &&& c.user_data == without_password(stored->0)
            &&& c.exp == now + TOKEN_LIFETIME_MILLIS
        },
{
    match check_credentials(submitted, stored) {
        Some(u) => Some(Claims::issued_at(u, now)),
        None => None,
    }
}

/// The claims of the token that a login hands out now: as `login_at` at
/// the current time.
pub fn login(submitted: &User, stored: Option<User>) -> (issued: Option<Claims>)
    ensures
        issued is Some <==> (stored is Some && same_password(stored->0.password, submitted.password)),
        issued matches Some(c) ==> {
            &&& c.sub@ == token_subject()
            &&& c.user_data == without_password(stored->0)
            &&& TOKEN_LIFETIME_MILLIS <= c.exp <= CLOCK_LIMIT_MILLIS + TOKEN_LIFETIME_MILLIS
        },
{
    let now = now_millis();
    login_at(submitted, stored, now)
}

/// The claims of the token that replaces the caller's at time `now`:
/// `claim` is the account named by the caller's valid token. Any account
/// with a role gets a new token for itself, without its password, expiring
/// one lifetime after `now`.
pub fn refresh_at(claim: Option<User>, now: u64) -> (renewed: Option<Claims>)
    requires
        now + TOKEN_LIFETIME_MILLIS <= u64::MAX,
    ensures
        renewed is Some <==> (claim is Some && claim->0.role is Some),
        renewed matches Some(c) ==> {
            &&& c.sub@ == token_subject()
            &&& c.user_data == without_password(claim->0)
            &&& c.exp == now + TOKEN_LIFETIME_MILLIS
        },
{
    let ghost held = claim;
    let any_caller = |_u: &User| -> (pass: bool)
        ensures
            pass,
        {
            true
        };
    let issue = |u: User| -> (c: Claims)
        requires
            now + TOKEN_LIFETIME_MILLIS <= u64::MAX,
        ensures
            c.sub@ == token_subject(),
            c.user_data == without_password(u),
            c.exp == now + TOKEN_LIFETIME_MILLIS,
        {
            Claims::issued_at(u, now)
        };
    let renewed = secure_function(any_caller, issue, &ALL_ROLES, claim);
    proof {
        lemma_all_roles_admit_every_role(held);
    }
    renewed
}

/// The claims of the token that replaces the caller's now: as `refresh_at`
/// at the current time.
pub fn refresh(claim: Option<User>) -> (renewed: Option<Claims>)
    ensures
        renewed is Some <==> (claim is Some && claim->0.role is Some),
        renewed matches Some(c) ==> {
            &&& c.sub@ == token_subject()
            &&& c.user_data == without_password(claim->0)
            &&& TOKEN_LIFETIME_MILLIS <= c.exp <= CLOCK_LIMIT_MILLIS + TOKEN_LIFETIME_MILLIS
        },
{
    let now = now_millis();
    refresh_at(claim, now)
}

/// A token issued for an account at `issued` lets its holder through a
/// role list that holds the account's role at any time up to one lifetime
/// later.
pub proof fn lemma_fresh_token_passes(c: Claims, user: User, issued: u64, now: u64, roles: Seq<Role>)
    requires
        c.user_data == without_password(user),
        c.exp == issued + TOKEN_LIFETIME_MILLIS,
        now <= issued + TOKEN_LIFETIME_MILLIS,
        user.role is Some,
        roles.contains(user.role->0),
    ensures
        role_admitted(spec_check_expiry(c, now), roles),
{
}

} // verus!
