//! The content of a login token and its lifetime.
//!
//! A token names the account it was issued for, never its password, and
//! is accepted for fifteen minutes after it was issued.

use vstd::prelude::*;
use crate::model::user::User;

verus! {

/// How long a token is accepted after it was issued: fifteen minutes, in milliseconds.
pub const TOKEN_LIFETIME_MILLIS: u64 = 900_000;

/// A bound on the clock readings that chrono can give: its latest date lies in
/// the year 262142, about 8.21e15 milliseconds after the Unix epoch.
pub const CLOCK_LIMIT_MILLIS: u64 = 8_300_000_000_000_000;

/// The subject written in every token.
pub open spec fn token_subject() -> Seq<char> {
    seq!['m', 'e']
}

/// `u` with its password taken out.
pub open spec fn without_password(u: User) -> User {
    User {
        id: u.id,
        name: u.name,
        email: u.email,
        password: None,
        role: u.role,
        domaine: u.domaine,
        specialty: u.specialty,
    }
}

/// What a token carries.
pub struct Claims {
    pub sub: String,
    pub user_data: User,
    /// Expiry, in milliseconds since the Unix epoch.
    pub exp: u64,
}

/// The account that the claims `c` grant at time `now` (milliseconds since
/// the epoch): the account in them until their expiry has passed, none after.
pub open spec fn spec_check_expiry(c: Claims, now: u64) -> Option<User> {
    if now > c.exp {
        None
    } else {
        Some(c.user_data)
    }
}

/// The current time read from chrono's `Utc::now`, in milliseconds since the
/// Unix epoch (`DateTime::timestamp_millis`). Claimed: the reading is not
/// negative (chrono's `now` panics when the system clock is before the epoch)
/// and lies below `CLOCK_LIMIT_MILLIS` (chrono represents no later date).
/// Nothing is claimed of which instant it is.
#[verifier::external_body]
fn utc_now_millis() -> (t: i64)
    ensures
        0 <= t <= CLOCK_LIMIT_MILLIS,
{
    chrono::Utc::now().timestamp_millis()
}

/// The current time, in milliseconds since the Unix epoch.
pub fn now_millis() -> (t: u64)
    ensures
        t <= CLOCK_LIMIT_MILLIS,
{
    let t = utc_now_millis();
    t as u64
}

impl Claims {
    /// Claims for `user` issued at time `now` (milliseconds since the epoch):
    /// the fixed subject, the account without its password, and an expiry
    /// one lifetime later.
    pub fn issued_at(user: User, now: u64) -> (c: Claims)
        requires
            now + TOKEN_LIFETIME_MILLIS <= u64::MAX,
        ensures
            c.sub@ == token_subject(),
            c.user_data == without_password(user),
            c.exp == now + TOKEN_LIFETIME_MILLIS,
    {
        let user = User {
            id: user.id,
            name: user.name,
            email: user.email,
            password: None,
            role: user.role,
            domaine: user.domaine,
            specialty: user.specialty,
        };
        let sub = "me".to_string();
        proof {
            reveal_strlit("me");
        }
        Claims { sub, user_data: user, exp: now + TOKEN_LIFETIME_MILLIS }
    }

    /// Claims for `user` issued now.
    pub fn new(user: User) -> (c: Claims)
        ensures
            c.sub@ == token_subject(),
            c.user_data == without_password(user),
            TOKEN_LIFETIME_MILLIS <= c.exp <= CLOCK_LIMIT_MILLIS + TOKEN_LIFETIME_MILLIS,
    {
        let now = now_millis();
        Claims::issued_at(user, now)
    }
}

/// The account that `c` grants at time `now`, or `None` once `c` has expired.
pub fn check_expiry_at(c: Claims, now: u64) -> (granted: Option<User>)
    ensures
        granted == spec_check_expiry(c, now),
{
    if now > c.exp {
        None
    } else {
        Some(c.user_data)
    }
}

/// The account that `c` grants now, or `None` once `c` has expired.
pub fn check_expiry(c: Claims) -> (granted: Option<User>)
    ensures
        granted matches Some(u) ==> u == c.user_data,
        granted is None ==> c.exp < CLOCK_LIMIT_MILLIS,
{
    let now = now_millis();
    check_expiry_at(c, now)
}

/// Claims issued at `issued` for `user` (as `Claims::issued_at` makes them)
/// grant, at time `now`, the account without its password while `now` is at
/// most one lifetime after `issued`, and nothing afterwards.
pub proof fn lemma_token_lifetime(c: Claims, user: User, issued: u64, now: u64)
    requires
        c.user_data == without_password(user),
        c.exp == issued + TOKEN_LIFETIME_MILLIS,
    ensures
        spec_check_expiry(c, now) == if now <= issued + TOKEN_LIFETIME_MILLIS {
            Some(without_password(user))
        } else {
            None
        },
        spec_check_expiry(c, now) matches Some(u) ==> u.password is None,
{
}

} // verus!
