//! Account administration: the passwords that new accounts receive.

use vstd::prelude::*;
use rand::Rng;
use crate::model::user::{Role, User};

verus! {

/// The roles that may manage accounts and virtual platforms.
pub const ADMIN_ROLES: [Role; 1] = [Role::Admin];

/// The number of characters of a generated password.
pub const PASSWORD_LENGTH: usize = 7;

/// An ASCII digit or letter: the characters of generated passwords.
pub open spec fn is_alphanumeric(c: char) -> bool {
    ||| ('0' <= c && c <= '9')
    ||| ('A' <= c && c <= 'Z')
    ||| ('a' <= c && c <= 'z')
}

/// A password as `generate_password` makes them: seven ASCII digits or letters.
pub open spec fn is_generated_password(p: Seq<char>) -> bool {
    &&& p.len() == PASSWORD_LENGTH
    &&& forall|i: int| 0 <= i < p.len() ==> is_alphanumeric(#[trigger] p[i])
}

/// One draw from rand's `Alphanumeric` distribution on the thread-local
/// generator (`thread_rng().sample(Alphanumeric)`). Claimed, as rand
/// documents: the byte is the ASCII code of a digit or a letter. Which one
/// comes out is left open.
#[verifier::external_body]
fn sample_alphanumeric() -> (b: u8)
    ensures
        is_alphanumeric_byte(b),
{
    rand::thread_rng().sample(rand::distributions::Alphanumeric)
}

/// std's `String::push`: appends `c` to `s`.
#[verifier::external_body]
fn push_char(s: &mut String, c: char)
    ensures
        final(s)@ == old(s)@.push(c),
{
    s.push(c)
}

/// Whether `b` is the ASCII code of a digit or a letter.
pub open spec fn is_alphanumeric_byte(b: u8) -> bool {
    (48 <= b <= 57) || (65 <= b <= 90) || (97 <= b <= 122)
}

/// The password spelled by `draws`: each byte read as the ASCII character
/// it codes, in order.
pub fn password_from_draws(draws: Vec<u8>) -> (p: String)
    ensures
        p@ == draws@.map_values(|b: u8| b as char),
        (draws@.len() == PASSWORD_LENGTH && forall|i: int|
            0 <= i < draws@.len() ==> is_alphanumeric_byte(#[trigger] draws@[i]))
            ==> is_generated_password(p@),
{
    let mut p = String::new();
    let mut i: usize = 0;
    while i < draws.len()
        invariant
            i <= draws@.len(),
            p@ == draws@.subrange(0, i as int).map_values(|b: u8| b as char),
        decreases draws@.len() - i,
    {
        let b = draws[i];
        let c = b as char;
        push_char(&mut p, c);
        proof {
            assert(draws@.subrange(0, i + 1).map_values(|b: u8| b as char) =~= draws@.subrange(
                0,
                i as int,
            ).map_values(|b: u8| b as char).push(c));
        }
        i = i + 1;
    }
    proof {
        assert(draws@.subrange(0, draws@.len() as int) =~= draws@);
        if forall|k: int| 0 <= k < draws@.len() ==> is_alphanumeric_byte(#[trigger] draws@[k]) {
            assert forall|j: int| 0 <= j < p@.len() implies is_alphanumeric(#[trigger] p@[j]) by {
                assert(is_alphanumeric_byte(draws@[j]));
            }
        }
    }
    p
}

/// A fresh random password: seven draws from rand's `Alphanumeric`
/// distribution, spelled out by `password_from_draws`.
pub fn generate_password() -> (p: String)
    ensures
        is_generated_password(p@),
{
    let mut draws: Vec<u8> = Vec::new();
    let mut i: usize = 0;
    while i < PASSWORD_LENGTH
        invariant
            i <= PASSWORD_LENGTH,
            draws@.len() == i,
            forall|k: int| 0 <= k < i ==> is_alphanumeric_byte(#[trigger] draws@[k]),
        decreases PASSWORD_LENGTH - i,
    {
        let b = sample_alphanumeric();
        draws.push(b);
        i = i + 1;
    }
    password_from_draws(draws)
}

/// `u` as it is stored when created in bulk: every field kept, and a
/// generated password.
pub open spec fn with_new_password(before: User, after: User) -> bool {
    &&& after.id == before.id
    &&& after.name == before.name
    &&& after.email == before.email
    &&& after.role == before.role
    &&& after.domaine == before.domaine
    &&& after.specialty == before.specialty
    &&& after.password matches Some(p) && is_generated_password(p@)
}

/// The accounts of a bulk creation, in the same order, the `i`-th given
/// the `i`-th of `passwords` in place of whatever password it carried;
/// every other field is kept.
pub fn with_passwords(users: Vec<User>, passwords: Vec<String>) -> (out: Vec<User>)
    requires
        passwords@.len() == users@.len(),
    ensures
        out@.len() == users@.len(),
        forall|i: int| 0 <= i < users@.len() ==> {
            &&& #[trigger] out@[i].id == users@[i].id
            &&& out@[i].name == users@[i].name
            &&& out@[i].email == users@[i].email
            &&& out@[i].role == users@[i].role
            &&& out@[i].domaine == users@[i].domaine
            &&& out@[i].specialty == users@[i].specialty
            &&& out@[i].password == Some(passwords@[i])
        },
{
    let ghost before = users@;
    let ghost given = passwords@;
    let mut remaining = passwords;
    let mut passwords: Vec<String> = Vec::new();
    while remaining.len() > 0
        invariant
            remaining@.len() + passwords@.len() == given.len(),
            forall|k: int| 0 <= k < remaining@.len() ==> #[trigger] remaining@[k] == given[k],
            forall|k: int| 0 <= k < passwords@.len() ==> #[trigger] passwords@[k] == given[given.len() - 1 - k],
        decreases remaining@.len(),
    {
        let p = remaining.pop().unwrap();
        passwords.push(p);
    }
    let mut out: Vec<User> = Vec::new();
    for u in it: users
        invariant
            it.seq() == before,
            given.len() == before.len(),
            passwords@.len() + it.index() == given.len(),
            forall|k: int| 0 <= k < passwords@.len() ==> #[trigger] passwords@[k] == given[given.len() - 1 - k],
            out@.len() == it.index(),
            forall|j: int| 0 <= j < it.index() ==> {
                &&& #[trigger] out@[j].id == before[j].id
                &&& out@[j].name == before[j].name
                &&& out@[j].email == before[j].email
                &&& out@[j].role == before[j].role
                &&& out@[j].domaine == before[j].domaine
                &&& out@[j].specialty == before[j].specialty
                &&& out@[j].password == Some(given[j])
            },
    {
        let password = passwords.pop().unwrap();
        out.push(User {
            id: u.id,
            name: u.name,
            email: u.email,
            password: Some(password),
            role: u.role,
            domaine: u.domaine,
            specialty: u.specialty,
        });
    }
    out
}

/// The accounts of a bulk creation, in the same order, each given a fresh
/// generated password in place of whatever password it carried.
pub fn with_generated_passwords(users: Vec<User>) -> (out: Vec<User>)
    ensures
        out@.len() == users@.len(),
        forall|i: int| 0 <= i < users@.len() ==> with_new_password(users@[i], #[trigger] out@[i]),
{
    let mut passwords: Vec<String> = Vec::new();
    let n = users.len();
    let mut i: usize = 0;
    while i < n
        invariant
            i <= n,
            passwords@.len() == i,
            forall|k: int| 0 <= k < i ==> is_generated_password(#[trigger] passwords@[k]@),
        decreases n - i,
    {
        passwords.push(generate_password());
        i = i + 1;
    }
    let out = with_passwords(users, passwords);
    proof {
        assert forall|j: int| 0 <= j < out@.len() implies with_new_password(users@[j], #[trigger] out@[j]) by {
            assert(out@[j].id == users@[j].id);
            assert(is_generated_password(passwords@[j]@));
        }
    }
    out
}

} // verus!
