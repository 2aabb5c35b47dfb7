//! How a write to the database is judged from the number of rows it touched.

use vstd::prelude::*;

verus! {

/// The failure of a write that touched the wrong number of rows.
#[derive(Debug, PartialEq, Eq, Structural)]
pub struct RowNotFound;

/// How many rows a write must touch to count as done.
#[derive(Clone, Copy, Debug, PartialEq, Eq, Structural)]
pub enum Expect {
    /// At least one row (creating a virtual platform or a session).
    AtLeastOne,
    /// Exactly one row (most updates, inserts and deletions).
    ExactlyOne,
    /// Any number but one (deleting a virtual platform).
    AnyButOne,
}

/// Whether touching `affected` rows satisfies `expect`.
pub open spec fn rows_ok(affected: u64, expect: Expect) -> bool {
    match expect {
        Expect::AtLeastOne => affected != 0,
        Expect::ExactlyOne => affected == 1,
        Expect::AnyButOne => affected != 1,
    }
}

/// Judges a write that touched `affected` rows: done when `expect` holds of
/// the count, `RowNotFound` otherwise.
pub fn check_rows_affected(affected: u64, expect: Expect) -> (r: core::result::Result<(), RowNotFound>)
    ensures
        r is Ok <==> rows_ok(affected, expect),
        expect is AtLeastOne ==> (r is Ok <==> affected >= 1),
        expect is ExactlyOne ==> (r is Ok <==> affected == 1),
        expect is AnyButOne ==> (r is Ok <==> affected != 1),
{
    let ok = match expect {
        Expect::AtLeastOne => affected != 0,
        Expect::ExactlyOne => affected == 1,
        Expect::AnyButOne => affected != 1,
    };
    if ok {
        Ok(())
    } else {
        Err(RowNotFound)
    }
}

/// A write that must touch at least one row is done exactly when it touched
/// one or more; one that must touch exactly one is done exactly on one; the
/// inverted check is done on every count but one.
pub proof fn lemma_rows_ok_counts(affected: u64)
    ensures
        rows_ok(affected, Expect::AtLeastOne) <==> affected >= 1,
        rows_ok(affected, Expect::ExactlyOne) <==> affected == 1,
        rows_ok(affected, Expect::AnyButOne) <==> affected != 1,
        rows_ok(1, Expect::AtLeastOne),
        rows_ok(1, Expect::ExactlyOne),
        !rows_ok(0, Expect::AtLeastOne),
{
}

} // verus!
