//! Virtual platforms, each led by a vice-doyen.

use vstd::prelude::*;

verus! {

/// A virtual platform and the vice-doyen who leads it.
#[derive(Debug)]
pub struct VirtualPlatform {
    pub vd_id: i32,
    pub name: String,
}

} // verus!
