//! Shared protocol definitions between the radio and USB sides.
use vstd::prelude::*;

verus! {

/// Stand-in for the shared protocol crate: always returns `1`.
pub fn placeholder() -> (r: u32)
    ensures
        r == 1,
{
    1
}

} // verus!
