//! Turns: stateless typed transformations `I -> O`.

use vstd::prelude::*;

verus! {

/// Create a turn from a closure: the closure itself is the turn.
pub fn from_fn<I, O, F>(f: F) -> (r: F)
    where
        F: Fn(I) -> O,
    ensures
        r == f,
{
    f
}

} // verus!
