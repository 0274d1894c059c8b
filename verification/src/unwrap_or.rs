use vstd::prelude::*;

use crate::unwrappable::Classification;
use crate::unwrappable::Unwrappable;

verus! {

/// Unconditional-fallback extraction: yields the inner value when one is
/// present, and the caller-supplied fallback value otherwise. The present
/// path takes unconditional precedence, whatever the fallback is.
///
/// A fallback that must not be evaluated on the present path, or that
/// transfers control (early return, loop break or continue), cannot cross a
/// function boundary: for those, callers write the expansion inline over
/// [`Unwrappable::classify`], matching the present arm to the inner value and
/// putting the fallback statements in the absent arm.
pub fn unwrap_or<T, E>(source: Unwrappable<T, E>, fallback: T) -> (r: T)
    ensures
        source.is_present() ==> r == source.present_value(),
        !source.is_present() ==> r == fallback,
{
    match source.classify() {
        Classification::Present(v) => v,
        Classification::AbsentEmpty => fallback,
        Classification::AbsentFailure(_) => fallback,
    }
}

} // verus!
