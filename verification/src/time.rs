//! What is taken on trust about `std::time::Duration`.

use vstd::prelude::*;

verus! {

/// The whole length of a duration, in nanoseconds.
pub uninterp spec fn duration_nanos(d: std::time::Duration) -> nat;

/// `Duration::as_nanos` returns the total number of nanoseconds that the
/// duration contains.
pub assume_specification[ std::time::Duration::as_nanos ](d: &std::time::Duration) -> (n: u128)
    ensures
        n == duration_nanos(*d),
;

/// `Duration::from_nanos` makes the duration that lasts the given number of
/// nanoseconds.
pub assume_specification[ std::time::Duration::from_nanos ](nanos: u64) -> (d: std::time::Duration)
    ensures
        duration_nanos(d) == nanos,
;

} // verus!
