//! What the library knows of `std::time::Duration`.
//!
//! The library never computes on a duration: it makes one from a configured
//! number of milliseconds or seconds and hands it on with each request.

use std::time::Duration;
use vstd::prelude::*;

verus! {

/// The duration that `Duration::from_millis` makes from a number of
/// milliseconds.
pub uninterp spec fn duration_of_millis(millis: u64) -> Duration;

/// The duration that `Duration::from_secs` makes from a number of whole
/// seconds.
pub uninterp spec fn duration_of_secs(secs: u64) -> Duration;

/// `Duration::from_millis` is total and depends on its argument alone; its
/// result goes by the name [`duration_of_millis`].
pub assume_specification[ Duration::from_millis ](millis: u64) -> (d: Duration)
    ensures
        d == duration_of_millis(millis),
;

/// `Duration::from_secs` is total and depends on its argument alone; its
/// result goes by the name [`duration_of_secs`].
pub assume_specification[ Duration::from_secs ](secs: u64) -> (d: Duration)
    ensures
        d == duration_of_secs(secs),
;

} // verus!
