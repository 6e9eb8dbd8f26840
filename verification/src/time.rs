//! What this crate assumes about `std::time::Duration`.

use std::time::Duration;
use vstd::prelude::*;

verus! {

/// The whole seconds that a duration holds.
pub uninterp spec fn duration_seconds(duration: Duration) -> u64;

/// `Duration::clone`: a duration is a plain value, and its copy is equal
/// to it.
pub assume_specification[ <Duration as Clone>::clone ](duration: &Duration) -> (copy: Duration)
    ensures
        copy == *duration,
;

/// `Duration::from_secs`: the duration of that many whole seconds.
pub assume_specification[ Duration::from_secs ](secs: u64) -> (duration: Duration)
    ensures
        duration_seconds(duration) == secs,
;

} // verus!
