//! Root selection of the ray-sphere intersection.
//!
//! The quadratic gives a near root and a far root. The hit is at the near root
//! when it lies strictly inside the admissible interval (t_min, t_max), else
//! at the far root when that one does, else there is no hit.

use vstd::prelude::*;

verus! {

/// Which root of the quadratic the intersection reports.
#[derive(Clone, Copy, Debug, PartialEq, Eq, Structural)]
pub enum RootChoice {
    Near,
    Far,
    NoHit,
}

/// `t` lies strictly between `t_min` and `t_max`: neither below the lower
/// bound nor above the upper one.
pub open spec fn admissible(below_min: bool, above_max: bool) -> bool {
    !below_min && !above_max
}

/// Picks the root from the comparisons of each root against the interval's
/// bounds (`near_below_min` is `near <= t_min`, and so on).
pub fn choose_root(
    near_below_min: bool,
    near_above_max: bool,
    far_below_min: bool,
    far_above_max: bool,
) -> (r: RootChoice)
    ensures
        admissible(near_below_min, near_above_max) ==> r == RootChoice::Near,
        !admissible(near_below_min, near_above_max) && admissible(far_below_min, far_above_max)
            ==> r == RootChoice::Far,
        !admissible(near_below_min, near_above_max) && !admissible(far_below_min, far_above_max)
            ==> r == RootChoice::NoHit,
{
    if !(near_below_min || near_above_max) {
        RootChoice::Near
    } else if !(far_below_min || far_above_max) {
        RootChoice::Far
    } else {
        RootChoice::NoHit
    }
}

} // verus!
