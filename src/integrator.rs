//! Bounce policy of the recursive radiance estimator.
//!
//! A camera ray is followed through at most `max_depth` surface interactions.
//! Each interaction is reported as an event: the ray left the scene, the
//! surface absorbed it, or the surface scattered it. The estimator's color is
//! the product of the attenuations of the scatters taken, times the sky color
//! when the path escaped, and black when it was absorbed or ran out of bounces.

use vstd::prelude::*;

verus! {

/// What the scene did to the current ray.
#[derive(Clone, Copy, Debug, PartialEq, Eq, Structural)]
pub enum SurfaceEvent {
    /// Nothing was hit in (0.001, +inf): the background is seen.
    Missed,
    /// A surface was hit and its material did not scatter.
    Absorbed,
    /// A surface was hit and its material scattered the ray.
    Scattered,
}

/// What the estimator does next.
#[derive(Clone, Copy, Debug, PartialEq, Eq, Structural)]
pub enum PathStep {
    /// Intersect the current ray with the scene; `remaining` bounces are left.
    Trace { remaining: usize },
    /// The path ends and contributes no light.
    Black,
    /// The path ends in the background gradient.
    Sky,
}

/// How a path ended, or that the given events ran out first.
#[derive(Clone, Copy, Debug, PartialEq, Eq, Structural)]
pub enum PathEnd {
    Black,
    Sky,
    Open,
}

/// The first step of a path with a budget of `max_depth` bounces.
pub open spec fn start_spec(max_depth: nat) -> PathStep {
    if max_depth == 0 {
        PathStep::Black
    } else {
        PathStep::Trace { remaining: max_depth as usize }
    }
}

/// The step after `event`, with `remaining` bounces left before it.
pub open spec fn after_spec(remaining: nat, event: SurfaceEvent) -> PathStep {
    match event {
        SurfaceEvent::Missed => PathStep::Sky,
        SurfaceEvent::Absorbed => PathStep::Black,
        SurfaceEvent::Scattered => start_spec((remaining - 1) as nat),
    }
}

/// The number of scatters whose attenuation enters the color, and how the
/// path ends, for a budget of `remaining` bounces and the events in order.
pub open spec fn path_summary(remaining: nat, events: Seq<SurfaceEvent>) -> (nat, PathEnd)
    decreases events.len(),
{
    if remaining == 0 {
        (0, PathEnd::Black)
    } else if events.len() == 0 {
        (0, PathEnd::Open)
    } else {
        match events[0] {
            SurfaceEvent::Missed => (0, PathEnd::Sky),
            SurfaceEvent::Absorbed => (0, PathEnd::Black),
            SurfaceEvent::Scattered => {
                let rest = path_summary((remaining - 1) as nat, events.drop_first());
                (rest.0 + 1, rest.1)
            },
        }
    }
}

/// The first step of a path: a zero budget gives black at once.
pub fn start_path(max_depth: usize) -> (r: PathStep)
    ensures
        r == start_spec(max_depth as nat),
        max_depth == 0 ==> r == PathStep::Black,
{
    if max_depth == 0 {
        PathStep::Black
    } else {
        PathStep::Trace { remaining: max_depth }
    }
}

/// The step after an interaction. A scatter uses one bounce of the budget.
pub fn after_event(remaining: usize, event: SurfaceEvent) -> (r: PathStep)
    requires
        remaining > 0,
    ensures
        r == after_spec(remaining as nat, event),
{
    match event {
        SurfaceEvent::Missed => PathStep::Sky,
        SurfaceEvent::Absorbed => PathStep::Black,
        SurfaceEvent::Scattered => start_path(remaining - 1),
    }
}

/// Runs the bounce policy over a recorded sequence of events, returning how
/// many scatters contribute their attenuation and how the path ended.
pub fn follow_path(max_depth: usize, events: &Vec<SurfaceEvent>) -> (r: (usize, PathEnd))
    ensures
        (r.0 as nat, r.1) == path_summary(max_depth as nat, events@),
{
    let mut step = start_path(max_depth);
    let mut scatters: usize = 0;
    let mut k: usize = 0;
    assert(events@.skip(0) =~= events@);
    loop
        invariant
            k <= events@.len(),
            step is Trace ==> scatters == k,
            scatters <= max_depth,
            step matches PathStep::Trace { remaining } ==> remaining > 0 && path_summary(
                max_depth as nat,
                events@,
            ) == ((scatters + path_summary(remaining as nat, events@.skip(k as int)).0) as nat,
            path_summary(remaining as nat, events@.skip(k as int)).1),
            step matches PathStep::Trace { remaining } ==> scatters + remaining == max_depth,
            step == PathStep::Black ==> path_summary(max_depth as nat, events@) == (
                scatters as nat,
                PathEnd::Black,
            ),
            step == PathStep::Sky ==> path_summary(max_depth as nat, events@) == (
                scatters as nat,
                PathEnd::Sky,
            ),
        decreases events@.len() - k,
    {
        match step {
            PathStep::Black => {
                return (scatters, PathEnd::Black);
            },
            PathStep::Sky => {
                return (scatters, PathEnd::Sky);
            },
            PathStep::Trace { remaining } => {
                if k == events.len() {
                    return (scatters, PathEnd::Open);
                }
                let event = events[k];
                let ghost rest = events@.skip(k as int);
                assert(rest.drop_first() =~= events@.skip(k + 1));
                assert(rest[0] == event);
                let ghost tail = path_summary((remaining - 1) as nat, rest.drop_first());
                assert(path_summary(remaining as nat, rest) == match event {
                    SurfaceEvent::Missed => (0nat, PathEnd::Sky),
                    SurfaceEvent::Absorbed => (0nat, PathEnd::Black),
                    SurfaceEvent::Scattered => (tail.0 + 1, tail.1),
                });
                step = after_event(remaining, event);
                if event == SurfaceEvent::Scattered {
                    scatters = scatters + 1;
                    assert(remaining - 1 == 0 ==> tail == (0nat, PathEnd::Black));
                }
                k = k + 1;
            },
        }
    }
}

/// A zero bounce budget yields black, whatever the scene does to the ray.
pub proof fn lemma_zero_depth_is_black(events: Seq<SurfaceEvent>)
    ensures
        path_summary(0, events) == (0nat, PathEnd::Black),
        start_spec(0) == PathStep::Black,
{
}

/// No path takes more scatters than its bounce budget, and a path that used
/// the whole budget without escaping ends black.
pub proof fn lemma_scatters_bounded(remaining: nat, events: Seq<SurfaceEvent>)
    ensures
        path_summary(remaining, events).0 <= remaining,
        path_summary(remaining, events).0 == remaining ==> path_summary(remaining, events).1
            != PathEnd::Sky,
    decreases events.len(),
{
    if remaining > 0 && events.len() > 0 && events[0] == SurfaceEvent::Scattered {
        lemma_scatters_bounded((remaining - 1) as nat, events.drop_first());
    }
}

} // verus!
