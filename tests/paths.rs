use raytracer::integrator::{after_event, follow_path, start_path, PathEnd, PathStep, SurfaceEvent};
use raytracer::sphere::{choose_root, RootChoice};

#[test]
fn zero_depth_is_black() {
    assert_eq!(start_path(0), PathStep::Black);
    let events = vec![SurfaceEvent::Scattered, SurfaceEvent::Missed];
    assert_eq!(follow_path(0, &events), (0, PathEnd::Black));
    assert_eq!(follow_path(0, &Vec::new()), (0, PathEnd::Black));
}

#[test]
fn steps() {
    assert_eq!(start_path(5), PathStep::Trace { remaining: 5 });
    assert_eq!(after_event(5, SurfaceEvent::Missed), PathStep::Sky);
    assert_eq!(after_event(5, SurfaceEvent::Absorbed), PathStep::Black);
    assert_eq!(after_event(5, SurfaceEvent::Scattered), PathStep::Trace { remaining: 4 });
    assert_eq!(after_event(1, SurfaceEvent::Scattered), PathStep::Black);
}

#[test]
fn escaping_path() {
    let events = vec![SurfaceEvent::Scattered, SurfaceEvent::Scattered, SurfaceEvent::Missed];
    assert_eq!(follow_path(5, &events), (2, PathEnd::Sky));
}

#[test]
fn absorbed_path() {
    let events = vec![SurfaceEvent::Scattered, SurfaceEvent::Absorbed, SurfaceEvent::Missed];
    assert_eq!(follow_path(5, &events), (1, PathEnd::Black));
}

#[test]
fn budget_runs_out() {
    let events = vec![SurfaceEvent::Scattered; 4];
    assert_eq!(follow_path(3, &events), (3, PathEnd::Black));
    assert_eq!(follow_path(5, &events), (4, PathEnd::Open));
}

#[test]
fn roots() {
    assert_eq!(choose_root(false, false, false, false), RootChoice::Near);
    assert_eq!(choose_root(true, false, false, false), RootChoice::Far);
    assert_eq!(choose_root(false, true, false, true), RootChoice::NoHit);
    assert_eq!(choose_root(true, false, true, false), RootChoice::NoHit);
}
