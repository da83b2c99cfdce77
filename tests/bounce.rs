use rust_ray_tracer::bounce::{trace_path, End, Probe, Step, Walk};

#[test]
fn zero_depth_is_black_without_probing() {
    assert_eq!(Walk::new(0).first(), Step::Black);
    assert_eq!(trace_path(0, &vec![]), Some(End::Black));
    assert_eq!(trace_path(0, &vec![Probe::Miss]), Some(End::Black));
    assert_eq!(trace_path(0, &vec![Probe::Scattered, Probe::Miss]), Some(End::Black));
}

#[test]
fn miss_goes_straight_to_sky() {
    assert_eq!(trace_path(1, &vec![Probe::Miss]), Some(End::Sky { bounces: 0 }));
    assert_eq!(trace_path(50, &vec![Probe::Miss]), Some(End::Sky { bounces: 0 }));
}

#[test]
fn scatters_count_towards_the_sky() {
    let probes = vec![Probe::Scattered, Probe::Scattered, Probe::Miss];
    assert_eq!(trace_path(5, &probes), Some(End::Sky { bounces: 2 }));
    assert_eq!(trace_path(3, &probes), Some(End::Sky { bounces: 2 }));
}

#[test]
fn budget_runs_out_to_black() {
    let probes = vec![Probe::Scattered, Probe::Scattered, Probe::Miss];
    assert_eq!(trace_path(2, &probes), Some(End::Black));
    assert_eq!(trace_path(1, &probes), Some(End::Black));
}

#[test]
fn absorption_is_black() {
    assert_eq!(trace_path(4, &vec![Probe::Absorbed]), Some(End::Black));
    assert_eq!(
        trace_path(4, &vec![Probe::Scattered, Probe::Absorbed, Probe::Miss]),
        Some(End::Black)
    );
}

#[test]
fn unfinished_path_needs_more_probes() {
    assert_eq!(trace_path(3, &vec![]), None);
    assert_eq!(trace_path(3, &vec![Probe::Scattered, Probe::Scattered]), None);
}

#[test]
fn walk_steps_one_probe_at_a_time() {
    let mut walk = Walk::new(2);
    assert_eq!(walk.first(), Step::Trace);
    assert_eq!(walk.advance(Probe::Scattered), Step::Trace);
    assert_eq!(walk.remaining, 1);
    assert_eq!(walk.bounces, 1);
    assert_eq!(walk.advance(Probe::Scattered), Step::Black);
    assert_eq!(walk.remaining, 0);
    assert_eq!(walk.bounces, 2);

    let mut walk = Walk::new(3);
    assert_eq!(walk.advance(Probe::Scattered), Step::Trace);
    assert_eq!(walk.advance(Probe::Miss), Step::Sky);
    assert_eq!(walk.bounces, 1);
    assert_eq!(walk.advance(Probe::Absorbed), Step::Black);
}
