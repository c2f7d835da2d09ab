//! The intersection-selection and bounce-control logic, exercised on
//! concrete values, including distances produced by real floating-point
//! ray-sphere arithmetic encoded as order keys.

use raytracer::interval::Interval;
use raytracer::nearest::{nearest_hit, nearest_hit_scan, select_root};
use raytracer::trace::{
    trace_events, trace_events_iter, BounceEvent, TraceAction, TraceResult, TraceState,
};

/// The library's order-key encoding, applied to a double's bit pattern.
fn order_key(t: f64) -> u64 {
    raytracer::key::distance_key(t.to_bits())
}

#[test]
fn order_key_agrees_with_float_order() {
    let samples = [-1e9, -2.5, -0.001, 0.0, 1e-12, 0.001, 1.0, 4.0, 9.0, 1e30, f64::INFINITY];
    for i in 0..samples.len() {
        for j in 0..samples.len() {
            assert_eq!(samples[i] < samples[j], order_key(samples[i]) < order_key(samples[j]));
        }
    }
}

#[test]
fn contains_includes_both_endpoints() {
    let window = Interval::new(10, 20);
    assert!(window.contains(10));
    assert!(window.contains(15));
    assert!(window.contains(20));
    assert!(!window.contains(9));
    assert!(!window.contains(21));
}

/// The admission test is strictly open: both endpoints are excluded, so
/// the surface a ray starts on (at the lower bound) is never re-hit.
#[test]
fn surrounds_excludes_both_endpoints() {
    let window = Interval::new(10, 20);
    assert!(!window.surrounds(10));
    assert!(window.surrounds(11));
    assert!(window.surrounds(19));
    assert!(!window.surrounds(20));
}

#[test]
fn empty_and_universe_windows() {
    let empty = Interval::empty();
    let universe = Interval::universe();
    for key in [0u64, 1, 999, u64::MAX] {
        assert!(!empty.contains(key));
        assert!(universe.contains(key));
    }
}

#[test]
fn clamp_saturates_into_window() {
    let window = Interval::new(10, 20);
    assert_eq!(window.clamp(3), 10);
    assert_eq!(window.clamp(15), 15);
    assert_eq!(window.clamp(27), 20);
}

#[test]
fn select_root_prefers_the_nearer_root() {
    let window = Interval::new(100, 1000);
    assert_eq!(select_root(200, 300, &window), Some(200));
}

#[test]
fn select_root_falls_back_to_the_farther_root() {
    let window = Interval::new(100, 1000);
    // The nearer root sits below the window: the ray started inside.
    assert_eq!(select_root(50, 300, &window), Some(300));
    // The nearer root sits exactly on the open lower bound.
    assert_eq!(select_root(100, 300, &window), Some(300));
}

#[test]
fn select_root_reports_no_admissible_root() {
    let window = Interval::new(100, 1000);
    assert_eq!(select_root(10, 50, &window), None);
    assert_eq!(select_root(2000, 3000, &window), None);
}

#[test]
fn nearest_hit_of_nothing_is_none() {
    assert_eq!(nearest_hit(&vec![]), None);
    assert_eq!(nearest_hit(&vec![None, None, None]), None);
}

#[test]
fn nearest_hit_picks_the_smallest_distance() {
    let candidates = vec![Some(9u64), None, Some(4u64), Some(7u64)];
    assert_eq!(nearest_hit(&candidates), Some(2));
}

#[test]
fn nearest_hit_breaks_a_tie_toward_the_earlier_member() {
    let candidates = vec![None, Some(4u64), Some(4u64)];
    assert_eq!(nearest_hit(&candidates), Some(1));
}

#[test]
fn scan_formulation_matches_minimum_formulation() {
    let window = Interval::new(0, u64::MAX);
    let cases: Vec<Vec<Option<u64>>> = vec![
        vec![],
        vec![None, None],
        vec![Some(9), None, Some(4), Some(7)],
        vec![None, Some(4), Some(4)],
        vec![Some(1), Some(2), Some(3)],
        vec![Some(3), Some(2), Some(1)],
    ];
    for candidates in cases {
        assert_eq!(nearest_hit_scan(&candidates, &window), nearest_hit(&candidates));
    }
}

/// Intersection distance of a sphere hit dead-center: the quadratic of
/// the scene geometry, solved in ordinary double arithmetic.
fn center_hit_distance(origin_z: f64, center_z: f64, radius: f64) -> Option<f64> {
    // Ray from (0, 0, origin_z) along +z; sphere centered on the axis.
    let oc = center_z - origin_z;
    let a = 1.0;
    let h = oc;
    let c = oc * oc - radius * radius;
    let discriminant = h * h - a * c;
    if discriminant < 0.0 {
        return None;
    }
    let root = (h - discriminant.sqrt()) / a;
    if root > 0.001 { Some(root) } else { None }
}

/// Two spheres on the ray's axis: whichever intersection is nearer wins,
/// whatever order the scene lists the spheres in.
#[test]
fn nearer_of_two_spheres_wins() {
    let near = center_hit_distance(0.0, 5.0, 1.0).unwrap();
    let far = center_hit_distance(0.0, 10.0, 1.0).unwrap();
    assert_eq!(near, 4.0);
    assert_eq!(far, 9.0);
    let keys = vec![Some(order_key(near)), Some(order_key(far))];
    assert_eq!(nearest_hit(&keys), Some(0));
    let keys_reversed = vec![Some(order_key(far)), Some(order_key(near))];
    assert_eq!(nearest_hit(&keys_reversed), Some(1));
}

/// A sphere whose perpendicular offset exceeds its radius is missed: the
/// discriminant goes negative and no candidate reaches the selection.
#[test]
fn missed_sphere_contributes_no_candidate() {
    // Ray along +z from the origin; sphere at (0, 3, 5) with radius 1.
    let oc_y = 3.0_f64;
    let oc_z = 5.0_f64;
    let h = oc_z;
    let c = oc_y * oc_y + oc_z * oc_z - 1.0;
    let discriminant = h * h - c;
    assert!(discriminant < 0.0);
    assert_eq!(nearest_hit(&vec![None]), None);
}

#[test]
fn zero_budget_emits_black_whatever_the_scene_holds() {
    for events in [
        vec![],
        vec![BounceEvent::Miss],
        vec![BounceEvent::Scattered, BounceEvent::Absorbed],
    ] {
        assert_eq!(trace_events(0, &events), TraceResult::Black { bounces: 0 });
    }
}

#[test]
fn escaping_ray_emits_the_sky_under_any_positive_budget() {
    for depth in [1u8, 2, 50, 255] {
        assert_eq!(
            trace_events(depth, &vec![BounceEvent::Miss]),
            TraceResult::Sky { bounces: 0 }
        );
    }
}

#[test]
fn scattering_attenuates_then_the_sky_emerges() {
    let events = vec![BounceEvent::Scattered, BounceEvent::Scattered, BounceEvent::Miss];
    assert_eq!(trace_events(5, &events), TraceResult::Sky { bounces: 2 });
}

#[test]
fn budget_runs_out_mid_chain() {
    let events = vec![BounceEvent::Scattered, BounceEvent::Scattered, BounceEvent::Miss];
    assert_eq!(trace_events(2, &events), TraceResult::Black { bounces: 2 });
}

#[test]
fn absorption_emits_black() {
    let events = vec![BounceEvent::Scattered, BounceEvent::Absorbed];
    assert_eq!(trace_events(9, &events), TraceResult::Black { bounces: 1 });
}

#[test]
fn short_event_stream_stays_unresolved() {
    let events = vec![BounceEvent::Scattered];
    assert_eq!(trace_events(3, &events), TraceResult::Unresolved);
}

#[test]
fn step_decides_each_bounce() {
    let mut state = TraceState::start(2);
    assert_eq!(state.step(BounceEvent::Scattered), TraceAction::Bounce);
    assert_eq!(state.depth_left, 1);
    assert_eq!(state.step(BounceEvent::Scattered), TraceAction::Bounce);
    assert_eq!(state.depth_left, 0);
    // Budget exhausted: every further event answers black.
    assert_eq!(state.step(BounceEvent::Miss), TraceAction::EmitBlack);
    assert_eq!(state.depth_left, 0);
}

#[test]
fn step_emits_sky_on_a_miss_and_black_on_absorption() {
    let mut state = TraceState::start(3);
    assert_eq!(state.step(BounceEvent::Miss), TraceAction::EmitSky);
    let mut state = TraceState::start(3);
    assert_eq!(state.step(BounceEvent::Absorbed), TraceAction::EmitBlack);
}

/// The loop-with-accumulator form follows a stream to the same end as
/// the recursive form.
#[test]
fn iterative_follower_agrees_with_recursive_follower() {
    let streams: Vec<(u8, Vec<BounceEvent>)> = vec![
        (0, vec![]),
        (0, vec![BounceEvent::Miss]),
        (3, vec![]),
        (3, vec![BounceEvent::Miss]),
        (3, vec![BounceEvent::Absorbed]),
        (3, vec![BounceEvent::Scattered]),
        (3, vec![BounceEvent::Scattered, BounceEvent::Scattered, BounceEvent::Miss]),
        (2, vec![BounceEvent::Scattered, BounceEvent::Scattered, BounceEvent::Miss]),
        (9, vec![BounceEvent::Scattered, BounceEvent::Absorbed]),
    ];
    for (depth, events) in streams {
        assert_eq!(trace_events_iter(depth, &events), trace_events(depth, &events));
    }
}

/// Driving the per-bounce state machine over a stream reproduces what
/// the whole-stream follower says.
#[test]
fn step_loop_agrees_with_trace_events() {
    let streams = vec![
        (0u8, vec![BounceEvent::Miss]),
        (4, vec![BounceEvent::Miss]),
        (4, vec![BounceEvent::Scattered, BounceEvent::Miss]),
        (4, vec![BounceEvent::Scattered, BounceEvent::Absorbed]),
        (1, vec![BounceEvent::Scattered, BounceEvent::Miss]),
    ];
    for (depth, events) in streams {
        let mut state = TraceState::start(depth);
        let mut bounces = 0usize;
        let mut outcome = TraceResult::Unresolved;
        for &event in &events {
            match state.step(event) {
                TraceAction::EmitSky => {
                    outcome = TraceResult::Sky { bounces };
                    break;
                }
                TraceAction::EmitBlack => {
                    outcome = TraceResult::Black { bounces };
                    break;
                }
                TraceAction::Bounce => bounces += 1,
            }
        }
        assert_eq!(outcome, trace_events(depth, &events));
    }
}
