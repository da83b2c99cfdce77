use rust_ray_tracer::closest::closest;

fn key(t: f64) -> Option<u64> {
    Some(t.to_bits())
}

#[test]
fn nothing_hit_is_none() {
    assert_eq!(closest(&vec![]), None);
    assert_eq!(closest(&vec![None, None, None]), None);
}

#[test]
fn nearer_of_two_overlapping_spheres_either_order() {
    assert_eq!(closest(&vec![key(0.5), key(0.75)]), Some(0));
    assert_eq!(closest(&vec![key(0.75), key(0.5)]), Some(1));
}

#[test]
fn misses_are_skipped() {
    assert_eq!(closest(&vec![None, key(3.0), None, key(2.0), None]), Some(3));
    assert_eq!(closest(&vec![None, None, key(100.0)]), Some(2));
}

#[test]
fn first_listed_wins_a_tie() {
    assert_eq!(closest(&vec![None, Some(4), Some(4), Some(9)]), Some(1));
    assert_eq!(closest(&vec![Some(7), Some(7)]), Some(0));
}

#[test]
fn positive_ray_parameters_order_like_their_keys() {
    let ts = [0.001, 0.5, 0.999, 1.0, 99.5, 1.0e6, f64::INFINITY];
    for w in ts.windows(2) {
        assert!(w[0].to_bits() < w[1].to_bits());
    }
    assert_eq!(closest(&vec![key(99.5), key(0.001), key(1.0e6)]), Some(1));
}
