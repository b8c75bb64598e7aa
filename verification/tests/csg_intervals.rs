use cgfs::csg::{break_points, first_break_point_in, normal_flip, BooleanOperation, BreakPoint,
    SphereId};

fn a(t: i64) -> BreakPoint {
    BreakPoint { t, sphere: SphereId::A }
}

fn b(t: i64) -> BreakPoint {
    BreakPoint { t, sphere: SphereId::B }
}

#[test]
fn union_of_disjoint_intervals_keeps_all_four_ends() {
    let pts = break_points((0, 10), (20, 30), BooleanOperation::UNION);
    assert_eq!(pts, vec![a(0), a(10), b(20), b(30)]);
    // the earlier-starting interval comes first either way round
    let pts = break_points((20, 30), (0, 10), BooleanOperation::UNION);
    assert_eq!(pts, vec![b(0), b(10), a(20), a(30)]);
}

#[test]
fn union_of_overlapping_intervals_is_the_envelope() {
    let pts = break_points((0, 10), (5, 20), BooleanOperation::UNION);
    assert_eq!(pts, vec![a(0), b(20)]);
    let pts = break_points((5, 20), (0, 10), BooleanOperation::UNION);
    assert_eq!(pts, vec![b(0), a(20)]);
}

#[test]
fn intersection_of_disjoint_intervals_is_empty() {
    let pts = break_points((0, 10), (20, 30), BooleanOperation::INTERSECTION);
    assert!(pts.is_empty());
    // a sphere the ray misses gets an empty interval far below every key
    let pts = break_points((i64::MIN, i64::MIN), (20, 30), BooleanOperation::INTERSECTION);
    assert!(pts.is_empty());
}

#[test]
fn intersection_of_overlapping_intervals_is_the_overlap() {
    let pts = break_points((0, 10), (5, 20), BooleanOperation::INTERSECTION);
    assert_eq!(pts, vec![b(5), a(10)]);
}

#[test]
fn subtraction_of_disjoint_interval_leaves_the_first_alone() {
    let pts = break_points((0, 10), (20, 30), BooleanOperation::SUBTRACTION);
    assert_eq!(pts, vec![a(0), a(10)]);
}

#[test]
fn subtraction_straddling_the_exit_truncates() {
    let pts = break_points((0, 10), (5, 20), BooleanOperation::SUBTRACTION);
    assert_eq!(pts, vec![a(0), b(5)]);
}

#[test]
fn subtraction_of_nested_interval_splits_in_two() {
    let pts = break_points((0, 10), (3, 7), BooleanOperation::SUBTRACTION);
    assert_eq!(pts, vec![a(0), b(3), a(7), a(10)]);
    // no surface falls strictly inside the hole
    for p in &pts {
        assert!(!(3 < p.t && p.t < 7));
    }
}

#[test]
fn subtraction_covered_is_empty() {
    let pts = break_points((3, 7), (0, 10), BooleanOperation::SUBTRACTION);
    assert!(pts.is_empty());
}

#[test]
fn subtraction_straddling_the_entry_truncates() {
    let pts = break_points((5, 20), (0, 10), BooleanOperation::SUBTRACTION);
    assert_eq!(pts, vec![b(10), a(20)]);
}

#[test]
fn touching_intervals_count_as_overlapping() {
    // intervals that share one point: not disjoint, so the overlap rules apply
    let pts = break_points((0, 10), (10, 20), BooleanOperation::UNION);
    assert_eq!(pts, vec![a(0), b(20)]);
    let pts = break_points((0, 10), (10, 20), BooleanOperation::INTERSECTION);
    assert_eq!(pts, vec![b(10), a(10)]);
    let pts = break_points((0, 10), (10, 20), BooleanOperation::SUBTRACTION);
    assert_eq!(pts, vec![a(0), b(10)]);
}

#[test]
fn first_break_point_respects_the_query_interval() {
    let pts = vec![a(0), b(3), a(7), a(10)];
    assert_eq!(first_break_point_in(&pts, 1, 100), Some((1, b(3))));
    assert_eq!(first_break_point_in(&pts, 8, 100), Some((3, a(10))));
    assert_eq!(first_break_point_in(&pts, 11, 100), None);
    assert_eq!(first_break_point_in(&pts, 0, 100), Some((0, a(0))));
}

#[test]
fn normal_flips_by_parity_and_dot_sign() {
    // entries (even position) flip when the outward normal points along the ray
    assert!(normal_flip(0, 1));
    assert!(!normal_flip(0, -1));
    assert!(!normal_flip(0, 0));
    // exits (odd position) flip when it points against the ray
    assert!(normal_flip(1, -1));
    assert!(!normal_flip(1, 1));
    assert!(!normal_flip(1, 0));
    assert!(normal_flip(2, 1));
    assert!(normal_flip(3, -1));
}
