//! Interval algebra for solids built from two spheres.
//!
//! A ray meets each sphere in a parameter interval (entry to exit). The
//! combined solid's surface is described by an ordered list of breakpoints:
//! parameters at which the ray enters or leaves the solid, each owned by the
//! sphere whose surface is crossed there. Only the order of the parameters
//! matters here, so they are taken as integer keys; a sphere the ray misses
//! is given an empty interval far below every real key.

use vstd::prelude::*;

verus! {

/// How two spheres combine into one solid.
#[derive(Clone, Copy, Debug, PartialEq, Eq, Structural)]
pub enum BooleanOperation {
    UNION,
    INTERSECTION,
    SUBTRACTION,
}

/// The sphere whose surface a breakpoint lies on; the normal there is
/// computed from this sphere's center.
#[derive(Clone, Copy, Debug, PartialEq, Eq, Structural)]
pub enum SphereId {
    A,
    B,
}

/// A ray parameter at which the combined solid is entered or left.
#[derive(Clone, Copy, Debug, PartialEq, Eq, Structural)]
pub struct BreakPoint {
    /// The ray parameter, as an order-preserving integer key.
    pub t: i64,
    /// The sphere that owns the surface at this parameter.
    pub sphere: SphereId,
}

/// True when the two parameter intervals have no point in common.
pub open spec fn ranges_disjoint(a: (i64, i64), b: (i64, i64)) -> bool {
    b.0 > a.1 || a.0 > b.1
}

/// The breakpoint list of the combined solid along the ray, given the two
/// spheres' parameter intervals `a` and `b` (each entry before exit).
///
/// - Union: the outer envelope. Disjoint intervals keep all four ends, the
///   earlier interval first; overlapping intervals keep the earliest start
///   and the latest end.
/// - Intersection: empty when disjoint, else the latest start and the
///   earliest end.
/// - Subtraction (`a` minus `b`): disjoint intervals leave `a` unchanged;
///   when `b` straddles `a`'s exit, `a` is truncated at `b`'s start; when
///   `b` is nested inside `a`, the hole's two walls split `a` in two; when
///   `b` covers `a`, nothing is left.
pub open spec fn spec_break_points(a: (i64, i64), b: (i64, i64), operation: BooleanOperation) -> Seq<
    BreakPoint,
> {
    match operation {
        BooleanOperation::UNION => if ranges_disjoint(a, b) {
            if b.0 > a.1 {
                seq![
                    BreakPoint { t: a.0, sphere: SphereId::A },
                    BreakPoint { t: a.1, sphere: SphereId::A },
                    BreakPoint { t: b.0, sphere: SphereId::B },
                    BreakPoint { t: b.1, sphere: SphereId::B },
                ]
            } else {
                seq![
                    BreakPoint { t: b.0, sphere: SphereId::B },
                    BreakPoint { t: b.1, sphere: SphereId::B },
                    BreakPoint { t: a.0, sphere: SphereId::A },
                    BreakPoint { t: a.1, sphere: SphereId::A },
                ]
            }
        } else {
            seq![
                if a.0 < b.0 {
                    BreakPoint { t: a.0, sphere: SphereId::A }
                } else {
                    BreakPoint { t: b.0, sphere: SphereId::B }
                },
                if a.1 < b.1 {
                    BreakPoint { t: b.1, sphere: SphereId::B }
                } else {
                    BreakPoint { t: a.1, sphere: SphereId::A }
                },
            ]
        },
        BooleanOperation::INTERSECTION => if ranges_disjoint(a, b) {
            seq![]
        } else {
            seq![
                if a.0 < b.0 {
                    BreakPoint { t: b.0, sphere: SphereId::B }
                } else {
                    BreakPoint { t: a.0, sphere: SphereId::A }
                },
                if a.1 < b.1 {
                    BreakPoint { t: a.1, sphere: SphereId::A }
                } else {
                    BreakPoint { t: b.1, sphere: SphereId::B }
                },
            ]
        },
        BooleanOperation::SUBTRACTION => if ranges_disjoint(a, b) {
            seq![
                BreakPoint { t: a.0, sphere: SphereId::A },
                BreakPoint { t: a.1, sphere: SphereId::A },
            ]
        } else if b.0 > a.0 {
            if b.1 >= a.1 {
                seq![
                    BreakPoint { t: a.0, sphere: SphereId::A },
                    BreakPoint { t: b.0, sphere: SphereId::B },
                ]
            } else {
                seq![
                    BreakPoint { t: a.0, sphere: SphereId::A },
                    BreakPoint { t: b.0, sphere: SphereId::B },
                    BreakPoint { t: b.1, sphere: SphereId::A },
                    BreakPoint { t: a.1, sphere: SphereId::A },
                ]
            }
        } else if b.1 < a.1 {
            seq![
                BreakPoint { t: b.1, sphere: SphereId::B },
                BreakPoint { t: a.1, sphere: SphereId::A },
            ]
        } else {
            seq![]
        },
    }
}

/// Merges the two spheres' parameter intervals into the combined solid's
/// breakpoint list.
pub fn break_points(range_a: (i64, i64), range_b: (i64, i64), operation: BooleanOperation) -> (r:
    Vec<BreakPoint>)
    requires
        range_a.0 <= range_a.1,
        range_b.0 <= range_b.1,
    ensures
        r@ == spec_break_points(range_a, range_b, operation),
{
    let no_intersection = range_b.0 > range_a.1 || range_a.0 > range_b.1;
    let r: Vec<BreakPoint> = match operation {
        BooleanOperation::UNION => {
            if no_intersection {
                if range_b.0 > range_a.1 {
                    vec![
                        BreakPoint { t: range_a.0, sphere: SphereId::A },
                        BreakPoint { t: range_a.1, sphere: SphereId::A },
                        BreakPoint { t: range_b.0, sphere: SphereId::B },
                        BreakPoint { t: range_b.1, sphere: SphereId::B },
                    ]
                } else {
                    vec![
                        BreakPoint { t: range_b.0, sphere: SphereId::B },
                        BreakPoint { t: range_b.1, sphere: SphereId::B },
                        BreakPoint { t: range_a.0, sphere: SphereId::A },
                        BreakPoint { t: range_a.1, sphere: SphereId::A },
                    ]
                }
            } else {
                vec![
                    if range_a.0 < range_b.0 {
                        BreakPoint { t: range_a.0, sphere: SphereId::A }
                    } else {
                        BreakPoint { t: range_b.0, sphere: SphereId::B }
                    },
                    if range_a.1 < range_b.1 {
                        BreakPoint { t: range_b.1, sphere: SphereId::B }
                    } else {
                        BreakPoint { t: range_a.1, sphere: SphereId::A }
                    },
                ]
            }
        },
        BooleanOperation::INTERSECTION => {
            if no_intersection {
                Vec::new()
            } else {
                vec![
                    if range_a.0 < range_b.0 {
                        BreakPoint { t: range_b.0, sphere: SphereId::B }
                    } else {
                        BreakPoint { t: range_a.0, sphere: SphereId::A }
                    },
                    if range_a.1 < range_b.1 {
                        BreakPoint { t: range_a.1, sphere: SphereId::A }
                    } else {
                        BreakPoint { t: range_b.1, sphere: SphereId::B }
                    },
                ]
            }
        },
        BooleanOperation::SUBTRACTION => {
            if no_intersection {
                vec![
                    BreakPoint { t: range_a.0, sphere: SphereId::A },
                    BreakPoint { t: range_a.1, sphere: SphereId::A },
                ]
            } else if range_b.0 > range_a.0 {
                if range_b.1 >= range_a.1 {
                    vec![
                        BreakPoint { t: range_a.0, sphere: SphereId::A },
                        BreakPoint { t: range_b.0, sphere: SphereId::B },
                    ]
                } else {
                    vec![
                        BreakPoint { t: range_a.0, sphere: SphereId::A },
                        BreakPoint { t: range_b.0, sphere: SphereId::B },
                        BreakPoint { t: range_b.1, sphere: SphereId::A },
                        BreakPoint { t: range_a.1, sphere: SphereId::A },
                    ]
                }
            } else if range_b.1 < range_a.1 {
                vec![
                    BreakPoint { t: range_b.1, sphere: SphereId::B },
                    BreakPoint { t: range_a.1, sphere: SphereId::A },
                ]
            } else {
                Vec::new()
            }
        },
    };
    proof {
        assert(r@ =~= spec_break_points(range_a, range_b, operation));
    }
    r
}

/// Breakpoints come out ordered by their ray parameter.
pub proof fn lemma_break_points_sorted(a: (i64, i64), b: (i64, i64), operation: BooleanOperation)
    requires
        a.0 <= a.1,
        b.0 <= b.1,
    ensures
        forall|i: int, j: int|
            0 <= i <= j < spec_break_points(a, b, operation).len() ==> #[trigger] spec_break_points(
                a,
                b,
                operation,
            )[i].t <= #[trigger] spec_break_points(a, b, operation)[j].t,
{
}

/// Subtraction keeps the surface on the first sphere's interval: every
/// breakpoint of `a` minus `b` lies within `a`'s interval and never strictly
/// inside `b`'s, and each end of `a` that `b` does not cover survives as a
/// breakpoint of the difference.
pub proof fn lemma_subtraction_coverage(a: (i64, i64), b: (i64, i64))
    requires
        a.0 <= a.1,
        b.0 <= b.1,
    ensures
        forall|i: int|
            0 <= i < spec_break_points(a, b, BooleanOperation::SUBTRACTION).len() ==> a.0
                <= #[trigger] spec_break_points(a, b, BooleanOperation::SUBTRACTION)[i].t <= a.1,
        forall|i: int|
            0 <= i < spec_break_points(a, b, BooleanOperation::SUBTRACTION).len() ==> !(b.0
                < #[trigger] spec_break_points(a, b, BooleanOperation::SUBTRACTION)[i].t < b.1),
        !(b.0 <= a.0 <= b.1) ==> spec_break_points(a, b, BooleanOperation::SUBTRACTION)[0] == (
        BreakPoint { t: a.0, sphere: SphereId::A }),
        !(b.0 <= a.1 <= b.1) ==> spec_break_points(a, b, BooleanOperation::SUBTRACTION).last() == (
        BreakPoint { t: a.1, sphere: SphereId::A }),
{
}

/// Intersecting solids that the ray meets in disjoint intervals leaves no
/// surface at all.
pub proof fn lemma_disjoint_intersection_empty(a: (i64, i64), b: (i64, i64))
    requires
        a.0 <= a.1,
        b.0 <= b.1,
        ranges_disjoint(a, b),
    ensures
        spec_break_points(a, b, BooleanOperation::INTERSECTION).len() == 0,
{
}

/// The first breakpoint whose parameter lies in `[t_min, t_max]`, with its
/// position in the list; the position's parity tells an entry from an exit.
pub fn first_break_point_in(points: &Vec<BreakPoint>, t_min: i64, t_max: i64) -> (r: Option<
    (usize, BreakPoint),
>)
    ensures
        match r {
            Some(found) => {
                &&& found.0 < points@.len()
                &&& found.1 == points@[found.0 as int]
                &&& t_min <= found.1.t <= t_max
                &&& forall|j: int|
                    0 <= j < found.0 ==> !(t_min <= #[trigger] points@[j].t <= t_max)
            },
            None => forall|j: int|
                0 <= j < points@.len() ==> !(t_min <= #[trigger] points@[j].t <= t_max),
        },
{
    let mut i: usize = 0;
    while i < points.len()
        invariant
            i <= points@.len(),
            forall|j: int| 0 <= j < i ==> !(t_min <= #[trigger] points@[j].t <= t_max),
        decreases points@.len() - i,
    {
        let bp = points[i];
        if t_min <= bp.t && bp.t <= t_max {
            return Some((i, bp));
        }
        i = i + 1;
    }
    None
}

/// Whether the outward normal taken from the owning sphere must be flipped
/// at the breakpoint of position `index` so that it points toward the ray
/// origin's side of the solid. `dot` is the dot product of that outward
/// normal with the ray direction, as an integer key of the same sign:
/// breakpoints of even position are entries and flip on a positive dot,
/// those of odd position are exits and flip on a negative one.
pub fn normal_flip(index: usize, dot: i64) -> (r: bool)
    ensures
        r == (if index % 2 == 1 {
            dot < 0
        } else {
            dot > 0
        }),
{
    if index % 2 == 1 {
        dot < 0
    } else {
        dot > 0
    }
}

} // verus!
