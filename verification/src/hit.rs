//! Nearest-hit selection.
//!
//! Every hit search in the renderer keeps the surface with the smallest ray
//! parameter: the scene scans its objects for the nearest hit, a polyhedron
//! scans its triangles, and a sphere offers its two roots in order. The
//! parameters arrive as order-preserving integer keys; the shell computes
//! the hits themselves and asks these functions which one wins.

use vstd::prelude::*;

verus! {

/// The position of the winning hit in a list of candidates: among the
/// entries that hold a parameter, the one with the smallest, and the
/// earliest such entry when parameters tie; `None` when no entry holds one.
pub fn nearest_hit(ts: &Vec<Option<i64>>) -> (r: Option<usize>)
    ensures
        match r {
            Some(i) => {
                &&& i < ts@.len()
                &&& ts@[i as int] is Some
                &&& forall|j: int|
                    0 <= j < ts@.len() && (#[trigger] ts@[j]) is Some ==> ts@[i as int]->0
                        <= ts@[j]->0
                &&& forall|j: int|
                    0 <= j < i ==> ((#[trigger] ts@[j]) is Some ==> ts@[j]->0 > ts@[i as int]->0)
            },
            None => forall|j: int| 0 <= j < ts@.len() ==> (#[trigger] ts@[j]) is None,
        },
{
    let mut best: Option<usize> = None;
    let mut i: usize = 0;
    while i < ts.len()
        invariant
            i <= ts@.len(),
            match best {
                Some(b) => {
                    &&& b < i
                    &&& ts@[b as int] is Some
                    &&& forall|j: int|
                        0 <= j < i && (#[trigger] ts@[j]) is Some ==> ts@[b as int]->0 <= ts@[j]->0
                    &&& forall|j: int|
                        0 <= j < b ==> ((#[trigger] ts@[j]) is Some ==> ts@[j]->0 > ts@[b as int]->0)
                },
                None => forall|j: int| 0 <= j < i ==> (#[trigger] ts@[j]) is None,
            },
        decreases ts@.len() - i,
    {
        if let Some(t) = ts[i] {
            match best {
                None => {
                    best = Some(i);
                },
                Some(b) => {
                    if t < ts[b].unwrap() {
                        best = Some(i);
                    }
                },
            }
        }
        i = i + 1;
    }
    best
}

/// The smallest parameter within `[t_min, t_max]` in a list of candidate
/// parameters, by its position: the entry with the smallest in-range value,
/// the earliest such entry when values tie; `None` when no value is in
/// range.
pub fn min_in_interval(ts: &Vec<i64>, t_min: i64, t_max: i64) -> (r: Option<usize>)
    ensures
        match r {
            Some(i) => {
                &&& i < ts@.len()
                &&& t_min <= ts@[i as int] <= t_max
                &&& forall|j: int|
                    0 <= j < ts@.len() && t_min <= #[trigger] ts@[j] <= t_max ==> ts@[i as int]
                        <= ts@[j]
                &&& forall|j: int|
                    0 <= j < i ==> !(t_min <= #[trigger] ts@[j] <= t_max && ts@[j] == ts@[i as int])
            },
            None => forall|j: int| 0 <= j < ts@.len() ==> !(t_min <= #[trigger] ts@[j] <= t_max),
        },
{
    let mut best: Option<usize> = None;
    let mut i: usize = 0;
    while i < ts.len()
        invariant
            i <= ts@.len(),
            match best {
                Some(b) => {
                    &&& b < i
                    &&& t_min <= ts@[b as int] <= t_max
                    &&& forall|j: int|
                        0 <= j < i && t_min <= #[trigger] ts@[j] <= t_max ==> ts@[b as int]
                            <= ts@[j]
                    &&& forall|j: int|
                        0 <= j < b ==> !(t_min <= #[trigger] ts@[j] <= t_max && ts@[j] == ts@[b as int])
                },
                None => forall|j: int| 0 <= j < i ==> !(t_min <= #[trigger] ts@[j] <= t_max),
            },
        decreases ts@.len() - i,
    {
        let t = ts[i];
        if t_min <= t && t <= t_max {
            match best {
                None => {
                    best = Some(i);
                },
                Some(b) => {
                    if t < ts[b] {
                        best = Some(i);
                    }
                },
            }
        }
        i = i + 1;
    }
    best
}

/// The root a sphere contributes: of the two roots `t1 <= t2` of its
/// quadratic, the first one that lies within `[t_min, t_max]`.
pub fn first_root_in_interval(t1: i64, t2: i64, t_min: i64, t_max: i64) -> (r: Option<i64>)
    ensures
        r == (if t_min <= t1 <= t_max {
            Some(t1)
        } else if t_min <= t2 <= t_max {
            Some(t2)
        } else {
            None::<i64>
        }),
{
    if t_min <= t1 && t1 <= t_max {
        Some(t1)
    } else if t_min <= t2 && t2 <= t_max {
        Some(t2)
    } else {
        None
    }
}

} // verus!
