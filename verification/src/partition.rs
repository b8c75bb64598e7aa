//! The column partition of a multi-worker render.
//!
//! Tracing rays is independent per pixel, so a render can hand each worker
//! a share of the canvas columns: worker `w` of `n` owns the columns whose
//! index leaves remainder `w` when divided by `n`. Correctness of the
//! shared canvas rests on no column belonging to two workers and every
//! column belonging to one, which is proved here once and for all.

use vstd::prelude::*;

verus! {

/// Whether the given worker owns canvas column `x`.
pub open spec fn owns_column(x: u32, workers: u32, worker: u32) -> bool
    recommends
        workers > 0,
{
    x % workers == worker
}

/// The columns one worker renders: every canvas column it owns, in
/// increasing order.
pub fn worker_columns(width: u32, workers: u32, worker: u32) -> (r: Vec<u32>)
    requires
        workers > 0,
    ensures
        forall|k: int|
            0 <= k < r@.len() ==> (#[trigger] r@[k]) < width && owns_column(r@[k], workers, worker),
        forall|x: u32| x < width && owns_column(x, workers, worker) ==> r@.contains(x),
        forall|k1: int, k2: int| 0 <= k1 < k2 < r@.len() ==> r@[k1] < r@[k2],
{
    let mut r: Vec<u32> = Vec::new();
    let mut x: u32 = 0;
    while x < width
        invariant
            workers > 0,
            x <= width,
            forall|k: int|
                0 <= k < r@.len() ==> (#[trigger] r@[k]) < x && owns_column(r@[k], workers, worker),
            forall|xx: u32| xx < x && owns_column(xx, workers, worker) ==> r@.contains(xx),
            forall|k1: int, k2: int| 0 <= k1 < k2 < r@.len() ==> r@[k1] < r@[k2],
        decreases width - x,
    {
        if x % workers == worker {
            let ghost r0 = r@;
            r.push(x);
            assert forall|xx: u32|
                xx < x + 1 && owns_column(xx, workers, worker) implies r@.contains(xx) by {
                if xx < x {
                    assert(r0.contains(xx));
                    let k = choose|k: int| 0 <= k < r0.len() && r0[k] == xx;
                    assert(r@[k] == xx);
                } else {
                    assert(r@[r@.len() - 1] == xx);
                }
            }
        }
        x = x + 1;
    }
    r
}

/// No canvas column ever belongs to two workers.
pub proof fn lemma_workers_disjoint(x: u32, workers: u32, w1: u32, w2: u32)
    requires
        workers > 0,
        w1 != w2,
    ensures
        !(owns_column(x, workers, w1) && owns_column(x, workers, w2)),
{
}

/// Every canvas column belongs to one of the workers.
pub proof fn lemma_workers_cover(x: u32, workers: u32)
    requires
        workers > 0,
    ensures
        exists|w: u32| w < workers && #[trigger] owns_column(x, workers, w),
{
    assert(x % workers < workers) by (nonlinear_arith)
        requires
            workers > 0,
    ;
    assert(owns_column(x, workers, x % workers));
}

} // verus!
