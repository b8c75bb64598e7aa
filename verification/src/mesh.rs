//! The index topology of a tessellated sphere model.
//!
//! A sphere model is built from latitude rings and longitude lines: two
//! pole vertices, `divides` ring vertices on each of `2 * divides + 2`
//! longitudes, and two triangles covering each quad between neighbouring
//! longitudes. Where each vertex sits in space is the shell's trigonometry;
//! which indices make up each triangle, and that every index names a vertex
//! that exists, is decided and proved here.

use vstd::prelude::*;

use crate::clip::IndexTriangle;

verus! {

/// How many longitude lines a sphere model with `divides` latitude rings
/// has.
pub open spec fn longitude_count(divides: int) -> int {
    2 * divides + 2
}

/// How many vertices the model has: the two poles, then `divides` ring
/// vertices per longitude, laid out longitude by longitude from id 2 on.
pub open spec fn sphere_vertex_count(divides: int) -> int {
    2 + longitude_count(divides) * divides
}

/// The vertex id at step `j` of longitude `k`, walking from the north pole
/// (id 0, step 0) over the longitude's ring vertices to the south pole
/// (id 1, step `divides + 1`).
pub open spec fn longitude_vertex(divides: int, k: int, j: int) -> int {
    if j == 0 {
        0
    } else if j == divides + 1 {
        1
    } else {
        2 + k * divides + (j - 1)
    }
}

/// The two triangles covering the quad between steps `i` and `i + 1` of
/// longitude `k` and its successor (the next longitude, wrapping around to
/// the first).
pub open spec fn spec_sphere_triangles(divides: int, k: int, i: int) -> (
    IndexTriangle,
    IndexTriangle,
) {
    let k2 = if k + 1 == longitude_count(divides) {
        0
    } else {
        k + 1
    };
    (
        IndexTriangle {
            a: longitude_vertex(divides, k, i) as usize,
            b: longitude_vertex(divides, k2, i + 1) as usize,
            c: longitude_vertex(divides, k, i + 1) as usize,
        },
        IndexTriangle {
            a: longitude_vertex(divides, k, i + 1) as usize,
            b: longitude_vertex(divides, k2, i + 1) as usize,
            c: longitude_vertex(divides, k2, i + 2) as usize,
        },
    )
}

/// The triangle list holds, in order, the two triangles of every quad
/// before longitude `k`, and of the first `i` quads of longitude `k`
/// itself.
pub open spec fn sphere_triangles_match(r: Seq<IndexTriangle>, divides: int, k: int, i: int) -> bool {
    forall|kk: int, ii: int|
        #![trigger spec_sphere_triangles(divides, kk, ii)]
        0 <= kk && 0 <= ii < divides && (kk < k || (kk == k && ii < i)) ==> {
            &&& r[2 * (kk * divides + ii)] == spec_sphere_triangles(divides, kk, ii).0
            &&& r[2 * (kk * divides + ii) + 1] == spec_sphere_triangles(divides, kk, ii).1
        }
}

/// The vertex id at step `j` of longitude `k`.
fn longitude_vertex_exec(divides: usize, k: usize, j: usize) -> (r: usize)
    requires
        k < 2 * divides + 2,
        j <= divides + 1,
        (2 * divides + 2) * divides + 2 <= usize::MAX,
    ensures
        r as int == longitude_vertex(divides as int, k as int, j as int),
{
    proof {
        assert(2 * (divides as int) + 2 <= usize::MAX) by (nonlinear_arith)
            requires
                (2 * (divides as int) + 2) * (divides as int) + 2 <= usize::MAX,
        ;
    }
    if j == 0 {
        0
    } else if j == divides + 1 {
        1
    } else {
        proof {
            assert(2 + k * divides + (j - 1) <= (2 * divides + 2) * divides + 2)
                by (nonlinear_arith)
                requires
                    k < 2 * divides + 2,
                    1 <= j <= divides,
            ;
        }
        2 + k * divides + (j - 1)
    }
}

/// The full triangle list of a sphere model with `divides` latitude rings:
/// two triangles per quad, quads in longitude order and from north to
/// south within a longitude.
pub fn sphere_model_topology(divides: usize) -> (r: Vec<IndexTriangle>)
    requires
        2 * ((2 * divides + 2) * divides) + 2 <= usize::MAX,
    ensures
        r@.len() == 2 * longitude_count(divides as int) * (divides as int),
        sphere_triangles_match(r@, divides as int, longitude_count(divides as int), 0),
{
    proof {
        assert((2 * (divides as int) + 2) * (divides as int) + 2 <= usize::MAX && 2 * (
        divides as int) + 2 <= usize::MAX) by (nonlinear_arith)
            requires
                2 * ((2 * (divides as int) + 2) * (divides as int)) + 2 <= usize::MAX,
        ;
    }
    let s: usize = 2 * divides + 2;
    let mut r: Vec<IndexTriangle> = Vec::new();
    let mut k: usize = 0;
    while k < s
        invariant
            s == 2 * divides + 2,
            2 * ((2 * divides + 2) * divides) + 2 <= usize::MAX,
            k <= s,
            r@.len() == 2 * ((k as int) * (divides as int)),
            sphere_triangles_match(r@, divides as int, k as int, 0),
        decreases s - k,
    {
        let k2: usize = if k + 1 == s {
            0
        } else {
            k + 1
        };
        let mut i: usize = 0;
        while i < divides
            invariant
                s == 2 * divides + 2,
                2 * ((2 * divides + 2) * divides) + 2 <= usize::MAX,
                k < s,
                k2 == (if k + 1 == s {
                    0int
                } else {
                    k + 1
                }),
                i <= divides,
                r@.len() == 2 * ((k as int) * (divides as int) + i as int),
                sphere_triangles_match(r@, divides as int, k as int, i as int),
            decreases divides - i,
        {
            let a0 = longitude_vertex_exec(divides, k, i);
            let b0 = longitude_vertex_exec(divides, k2, i + 1);
            let c0 = longitude_vertex_exec(divides, k, i + 1);
            let c1 = longitude_vertex_exec(divides, k2, i + 2);
            let ghost r0 = r@;
            r.push(IndexTriangle { a: a0, b: b0, c: c0 });
            r.push(IndexTriangle { a: c0, b: b0, c: c1 });
            proof {
                let d = divides as int;
                assert(r@[r0.len() as int] == spec_sphere_triangles(d, k as int, i as int).0);
                assert(r@[r0.len() as int + 1] == spec_sphere_triangles(d, k as int, i as int).1);
                assert forall|kk: int, ii: int|
                    0 <= kk && 0 <= ii < d && (kk < k as int || (kk == k as int && ii < i as int
                        + 1)) implies {
                    &&& r@[2 * (kk * d + ii)] == (#[trigger] spec_sphere_triangles(d, kk, ii)).0
                    &&& r@[2 * (kk * d + ii) + 1] == spec_sphere_triangles(d, kk, ii).1
                } by {
                    if kk == k as int && ii == i as int {
                        assert(2 * (kk * d + ii) == r0.len());
                    } else {
                        assert(2 * (kk * d + ii) + 1 < r0.len()) by (nonlinear_arith)
                            requires
                                0 <= kk,
                                0 <= ii < d,
                                kk < k as int || (kk == k as int && ii < i as int),
                                r0.len() == 2 * ((k as int) * d + i as int),
                        ;
                    }
                }
            }
            i = i + 1;
        }
        proof {
            assert(2 * ((k as int) * (divides as int) + divides as int) == 2 * ((k as int + 1)
                * (divides as int))) by (nonlinear_arith);
        }
        k = k + 1;
    }
    proof {
        assert(2 * ((s as int) * (divides as int)) == 2 * longitude_count(divides as int) * (
        divides as int)) by (nonlinear_arith)
            requires
                s as int == 2 * (divides as int) + 2,
        ;
    }
    r
}

/// Every index in the model's triangles names a vertex that exists: the
/// poles and ring vertices of a model with `divides` latitude rings.
pub proof fn lemma_sphere_triangle_indices(divides: int, k: int, i: int)
    requires
        0 <= divides,
        0 <= k < longitude_count(divides),
        0 <= i < divides,
        sphere_vertex_count(divides) <= usize::MAX,
    ensures
        spec_sphere_triangles(divides, k, i).0.a < sphere_vertex_count(divides),
        spec_sphere_triangles(divides, k, i).0.b < sphere_vertex_count(divides),
        spec_sphere_triangles(divides, k, i).0.c < sphere_vertex_count(divides),
        spec_sphere_triangles(divides, k, i).1.a < sphere_vertex_count(divides),
        spec_sphere_triangles(divides, k, i).1.b < sphere_vertex_count(divides),
        spec_sphere_triangles(divides, k, i).1.c < sphere_vertex_count(divides),
{
    let s = longitude_count(divides);
    assert forall|kk: int, jj: int|
        #![trigger longitude_vertex(divides, kk, jj)]
        0 <= kk < s && 0 <= jj <= divides + 1 implies 0 <= longitude_vertex(divides, kk, jj)
        < sphere_vertex_count(divides) by {
        if jj != 0 && jj != divides + 1 {
            assert(2 + kk * divides + (jj - 1) < 2 + s * divides) by (nonlinear_arith)
                requires
                    0 <= kk < s,
                    1 <= jj <= divides,
            ;
        }
    }
}

} // verus!
