//! The topology of clipping a triangle against one plane.
//!
//! A model's triangles reference vertices by index in a growable vertex
//! list; clipping appends crossing points to that list and rewrites index
//! triples, so surviving triangles keep their old indices. Which triples
//! come out, and which segments must be cut, is decided entirely by the
//! signs and the order of the three vertices' signed distances to the
//! plane; the distances arrive as order-preserving integer keys whose sign
//! is the sign of the distance, and the crossing points themselves are
//! computed by the shell.

use vstd::prelude::*;

verus! {

/// A triangle as three indices into a vertex list.
#[derive(Clone, Copy, Debug, PartialEq, Eq, Structural)]
pub struct IndexTriangle {
    pub a: usize,
    pub b: usize,
    pub c: usize,
}

/// A segment of the triangle that crosses the plane, as the indices of its
/// two endpoints; the shell computes the crossing point on it.
#[derive(Clone, Copy, Debug, PartialEq, Eq, Structural)]
pub struct Cut {
    pub from: usize,
    pub to: usize,
}

/// What becomes of one triangle clipped against one plane. Where segments
/// are cut, the shell appends the first cut's crossing point as vertex `l`
/// and the second's as vertex `l + 1`, with `l` the vertex count it passed
/// in.
#[derive(Clone, Copy, Debug, PartialEq, Eq, Structural)]
pub enum TriangleClip {
    /// No vertex strictly inside: the triangle is dropped.
    Outside,
    /// No vertex strictly outside: the triangle is kept as it is.
    Inside,
    /// One corner survives: cut both segments leaving it, keep the smaller
    /// triangle of the corner and the two crossing points.
    Corner { cut_first: Cut, cut_second: Cut, triangle: IndexTriangle },
    /// One corner is lost: cut both segments reaching it, and cover the
    /// remaining quadrilateral with two triangles.
    Quad {
        cut_first: Cut,
        cut_second: Cut,
        triangle_first: IndexTriangle,
        triangle_second: IndexTriangle,
    },
}

/// The rotation of vertices and distances that brings a vertex of greatest
/// distance to the front: the first of the three cyclic shifts whose front
/// is no smaller than the other two.
pub open spec fn spec_rotate_to_max(vids: (usize, usize, usize), d: (i64, i64, i64)) -> (
    (usize, usize, usize),
    (i64, i64, i64),
) {
    if d.0 >= d.1 && d.0 >= d.2 {
        (vids, d)
    } else if d.1 >= d.2 && d.1 >= d.0 {
        ((vids.1, vids.2, vids.0), (d.1, d.2, d.0))
    } else {
        ((vids.2, vids.0, vids.1), (d.2, d.0, d.1))
    }
}

/// What becomes of the triangle over vertices `vids` whose signed-distance
/// keys to the plane are `d`, with `l` vertices in the list so far.
pub open spec fn spec_clip_triangle(
    vids: (usize, usize, usize),
    d: (i64, i64, i64),
    l: usize,
) -> TriangleClip {
    let rot = spec_rotate_to_max(vids, d);
    let v = rot.0;
    let e = rot.1;
    if e.0 <= 0 {
        TriangleClip::Outside
    } else if e.1 >= 0 && e.2 >= 0 {
        TriangleClip::Inside
    } else if e.1 <= 0 && e.2 <= 0 {
        TriangleClip::Corner {
            cut_first: Cut { from: v.0, to: v.1 },
            cut_second: Cut { from: v.0, to: v.2 },
            triangle: IndexTriangle { a: v.0, b: l, c: (l + 1) as usize },
        }
    } else {
        let p = if e.2 > 0 {
            (v.2, v.0, v.1)
        } else {
            v
        };
        TriangleClip::Quad {
            cut_first: Cut { from: p.0, to: p.2 },
            cut_second: Cut { from: p.1, to: p.2 },
            triangle_first: IndexTriangle { a: p.0, b: p.1, c: l },
            triangle_second: IndexTriangle { a: p.1, b: (l + 1) as usize, c: l },
        }
    }
}

/// Clips one triangle against one plane.
pub fn clip_triangle(vids: (usize, usize, usize), d: (i64, i64, i64), vertex_count: usize) -> (r:
    TriangleClip)
    requires
        vertex_count + 1 < usize::MAX,
    ensures
        r == spec_clip_triangle(vids, d, vertex_count),
{
    let (v, e) = if d.0 >= d.1 && d.0 >= d.2 {
        (vids, d)
    } else if d.1 >= d.2 && d.1 >= d.0 {
        ((vids.1, vids.2, vids.0), (d.1, d.2, d.0))
    } else {
        ((vids.2, vids.0, vids.1), (d.2, d.0, d.1))
    };
    if e.0 <= 0 {
        TriangleClip::Outside
    } else if e.1 >= 0 && e.2 >= 0 {
        TriangleClip::Inside
    } else if e.1 <= 0 && e.2 <= 0 {
        TriangleClip::Corner {
            cut_first: Cut { from: v.0, to: v.1 },
            cut_second: Cut { from: v.0, to: v.2 },
            triangle: IndexTriangle { a: v.0, b: vertex_count, c: vertex_count + 1 },
        }
    } else {
        let p = if e.2 > 0 {
            (v.2, v.0, v.1)
        } else {
            v
        };
        TriangleClip::Quad {
            cut_first: Cut { from: p.0, to: p.2 },
            cut_second: Cut { from: p.1, to: p.2 },
            triangle_first: IndexTriangle { a: p.0, b: p.1, c: vertex_count },
            triangle_second: IndexTriangle { a: p.1, b: vertex_count + 1, c: vertex_count },
        }
    }
}

/// How many triangles a clip outcome emits.
pub open spec fn clip_output_count(r: TriangleClip) -> int {
    match r {
        TriangleClip::Outside => 0,
        TriangleClip::Inside => 1,
        TriangleClip::Corner { .. } => 1,
        TriangleClip::Quad { .. } => 2,
    }
}

/// How many of the three distance keys are strictly positive (vertices
/// strictly inside the plane's half-space).
pub open spec fn count_inside(d: (i64, i64, i64)) -> int {
    (if d.0 > 0 {
        1int
    } else {
        0int
    }) + (if d.1 > 0 {
        1int
    } else {
        0int
    }) + (if d.2 > 0 {
        1int
    } else {
        0int
    })
}

/// How many of the three distance keys are strictly negative (vertices
/// strictly outside).
pub open spec fn count_outside(d: (i64, i64, i64)) -> int {
    (if d.0 < 0 {
        1int
    } else {
        0int
    }) + (if d.1 < 0 {
        1int
    } else {
        0int
    }) + (if d.2 < 0 {
        1int
    } else {
        0int
    })
}

/// Clipping one triangle against one plane emits exactly zero, one or two
/// triangles, decided by how many vertices lie strictly inside and
/// strictly outside: none inside drops it, none outside keeps it whole,
/// one corner inside leaves one smaller triangle, and one corner outside
/// leaves a quadrilateral covered by two.
pub proof fn lemma_clip_count(vids: (usize, usize, usize), d: (i64, i64, i64), l: usize)
    ensures
        clip_output_count(spec_clip_triangle(vids, d, l)) == (if count_inside(d) == 0 {
            0int
        } else if count_outside(d) == 0 {
            1int
        } else if count_inside(d) == 1 {
            1int
        } else {
            2int
        }),
{
}

/// Whether `i` is one of the triangle's own vertex indices.
pub open spec fn from_triangle(i: usize, vids: (usize, usize, usize)) -> bool {
    i == vids.0 || i == vids.1 || i == vids.2
}

/// One whole pass of a triangle list through one plane: the surviving and
/// newly formed triangles in order, which input triangle each came from
/// (so its color rides along), and the segments to cut, in order. The
/// crossing point of cut `q` becomes vertex `vertex_count + q` of the
/// grown vertex list.
pub struct PlaneClipOutcome {
    pub triangles: Vec<IndexTriangle>,
    pub sources: Vec<usize>,
    pub cuts: Vec<Cut>,
}

/// The outcome of clipping the first `n` triangles, as the triple of the
/// emitted triangles, their source positions, and the cuts so far: each
/// triangle is clipped with the vertex count grown by the cuts before it.
pub open spec fn spec_plane_clip(
    triangles: Seq<IndexTriangle>,
    d: Seq<(i64, i64, i64)>,
    vertex_count: int,
    n: int,
) -> (Seq<IndexTriangle>, Seq<usize>, Seq<Cut>)
    decreases n,
{
    if n <= 0 {
        (Seq::empty(), Seq::empty(), Seq::empty())
    } else {
        let prev = spec_plane_clip(triangles, d, vertex_count, n - 1);
        let t = triangles[n - 1];
        let source = (n - 1) as usize;
        match spec_clip_triangle(
            (t.a, t.b, t.c),
            d[n - 1],
            (vertex_count + prev.2.len()) as usize,
        ) {
            TriangleClip::Outside => prev,
            TriangleClip::Inside => (prev.0.push(t), prev.1.push(source), prev.2),
            TriangleClip::Corner { cut_first, cut_second, triangle } => (
                prev.0.push(triangle),
                prev.1.push(source),
                prev.2.push(cut_first).push(cut_second),
            ),
            TriangleClip::Quad { cut_first, cut_second, triangle_first, triangle_second } => (
                prev.0.push(triangle_first).push(triangle_second),
                prev.1.push(source).push(source),
                prev.2.push(cut_first).push(cut_second),
            ),
        }
    }
}

/// Clips a whole triangle list against one plane. `d` holds one triple of
/// signed-distance keys per triangle, and `vertex_count` is the length of
/// the vertex list the triangles index into.
pub fn clip_triangles_against_plane(
    triangles: &Vec<IndexTriangle>,
    d: &Vec<(i64, i64, i64)>,
    vertex_count: usize,
) -> (r: PlaneClipOutcome)
    requires
        d@.len() == triangles@.len(),
        vertex_count + 2 * triangles@.len() + 2 <= usize::MAX,
    ensures
        (r.triangles@, r.sources@, r.cuts@) == spec_plane_clip(
            triangles@,
            d@,
            vertex_count as int,
            triangles@.len() as int,
        ),
        r.sources@.len() == r.triangles@.len(),
{
    let mut out: Vec<IndexTriangle> = Vec::new();
    let mut sources: Vec<usize> = Vec::new();
    let mut cuts: Vec<Cut> = Vec::new();
    let mut n: usize = 0;
    while n < triangles.len()
        invariant
            d@.len() == triangles@.len(),
            vertex_count + 2 * triangles@.len() + 2 <= usize::MAX,
            n <= triangles@.len(),
            cuts@.len() <= 2 * n,
            (out@, sources@, cuts@) == spec_plane_clip(
                triangles@,
                d@,
                vertex_count as int,
                n as int,
            ),
            sources@.len() == out@.len(),
        decreases triangles@.len() - n,
    {
        let t = triangles[n];
        let grown: usize = vertex_count + cuts.len();
        match clip_triangle((t.a, t.b, t.c), d[n], grown) {
            TriangleClip::Outside => {},
            TriangleClip::Inside => {
                out.push(t);
                sources.push(n);
            },
            TriangleClip::Corner { cut_first, cut_second, triangle } => {
                out.push(triangle);
                sources.push(n);
                cuts.push(cut_first);
                cuts.push(cut_second);
            },
            TriangleClip::Quad { cut_first, cut_second, triangle_first, triangle_second } => {
                out.push(triangle_first);
                out.push(triangle_second);
                sources.push(n);
                sources.push(n);
                cuts.push(cut_first);
                cuts.push(cut_second);
            },
        }
        n = n + 1;
    }
    PlaneClipOutcome { triangles: out, sources, cuts }
}

/// A plane pass only grows the vertex space and never invalidates an
/// index: with every input index below `vertex_count`, every cut runs
/// between existing vertices, at most two cuts are taken per triangle, and
/// every emitted triangle references only existing or newly appended
/// crossing-point vertices. Each emitted triangle names the input triangle
/// it came from.
pub proof fn lemma_plane_clip_indices(
    triangles: Seq<IndexTriangle>,
    d: Seq<(i64, i64, i64)>,
    vertex_count: int,
    n: int,
)
    requires
        0 <= n <= triangles.len(),
        d.len() == triangles.len(),
        0 <= vertex_count,
        vertex_count + 2 * triangles.len() + 2 <= usize::MAX,
        forall|j: int|
            0 <= j < triangles.len() ==> (#[trigger] triangles[j]).a < vertex_count
                && triangles[j].b < vertex_count && triangles[j].c < vertex_count,
    ensures
        ({
            let r = spec_plane_clip(triangles, d, vertex_count, n);
            &&& r.2.len() <= 2 * n
            &&& r.1.len() == r.0.len()
            &&& forall|q: int|
                0 <= q < r.2.len() ==> (#[trigger] r.2[q]).from < vertex_count && r.2[q].to
                    < vertex_count
            &&& forall|j: int|
                0 <= j < r.0.len() ==> (#[trigger] r.0[j]).a < vertex_count + r.2.len()
                    && r.0[j].b < vertex_count + r.2.len() && r.0[j].c < vertex_count + r.2.len()
            &&& forall|j: int| 0 <= j < r.1.len() ==> (#[trigger] r.1[j]) < n
        }),
    decreases n,
{
    if n > 0 {
        lemma_plane_clip_indices(triangles, d, vertex_count, n - 1);
        let prev = spec_plane_clip(triangles, d, vertex_count, n - 1);
        let t = triangles[n - 1];
        let grown = (vertex_count + prev.2.len()) as usize;
        lemma_clip_indices((t.a, t.b, t.c), d[n - 1], grown);
    }
}

/// Every index a clip outcome emits stays valid in the grown vertex list:
/// kept corners keep their old indices, every cut runs between two of the
/// triangle's own vertices, and the only new indices are the two appended
/// crossing points.
pub proof fn lemma_clip_indices(vids: (usize, usize, usize), d: (i64, i64, i64), l: usize)
    requires
        vids.0 < l,
        vids.1 < l,
        vids.2 < l,
        l + 1 < usize::MAX,
    ensures
        spec_clip_triangle(vids, d, l) matches TriangleClip::Corner {
            cut_first,
            cut_second,
            triangle,
        } ==> {
            &&& from_triangle(cut_first.from, vids) && from_triangle(cut_first.to, vids)
            &&& from_triangle(cut_second.from, vids) && from_triangle(cut_second.to, vids)
            &&& triangle.a < l && triangle.b < l + 2 && triangle.c < l + 2
        },
        spec_clip_triangle(vids, d, l) matches TriangleClip::Quad {
            cut_first,
            cut_second,
            triangle_first,
            triangle_second,
        } ==> {
            &&& from_triangle(cut_first.from, vids) && from_triangle(cut_first.to, vids)
            &&& from_triangle(cut_second.from, vids) && from_triangle(cut_second.to, vids)
            &&& triangle_first.a < l && triangle_first.b < l && triangle_first.c < l + 2
            &&& triangle_second.a < l && triangle_second.b < l + 2 && triangle_second.c < l + 2
        },
{
}

} // verus!
