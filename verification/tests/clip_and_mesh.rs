use cgfs::clip::{clip_triangle, clip_triangles_against_plane, Cut, IndexTriangle, TriangleClip};
use cgfs::mesh::sphere_model_topology;

fn tri(a: usize, b: usize, c: usize) -> IndexTriangle {
    IndexTriangle { a, b, c }
}

#[test]
fn all_vertices_outside_drops_the_triangle() {
    let r = clip_triangle((0, 1, 2), (-1, -5, -2), 10);
    assert_eq!(r, TriangleClip::Outside);
    // a vertex exactly on the plane does not save it
    let r = clip_triangle((0, 1, 2), (0, -5, -2), 10);
    assert_eq!(r, TriangleClip::Outside);
}

#[test]
fn no_vertex_outside_keeps_the_triangle() {
    let r = clip_triangle((0, 1, 2), (3, 1, 2), 10);
    assert_eq!(r, TriangleClip::Inside);
    // vertices on the plane count as inside
    let r = clip_triangle((0, 1, 2), (3, 0, 0), 10);
    assert_eq!(r, TriangleClip::Inside);
}

#[test]
fn one_surviving_corner_cuts_both_of_its_segments() {
    // vertex 1 has the greatest distance, so the order rotates to (1, 2, 0)
    let r = clip_triangle((0, 1, 2), (-1, 5, -2), 10);
    assert_eq!(
        r,
        TriangleClip::Corner {
            cut_first: Cut { from: 1, to: 2 },
            cut_second: Cut { from: 1, to: 0 },
            triangle: tri(1, 10, 11),
        }
    );
}

#[test]
fn one_lost_corner_leaves_a_quad_of_two_triangles() {
    // vertex 2 is outside; the surviving pair keeps its rotated order
    let r = clip_triangle((0, 1, 2), (5, 3, -2), 10);
    assert_eq!(
        r,
        TriangleClip::Quad {
            cut_first: Cut { from: 0, to: 2 },
            cut_second: Cut { from: 1, to: 2 },
            triangle_first: tri(0, 1, 10),
            triangle_second: tri(1, 11, 10),
        }
    );
}

#[test]
fn lost_middle_corner_rotates_before_cutting() {
    // vertex 1 is outside; after bringing the maximum to the front the lost
    // corner is in the middle, so the order rotates once more
    let r = clip_triangle((0, 1, 2), (5, -2, 3), 10);
    assert_eq!(
        r,
        TriangleClip::Quad {
            cut_first: Cut { from: 2, to: 1 },
            cut_second: Cut { from: 0, to: 1 },
            triangle_first: tri(2, 0, 10),
            triangle_second: tri(0, 11, 10),
        }
    );
}

#[test]
fn a_plane_pass_numbers_cut_vertices_in_order() {
    // four vertices: triangle 0 survives whole, triangle 1 keeps one corner
    let triangles = vec![tri(0, 1, 2), tri(1, 2, 3)];
    let d = vec![(1, 1, 1), (5, -1, -1)];
    let outcome = clip_triangles_against_plane(&triangles, &d, 4);
    assert_eq!(outcome.triangles, vec![tri(0, 1, 2), tri(1, 4, 5)]);
    assert_eq!(outcome.sources, vec![0, 1]);
    assert_eq!(
        outcome.cuts,
        vec![Cut { from: 1, to: 2 }, Cut { from: 1, to: 3 }]
    );
}

#[test]
fn a_plane_pass_drops_and_splits_with_a_running_counter() {
    // triangle 0 is dropped, triangle 1 is split into a quad: its two new
    // vertices still take the first two fresh ids
    let triangles = vec![tri(0, 1, 2), tri(0, 1, 3)];
    let d = vec![(-1, -1, -1), (5, 3, -2)];
    let outcome = clip_triangles_against_plane(&triangles, &d, 4);
    assert_eq!(outcome.triangles, vec![tri(0, 1, 4), tri(1, 5, 4)]);
    assert_eq!(outcome.sources, vec![1, 1]);
    assert_eq!(
        outcome.cuts,
        vec![Cut { from: 0, to: 3 }, Cut { from: 1, to: 3 }]
    );
}

#[test]
fn sphere_topology_smallest_model() {
    // one latitude ring: four longitudes, six vertices, eight triangles
    let triangles = sphere_model_topology(1);
    assert_eq!(triangles.len(), 8);
    // longitude k holds ring vertex 2 + k; poles are 0 and 1
    assert_eq!(triangles[0], tri(0, 3, 2));
    assert_eq!(triangles[1], tri(2, 3, 1));
    assert_eq!(triangles[2], tri(0, 4, 3));
    assert_eq!(triangles[3], tri(3, 4, 1));
    // the last longitude wraps around to the first
    assert_eq!(triangles[6], tri(0, 2, 5));
    assert_eq!(triangles[7], tri(5, 2, 1));
}

#[test]
fn sphere_topology_indices_stay_in_range() {
    for divides in [1usize, 2, 3, 12] {
        let triangles = sphere_model_topology(divides);
        let s = 2 * divides + 2;
        assert_eq!(triangles.len(), 2 * s * divides);
        let vertex_count = 2 + s * divides;
        for t in &triangles {
            assert!(t.a < vertex_count);
            assert!(t.b < vertex_count);
            assert!(t.c < vertex_count);
        }
    }
}
