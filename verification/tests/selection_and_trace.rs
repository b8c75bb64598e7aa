use cgfs::hit::{first_root_in_interval, min_in_interval, nearest_hit};
use cgfs::partition::worker_columns;
use cgfs::trace::{opaque_shading, transparent_shading, OpaqueShading, TransparentShading};

#[test]
fn nearest_hit_takes_the_smallest_parameter() {
    assert_eq!(nearest_hit(&vec![Some(9), None, Some(4), Some(7)]), Some(2));
    assert_eq!(nearest_hit(&vec![None, None]), None);
    assert_eq!(nearest_hit(&vec![]), None);
}

#[test]
fn nearest_hit_breaks_ties_toward_the_first_object() {
    assert_eq!(nearest_hit(&vec![None, Some(4), Some(4), Some(4)]), Some(1));
}

#[test]
fn min_in_interval_ignores_out_of_range_values() {
    // a nearer value below the interval's start must not win
    assert_eq!(min_in_interval(&vec![0, 5, 3, 9], 1, 10), Some(2));
    assert_eq!(min_in_interval(&vec![0, 11], 1, 10), None);
    assert_eq!(min_in_interval(&vec![7, 3, 3], 1, 10), Some(1));
}

#[test]
fn sphere_offers_its_first_root_inside_the_interval() {
    assert_eq!(first_root_in_interval(2, 8, 1, 10), Some(2));
    // the near root behind the interval start yields the far one
    assert_eq!(first_root_in_interval(-3, 8, 1, 10), Some(8));
    assert_eq!(first_root_in_interval(-3, -1, 1, 10), None);
    assert_eq!(first_root_in_interval(11, 12, 1, 10), None);
}

#[test]
fn depth_zero_trace_shades_locally_only() {
    // with the budget spent, reflectivity and transparency change nothing
    assert_eq!(opaque_shading(true, 0, true), OpaqueShading::Local);
    assert_eq!(opaque_shading(true, 0, false), OpaqueShading::Local);
    assert_eq!(
        transparent_shading(true, 0, true, false),
        TransparentShading::Opaque
    );
    assert_eq!(
        transparent_shading(true, 0, true, true),
        TransparentShading::Opaque
    );
}

#[test]
fn missed_rays_paint_the_background() {
    assert_eq!(opaque_shading(false, 5, true), OpaqueShading::Background);
    assert_eq!(
        transparent_shading(false, 5, true, false),
        TransparentShading::Opaque
    );
}

#[test]
fn recursion_spends_budget_on_reflective_and_transparent_materials() {
    assert_eq!(opaque_shading(true, 3, true), OpaqueShading::BlendReflection);
    assert_eq!(opaque_shading(true, 3, false), OpaqueShading::Local);
    assert_eq!(
        transparent_shading(true, 3, true, false),
        TransparentShading::BlendRefraction
    );
    // total internal reflection falls back to the opaque color
    assert_eq!(
        transparent_shading(true, 3, true, true),
        TransparentShading::Opaque
    );
    assert_eq!(
        transparent_shading(true, 3, false, false),
        TransparentShading::Opaque
    );
}

#[test]
fn worker_columns_partition_the_canvas() {
    assert_eq!(worker_columns(10, 3, 0), vec![0, 3, 6, 9]);
    assert_eq!(worker_columns(10, 3, 1), vec![1, 4, 7]);
    assert_eq!(worker_columns(10, 3, 2), vec![2, 5, 8]);
    // together the workers own every column exactly once
    let mut all: Vec<u32> = Vec::new();
    for w in 0..3 {
        all.extend(worker_columns(10, 3, w));
    }
    all.sort();
    assert_eq!(all, (0..10).collect::<Vec<u32>>());
}
