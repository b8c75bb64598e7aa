//! The ray tracer's recursion decisions.
//!
//! Tracing a ray finds the nearest hit, shades it locally, and may spend
//! recursion budget on a reflected and then a refracted ray. The colors are
//! the shell's floating-point work; which rays are traced at all is decided
//! here, from the depth budget and the material, and the budget strictly
//! decreases on every recursive ray, which is the tracer's sole termination
//! guarantee.

use vstd::prelude::*;

verus! {

/// The opaque stage of shading a ray.
#[derive(Clone, Copy, Debug, PartialEq, Eq, Structural)]
pub enum OpaqueShading {
    /// Nothing was hit: the ray takes the scene's background color.
    Background,
    /// Local shading only: the material's color under the lights.
    Local,
    /// Also trace a reflected ray with one less depth and blend it in by
    /// the material's reflectivity.
    BlendReflection,
}

/// The transparent stage of shading a ray, applied after the opaque stage.
#[derive(Clone, Copy, Debug, PartialEq, Eq, Structural)]
pub enum TransparentShading {
    /// Keep the opaque color: nothing was hit, the budget is spent, the
    /// material is opaque, or the refraction formula has no real solution
    /// (total internal reflection).
    Opaque,
    /// Trace a refracted ray with one less depth and blend it in.
    BlendRefraction,
}

/// The opaque-stage decision for a ray: `hit` is whether the nearest-hit
/// search found a surface, and `reflective_positive` whether the material's
/// reflectivity is above zero.
pub open spec fn spec_opaque_shading(hit: bool, depth: u32, reflective_positive: bool) -> OpaqueShading {
    if !hit {
        OpaqueShading::Background
    } else if depth == 0 || !reflective_positive {
        OpaqueShading::Local
    } else {
        OpaqueShading::BlendReflection
    }
}

/// The transparent-stage decision for a ray: `transparent` is whether the
/// material carries a refraction index, and `total_internal_reflection`
/// whether the refraction formula's discriminant came out negative.
pub open spec fn spec_transparent_shading(
    hit: bool,
    depth: u32,
    transparent: bool,
    total_internal_reflection: bool,
) -> TransparentShading {
    if !hit || depth == 0 || !transparent {
        TransparentShading::Opaque
    } else if total_internal_reflection {
        TransparentShading::Opaque
    } else {
        TransparentShading::BlendRefraction
    }
}

/// Decides the opaque stage of shading a ray.
pub fn opaque_shading(hit: bool, depth: u32, reflective_positive: bool) -> (r: OpaqueShading)
    ensures
        r == spec_opaque_shading(hit, depth, reflective_positive),
        r == OpaqueShading::BlendReflection ==> depth > 0,
{
    if !hit {
        OpaqueShading::Background
    } else if depth == 0 || !reflective_positive {
        OpaqueShading::Local
    } else {
        OpaqueShading::BlendReflection
    }
}

/// Decides the transparent stage of shading a ray.
pub fn transparent_shading(
    hit: bool,
    depth: u32,
    transparent: bool,
    total_internal_reflection: bool,
) -> (r: TransparentShading)
    ensures
        r == spec_transparent_shading(hit, depth, transparent, total_internal_reflection),
        r == TransparentShading::BlendRefraction ==> depth > 0,
{
    if !hit || depth == 0 || !transparent {
        TransparentShading::Opaque
    } else if total_internal_reflection {
        TransparentShading::Opaque
    } else {
        TransparentShading::BlendRefraction
    }
}

/// With the depth budget spent, a trace never schedules a recursive ray,
/// whatever the material's reflectivity or transparency: it shades locally
/// (or paints the background) and keeps the opaque color.
pub proof fn lemma_depth_zero_is_local(
    hit: bool,
    reflective_positive: bool,
    transparent: bool,
    total_internal_reflection: bool,
)
    ensures
        spec_opaque_shading(hit, 0, reflective_positive) != OpaqueShading::BlendReflection,
        spec_transparent_shading(hit, 0, transparent, total_internal_reflection)
            == TransparentShading::Opaque,
{
}

} // verus!
