//! The exact core of a small software renderer.
//!
//! A ray tracer and a scan-line rasterizer share one scene model. Their
//! floating-point evaluation (root finding, shading, interpolation) lives in
//! the unverified shell around this crate; everything the renderer decides
//! exactly lives here and is verified:
//!
//! - the canvas: pixel addressing, bounds policy, the depth test, and the
//!   row-major byte layout handed to an image encoder;
//! - the boolean-solid interval algebra that merges two spheres' entry/exit
//!   parameters into surface breakpoints;
//! - nearest-hit selection among candidate intersections;
//! - the topology of clipping a triangle against one plane;
//! - the recursion budget of the ray tracer;
//! - the index topology of a tessellated sphere model;
//! - the column partition that divides rendering among workers.
//!
//! Parameters along a ray (and inverse depths) are compared by the renderer
//! but never combined arithmetically, so this crate takes them as integer
//! keys; the shell maps each `f64` to a key with the usual order-preserving
//! bit transformation, and the order of keys is the order of the floats.

pub mod canvas;
pub mod clip;
pub mod color;
pub mod csg;
pub mod hit;
pub mod mesh;
pub mod partition;
pub mod trace;
