//! Materials of the shading model: their shared absorption policy, and the
//! mirror, the one material without numeric parameters. The diffuse, glossy
//! and refractive materials are parameterized by floating-point albedo,
//! fuzz and refraction-index values and therefore live with the renderer,
//! not in the verified library; their scatter-or-absorb decisions route
//! through `scatter_verdict` here.

use vstd::prelude::*;
use std::sync::Arc;

verus! {

/// The four scattering behaviors of the shading model.
#[derive(Clone, Copy, PartialEq, Eq, Structural, Debug)]
pub enum MaterialKind {
    Lambertian,
    Metal,
    Dielectric,
    Mirror,
}

/// The absorption policy of the shading model: a scatter request either
/// continues the light path or absorbs the ray. Diffuse and refractive
/// materials always scatter onward; the specular ones (metal and mirror)
/// scatter only when the candidate direction still points away from the
/// surface, and absorb the ray otherwise.
pub open spec fn scatter_policy(kind: MaterialKind, points_outward: bool) -> bool {
    match kind {
        MaterialKind::Lambertian => true,
        MaterialKind::Dielectric => true,
        MaterialKind::Metal => points_outward,
        MaterialKind::Mirror => points_outward,
    }
}

/// Decides whether a material scatters the ray onward or absorbs it, given
/// whether the candidate scatter direction points away from the surface —
/// an f64 dot-product test that the renderer performs and reports.
pub fn scatter_verdict(kind: MaterialKind, points_outward: bool) -> (scatters: bool)
    ensures
        scatters == scatter_policy(kind, points_outward),
        kind == MaterialKind::Lambertian ==> scatters,
        kind == MaterialKind::Dielectric ==> scatters,
        kind == MaterialKind::Metal || kind == MaterialKind::Mirror ==> (scatters
            <==> points_outward),
{
    match kind {
        MaterialKind::Lambertian => true,
        MaterialKind::Dielectric => true,
        MaterialKind::Metal => points_outward,
        MaterialKind::Mirror => points_outward,
    }
}

/// The perfectly specular material: it reflects every incoming ray about
/// the surface normal with identity attenuation, absorbing only rays whose
/// reflection would point into the surface. It carries no parameters; the
/// reflection itself is floating-point work done by the renderer around
/// this library.
#[derive(Clone, Copy, PartialEq, Eq, Structural, Debug)]
pub struct Mirror {}

impl Mirror {
    /// A shared handle to the material, ready to back many surfaces.
    pub fn new() -> (m: Arc<Mirror>)
        ensures
            *m == (Mirror {  }),
    {
        Arc::new(Mirror {  })
    }
}

} // verus!
