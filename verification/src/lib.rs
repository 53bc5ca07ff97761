//! Verified core of a stochastic path tracer.
//!
//! The renderer's floating-point geometry (vectors, rays, intersections,
//! scattering) is inherently approximate and lives outside this library.
//! What is verified here is the exact, discrete part of the pipeline: the
//! row-major pixel buffer with its byte-triple output contract, the
//! validation of render configuration, and the control decisions the
//! renderer routes through — the integrator's bounce budget, the scene
//! scan's winner-keeping fold, and the materials' absorption policy.

pub mod buffer;
pub mod materials;
pub mod scene;
pub mod trace;

use vstd::prelude::*;

verus! {

/// One 8-bit RGB pixel, channel order red, green, blue.
#[derive(Clone, Copy, PartialEq, Eq, Structural, Debug)]
pub struct Rgb {
    pub r: u8,
    pub g: u8,
    pub b: u8,
}

impl Rgb {
    /// The all-zero color, used both for "absorbed ray" results and for
    /// freshly allocated pixel buffers.
    pub fn black() -> (c: Rgb)
        ensures
            c == (Rgb { r: 0, g: 0, b: 0 }),
    {
        Rgb { r: 0, g: 0, b: 0 }
    }
}

} // verus!
