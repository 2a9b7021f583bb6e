//! Integer constants shared by the renderers.

use vstd::prelude::*;

verus! {

/// Rings of the globe's UV sphere mesh.
pub const GLOBE_LAT_SEGMENTS: u32 = 128;
/// Quads per ring of the globe's UV sphere mesh.
pub const GLOBE_LON_SEGMENTS: u32 = 128;
/// Number of background stars.
pub const STARFIELD_COUNT: u32 = 3000;
/// Seed of the starfield's random stream.
pub const STARFIELD_SEED: u32 = 0xDEAD_BEEF;

} // verus!
