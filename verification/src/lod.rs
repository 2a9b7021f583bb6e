//! Level of detail of globe markers.

use vstd::prelude::*;

verus! {

/// LOD level based on camera distance from globe center.
#[derive(Debug, Clone, Copy, PartialEq, Eq, Hash, Structural)]
pub enum LodLevel {
    /// Fully zoomed out — show heat blobs only.
    Orbit,
    /// Mid distance — clean transition gap.
    Atmosphere,
    /// Close — show all markers in view.
    Surface,
}

} // verus!
