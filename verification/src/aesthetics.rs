//! Visual aesthetic presets for the globe.

use vstd::prelude::*;

verus! {

/// Available visual aesthetics.
#[derive(Debug, Clone, Copy, PartialEq, Eq, Hash, Structural)]
pub enum Aesthetic {
    /// Dark holographic command center — ghost geography, sacred geometry grid,
    /// Fresnel glow, data orb celestials, obsidian base.
    Holographic,
    /// Photorealistic blue marble — satellite texture, PBR lighting, shadows.
    Satellite,
    /// Procedural Mycelix brand — Wisdom Green land, Sacred Stillness ocean,
    /// sacred geometry grid, Eight Harmonies palette.
    Procedural,
    /// Minimal dark vector — coastline outlines only, maximum data readability.
    Minimal,
    /// NASA nightlights — city light emissions, shows population and energy use.
    Night,
}

pub open spec fn spec_aesthetic_label(a: Aesthetic) -> Seq<char> {
    match a {
        Aesthetic::Holographic => "Holographic"@,
        Aesthetic::Satellite => "Satellite"@,
        Aesthetic::Procedural => "Procedural"@,
        Aesthetic::Minimal => "Minimal"@,
        Aesthetic::Night => "Night"@,
    }
}

/// Every aesthetic, in menu order.
pub open spec fn spec_all_aesthetics() -> Seq<Aesthetic> {
    seq![
        Aesthetic::Holographic,
        Aesthetic::Satellite,
        Aesthetic::Procedural,
        Aesthetic::Minimal,
        Aesthetic::Night,
    ]
}

impl Aesthetic {
    pub fn label(&self) -> (s: &'static str)
        ensures
            s@ == spec_aesthetic_label(*self),
    {
        match self {
            Aesthetic::Holographic => "Holographic",
            Aesthetic::Satellite => "Satellite",
            Aesthetic::Procedural => "Procedural",
            Aesthetic::Minimal => "Minimal",
            Aesthetic::Night => "Night",
        }
    }

    /// Every aesthetic, in menu order.
    pub fn all() -> (v: Vec<Aesthetic>)
        ensures
            v@ == spec_all_aesthetics(),
    {
        let v = vec![
            Aesthetic::Holographic,
            Aesthetic::Satellite,
            Aesthetic::Procedural,
            Aesthetic::Minimal,
            Aesthetic::Night,
        ];
        assert(v@ =~= spec_all_aesthetics());
        v
    }
}

/// Which texture the globe surface uses.
#[derive(Debug, Clone, Copy, PartialEq, Eq, Hash, Structural)]
pub enum GlobeTexture {
    /// Blue marble satellite photo.
    BlueMarble,
    /// NASA nightlights.
    Nightlights,
    /// No texture — pure procedural color.
    Untextured,
}

} // verus!
