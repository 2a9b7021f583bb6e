//! The bodies the camera can fly to.

use vstd::prelude::*;

verus! {

#[derive(Debug, Clone, Copy, PartialEq, Eq, Hash, Structural)]
pub enum PlanetTarget {
    Earth,
    Moon,
    Venus,
    Mars,
    Jupiter,
    Saturn,
    Sun,
}

pub open spec fn spec_planet_label(p: PlanetTarget) -> Seq<char> {
    match p {
        PlanetTarget::Earth => "Earth"@,
        PlanetTarget::Moon => "Moon"@,
        PlanetTarget::Venus => "Venus"@,
        PlanetTarget::Mars => "Mars"@,
        PlanetTarget::Jupiter => "Jupiter"@,
        PlanetTarget::Saturn => "Saturn"@,
        PlanetTarget::Sun => "Sun"@,
    }
}

pub open spec fn spec_planet_icon(p: PlanetTarget) -> Seq<char> {
    match p {
        PlanetTarget::Earth => "\u{1F30D}"@,
        PlanetTarget::Moon => "\u{1F319}"@,
        PlanetTarget::Venus => "\u{2640}"@,
        PlanetTarget::Mars => "\u{2642}"@,
        PlanetTarget::Jupiter => "\u{2643}"@,
        PlanetTarget::Saturn => "\u{2644}"@,
        PlanetTarget::Sun => "\u{2609}"@,
    }
}

impl PlanetTarget {
    pub fn label(&self) -> (s: &'static str)
        ensures
            s@ == spec_planet_label(*self),
    {
        match self {
            PlanetTarget::Earth => "Earth",
            PlanetTarget::Moon => "Moon",
            PlanetTarget::Venus => "Venus",
            PlanetTarget::Mars => "Mars",
            PlanetTarget::Jupiter => "Jupiter",
            PlanetTarget::Saturn => "Saturn",
            PlanetTarget::Sun => "Sun",
        }
    }

    /// Astronomical symbol of the body.
    pub fn icon(&self) -> (s: &'static str)
        ensures
            s@ == spec_planet_icon(*self),
    {
        match self {
            PlanetTarget::Earth => "\u{1F30D}",
            PlanetTarget::Moon => "\u{1F319}",
            PlanetTarget::Venus => "\u{2640}",
            PlanetTarget::Mars => "\u{2642}",
            PlanetTarget::Jupiter => "\u{2643}",
            PlanetTarget::Saturn => "\u{2644}",
            PlanetTarget::Sun => "\u{2609}",
        }
    }
}

} // verus!
