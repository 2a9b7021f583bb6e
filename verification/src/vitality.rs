//! Circadian awareness: a sun-facing atlas should know what time it is.

use vstd::prelude::*;

verus! {

/// Circadian phase based on local time.
#[derive(Debug, Clone, Copy, PartialEq, Eq, Hash, Structural)]
pub enum CircadianPhase {
    /// 5am-9am
    Dawn,
    /// 9am-5pm
    Day,
    /// 5pm-9pm
    Dusk,
    /// 9pm-5am
    Night,
}

pub open spec fn spec_circadian_phase(hour: u32) -> CircadianPhase {
    if 5 <= hour <= 8 {
        CircadianPhase::Dawn
    } else if 9 <= hour <= 16 {
        CircadianPhase::Day
    } else if 17 <= hour <= 20 {
        CircadianPhase::Dusk
    } else {
        CircadianPhase::Night
    }
}

impl CircadianPhase {
    /// The phase of a local clock hour (0-23; any other value counts as night).
    pub fn from_hour(hour: u32) -> (p: CircadianPhase)
        ensures
            p == spec_circadian_phase(hour),
    {
        match hour {
            5..=8 => CircadianPhase::Dawn,
            9..=16 => CircadianPhase::Day,
            17..=20 => CircadianPhase::Dusk,
            _ => CircadianPhase::Night,
        }
    }
}

} // verus!
