//! Fossil fuel economics: the EROI tiers a deposit falls into.

use vstd::prelude::*;

verus! {

/// Energy-return-on-investment tier of a deposit.
#[derive(Debug, Clone, Copy, PartialEq, Eq, Hash, Structural)]
pub enum EroiTier {
    /// EROI > 12: can sustain modern civilization
    Civilization,
    /// EROI 5-12: basic sustainability
    Sustainability,
    /// EROI 3-5: marginal, declining returns
    Marginal,
    /// EROI < 3: thermodynamically unviable
    Unviable,
}

pub open spec fn spec_eroi_tier_label(t: EroiTier) -> Seq<char> {
    match t {
        EroiTier::Civilization => "Civilization"@,
        EroiTier::Sustainability => "Sustainable"@,
        EroiTier::Marginal => "Marginal"@,
        EroiTier::Unviable => "Unviable"@,
    }
}

impl EroiTier {
    pub fn label(&self) -> (s: &'static str)
        ensures
            s@ == spec_eroi_tier_label(*self),
    {
        match self {
            EroiTier::Civilization => "Civilization",
            EroiTier::Sustainability => "Sustainable",
            EroiTier::Marginal => "Marginal",
            EroiTier::Unviable => "Unviable",
        }
    }
}

} // verus!
