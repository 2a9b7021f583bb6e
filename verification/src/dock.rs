//! The layer dock: real observed/curated layers first, scenario fiction
//! below, and the one-line whisper that names a layer's provenance when it
//! is switched on.

use vstd::prelude::*;
use crate::types::{
    spec_layer_label, spec_provenance, spec_provenance_kind, spec_summary, spec_toggle, DataKind,
    Layer, LayerSet,
};

verus! {

/// The dock's upper group, in display order.
pub open spec fn spec_real_dock() -> Seq<Layer> {
    seq![
        Layer::Energy,
        Layer::Nuclear,
        Layer::FossilDeposits,
        Layer::Regions,
        Layer::SupplyChain,
        Layer::Climate,
        Layer::Emergency,
        Layer::Health,
        Layer::Earthquakes,
        Layer::Fires,
        Layer::Storms,
        Layer::Volcanoes,
        Layer::Chokepoints,
        Layer::Infrastructure,
        Layer::MajorCities,
    ]
}

/// The dock's lower group (speculative layers), in display order.
pub open spec fn spec_scenario_dock() -> Seq<Layer> {
    seq![
        Layer::Geothermal,
        Layer::Maglev,
        Layer::ResontiaVaults,
        Layer::TerraLumina,
        Layer::Robotics,
    ]
}

/// Layers of the dock's upper group: real data.
pub fn real_layers() -> (a: [Layer; 15])
    ensures
        a@ == spec_real_dock(),
{
    let a = [
        Layer::Energy,
        Layer::Nuclear,
        Layer::FossilDeposits,
        Layer::Regions,
        Layer::SupplyChain,
        Layer::Climate,
        Layer::Emergency,
        Layer::Health,
        Layer::Earthquakes,
        Layer::Fires,
        Layer::Storms,
        Layer::Volcanoes,
        Layer::Chokepoints,
        Layer::Infrastructure,
        Layer::MajorCities,
    ];
    assert(a@ =~= spec_real_dock());
    a
}

/// Layers of the dock's lower group: scenario fiction.
pub fn scenario_layers() -> (a: [Layer; 5])
    ensures
        a@ == spec_scenario_dock(),
{
    let a = [
        Layer::Geothermal,
        Layer::Maglev,
        Layer::ResontiaVaults,
        Layer::TerraLumina,
        Layer::Robotics,
    ];
    assert(a@ =~= spec_scenario_dock());
    a
}

/// The dock separates real data from fiction: nothing in the upper group
/// is a scenario, everything in the lower group is, and every layer that
/// is not a scenario has its place in the upper group.
pub proof fn lemma_dock_groups_follow_provenance()
    ensures
        forall|i: int|
            0 <= i < spec_real_dock().len() ==> spec_provenance_kind(#[trigger] spec_real_dock()[i])
                != DataKind::Scenario,
        forall|i: int|
            0 <= i < spec_scenario_dock().len() ==> spec_provenance_kind(
                #[trigger] spec_scenario_dock()[i],
            ) == DataKind::Scenario,
        forall|l: Layer|
            spec_provenance_kind(l) != DataKind::Scenario ==> #[trigger] spec_real_dock().contains(
                l,
            ),
{
    let r = spec_real_dock();
    assert forall|l: Layer| spec_provenance_kind(l) != DataKind::Scenario implies #[trigger] r.contains(
        l,
    ) by {
        match l {
            Layer::Energy => assert(r[0] == l),
            Layer::Nuclear => assert(r[1] == l),
            Layer::FossilDeposits => assert(r[2] == l),
            Layer::Regions => assert(r[3] == l),
            Layer::SupplyChain => assert(r[4] == l),
            Layer::Climate => assert(r[5] == l),
            Layer::Emergency => assert(r[6] == l),
            Layer::Health => assert(r[7] == l),
            Layer::Earthquakes => assert(r[8] == l),
            Layer::Fires => assert(r[9] == l),
            Layer::Storms => assert(r[10] == l),
            Layer::Volcanoes => assert(r[11] == l),
            Layer::Chokepoints => assert(r[12] == l),
            Layer::Infrastructure => assert(r[13] == l),
            Layer::MajorCities => assert(r[14] == l),
            _ => {},
        }
    }
}

/// Every layer but the DeSci demo has exactly one dot in the dock: the two
/// groups share no layer, neither repeats a layer, and together they hold
/// every layer except `DeSciEvidence`.
pub proof fn lemma_dock_covers_every_layer_once()
    ensures
        spec_real_dock().no_duplicates(),
        spec_scenario_dock().no_duplicates(),
        forall|l: Layer|
            !(#[trigger] spec_real_dock().contains(l) && spec_scenario_dock().contains(l)),
        forall|l: Layer|
            (#[trigger] spec_real_dock().contains(l) || spec_scenario_dock().contains(l)) <==> l
                != Layer::DeSciEvidence,
{
    let r = spec_real_dock();
    let sc = spec_scenario_dock();
    assert forall|l: Layer| #[trigger] r.contains(l) implies spec_provenance_kind(l)
        != DataKind::Scenario by {
        lemma_dock_groups_follow_provenance();
        let i = choose|i: int| 0 <= i < r.len() && r[i] == l;
        assert(spec_provenance_kind(r[i]) != DataKind::Scenario);
    }
    assert forall|l: Layer| #[trigger] sc.contains(l) implies spec_provenance_kind(l)
        == DataKind::Scenario && l != Layer::DeSciEvidence by {
        let i = choose|i: int| 0 <= i < sc.len() && sc[i] == l;
        assert(0 <= i < 5);
    }
    assert forall|l: Layer|
        (#[trigger] r.contains(l) || sc.contains(l)) <== l != Layer::DeSciEvidence by {
        if l != Layer::DeSciEvidence {
            match l {
                Layer::Geothermal => assert(sc[0] == l),
                Layer::Maglev => assert(sc[1] == l),
                Layer::ResontiaVaults => assert(sc[2] == l),
                Layer::TerraLumina => assert(sc[3] == l),
                Layer::Robotics => assert(sc[4] == l),
                _ => {
                    lemma_dock_groups_follow_provenance();
                    assert(r.contains(l));
                },
            }
        }
    }
    assert forall|l: Layer| #[trigger] r.contains(l) implies l != Layer::DeSciEvidence by {
        let i = choose|i: int| 0 <= i < r.len() && r[i] == l;
        assert(0 <= i < 15);
    }
}

/// The whisper shown when a layer wakes: its label, a dash, and its
/// provenance summary.
pub open spec fn spec_layer_whisper(l: Layer) -> Seq<char> {
    spec_layer_label(l) + " — "@ + spec_summary(spec_provenance(l))
}

/// The whisper that names a layer's provenance, e.g.
/// `"Earthquakes — USGS earthquake feed — snapshot 2026-04"`.
pub fn layer_whisper(l: Layer) -> (s: String)
    ensures
        s@ == spec_layer_whisper(l),
{
    let summary = l.provenance().summary();
    let mut s = String::from_str(l.label());
    s.append(" — ");
    s.append(summary.as_str());
    s
}

/// A dock dot is pressed: the layer is switched, and when it wakes its
/// provenance is whispered. Switching a layer off says nothing.
pub fn press_dock_dot(active: &mut LayerSet, l: Layer) -> (whisper: Option<String>)
    ensures
        final(active)@ == spec_toggle(old(active)@, l),
        final(active)@.contains(l) <==> !old(active)@.contains(l),
        whisper is Some <==> final(active)@.contains(l),
        whisper matches Some(w) ==> w@ == spec_layer_whisper(l),
{
    active.toggle(l);
    if active.contains(l) {
        Some(layer_whisper(l))
    } else {
        None
    }
}

} // verus!
