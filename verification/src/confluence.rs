//! Confluence: an honest, legible signal for where real-world systems
//! co-locate.
//!
//! * Never scenario data: only layers whose provenance is `Observed` or
//!   `Curated` may contribute, and the layer of each entity is fixed by
//!   the field it arrives in, so scenario data has no way in.
//! * No weighting: a cell is the plain set of distinct real categories
//!   present plus a raw entity count.
//! * Co-location is not danger: nothing here ranks or scores cells.
//! * Points only: region centroids and route lines are not binned.
//!
//! Entities arrive already located in their H3 cell (as the cell's 64-bit
//! index at the confluence resolution); `None` marks an entity whose
//! coordinates did not resolve to a cell, which is skipped.

use vstd::prelude::*;
use std::collections::HashMap;
use crate::types::{
    lemma_layers_by_label, lemma_layers_by_label_prefix_insert, spec_event_layer, spec_layer_label, spec_layers_by_label, spec_provenance_kind, DataKind,
    Layer, LayerSet, NaturalEventType, LAYER_COUNT,
};

verus! {

/// H3 resolution used for confluence binning (continental/regional scale).
pub const CONFLUENCE_RESOLUTION: u8 = 2;

/// The layers eligible to contribute to confluence through the fixed list
/// below; Climate, Emergency and Health also contribute (see `compute`).
pub open spec fn spec_eligible_real_layers() -> Seq<Layer> {
    seq![
        Layer::Energy,
        Layer::Nuclear,
        Layer::FossilDeposits,
        Layer::Earthquakes,
        Layer::Fires,
        Layer::Storms,
        Layer::Volcanoes,
        Layer::MajorCities,
        Layer::Chokepoints,
        Layer::Infrastructure,
    ]
}

/// Every layer that can ever contribute to a confluence cell.
pub open spec fn confluence_layer(l: Layer) -> bool {
    spec_eligible_real_layers().contains(l) || l == Layer::Climate || l == Layer::Emergency || l
        == Layer::Health
}

/// The point-like real layers that feed confluence directly.
pub fn eligible_real_layers() -> (a: [Layer; 10])
    ensures
        a@ == spec_eligible_real_layers(),
{
    let a = [
        Layer::Energy,
        Layer::Nuclear,
        Layer::FossilDeposits,
        Layer::Earthquakes,
        Layer::Fires,
        Layer::Storms,
        Layer::Volcanoes,
        Layer::MajorCities,
        Layer::Chokepoints,
        Layer::Infrastructure,
    ];
    assert(a@ =~= spec_eligible_real_layers());
    a
}

/// The core honesty invariant: no layer that can contribute to confluence
/// is scenario data.
pub proof fn lemma_confluence_layers_are_never_scenario(l: Layer)
    requires
        confluence_layer(l),
    ensures
        spec_provenance_kind(l) != DataKind::Scenario,
{
    if spec_eligible_real_layers().contains(l) {
        let k = choose|k: int|
            0 <= k < spec_eligible_real_layers().len() && spec_eligible_real_layers()[k] == l;
    }
}

/// Real point data already located in H3 cells, one list per dataset.
#[derive(Debug, Clone)]
pub struct ConfluenceInput {
    pub sites: Vec<Option<u64>>,
    pub nuclear_sites: Vec<Option<u64>>,
    pub fossil_deposits: Vec<Option<u64>>,
    pub natural_events: Vec<(Option<u64>, NaturalEventType)>,
    pub major_cities: Vec<Option<u64>>,
    pub chokepoints: Vec<Option<u64>>,
    pub critical_infrastructure: Vec<Option<u64>>,
    pub climate_projects: Vec<Option<u64>>,
    pub emergency_shelters: Vec<Option<u64>>,
    pub health_facilities: Vec<Option<u64>>,
}

/// The located entities of one dataset, each tagged with the dataset's layer.
pub open spec fn binned(cells: Seq<Option<u64>>, l: Layer) -> Seq<(u64, Layer)>
    decreases cells.len(),
{
    if cells.len() == 0 {
        Seq::empty()
    } else {
        let p = binned(cells.drop_last(), l);
        match cells.last() {
            Some(c) => p.push((c, l)),
            None => p,
        }
    }
}

/// Located natural events, each tagged with the layer of its event kind.
pub open spec fn binned_events(events: Seq<(Option<u64>, NaturalEventType)>) -> Seq<(u64, Layer)>
    decreases events.len(),
{
    if events.len() == 0 {
        Seq::empty()
    } else {
        let p = binned_events(events.drop_last());
        match events.last().0 {
            Some(c) => p.push((c, spec_event_layer(events.last().1))),
            None => p,
        }
    }
}

/// All located entities of the input, tagged with their layer.
pub open spec fn spec_entries(input: ConfluenceInput) -> Seq<(u64, Layer)> {
    binned(input.sites@, Layer::Energy) + binned(input.nuclear_sites@, Layer::Nuclear) + binned(
        input.fossil_deposits@,
        Layer::FossilDeposits,
    ) + binned_events(input.natural_events@) + binned(input.major_cities@, Layer::MajorCities)
        + binned(input.chokepoints@, Layer::Chokepoints) + binned(
        input.critical_infrastructure@,
        Layer::Infrastructure,
    ) + binned(input.climate_projects@, Layer::Climate) + binned(
        input.emergency_shelters@,
        Layer::Emergency,
    ) + binned(input.health_facilities@, Layer::Health)
}

/// Total number of entities in the input, located or not.
pub open spec fn input_len(input: ConfluenceInput) -> nat {
    input.sites@.len() + input.nuclear_sites@.len() + input.fossil_deposits@.len()
        + input.natural_events@.len() + input.major_cities@.len() + input.chokepoints@.len()
        + input.critical_infrastructure@.len() + input.climate_projects@.len()
        + input.emergency_shelters@.len() + input.health_facilities@.len()
}

/// Some entity lies in cell `c`.
pub open spec fn cell_appears(e: Seq<(u64, Layer)>, c: u64) -> bool {
    exists|i: int| 0 <= i < e.len() && (#[trigger] e[i]).0 == c
}

/// The distinct layers of the entities in cell `c`.
pub open spec fn cell_layers(e: Seq<(u64, Layer)>, c: u64) -> Set<Layer> {
    Set::new(|l: Layer| exists|i: int| 0 <= i < e.len() && #[trigger] e[i] == (c, l))
}

/// Number of entities in cell `c`.
pub open spec fn cell_count(e: Seq<(u64, Layer)>, c: u64) -> nat
    decreases e.len(),
{
    if e.len() == 0 {
        0
    } else {
        cell_count(e.drop_last(), c) + if e.last().0 == c {
            1nat
        } else {
            0nat
        }
    }
}

/// A geographic cell where enough distinct real data categories co-locate.
#[derive(Debug, Clone)]
pub struct ConfluenceCell {
    /// 64-bit H3 index of the cell.
    pub cell: u64,
    /// Distinct real-data layers present in this cell, sorted by label.
    pub layers: Vec<Layer>,
    /// Total entity count across all contributing layers.
    pub entity_count: u32,
}

// ─── Laws of the entity list ────────────────────────────────────

proof fn lemma_binned_layers(cells: Seq<Option<u64>>, l: Layer)
    ensures
        forall|i: int| 0 <= i < binned(cells, l).len() ==> (#[trigger] binned(cells, l)[i]).1 == l,
        binned(cells, l).len() <= cells.len(),
    decreases cells.len(),
{
    if cells.len() > 0 {
        lemma_binned_layers(cells.drop_last(), l);
    }
}

proof fn lemma_binned_events_layers(events: Seq<(Option<u64>, NaturalEventType)>)
    ensures
        forall|i: int|
            0 <= i < binned_events(events).len() ==> (
            #[trigger] binned_events(events)[i]).1 == Layer::Earthquakes || binned_events(
                events,
            )[i].1 == Layer::Fires || binned_events(events)[i].1 == Layer::Storms
                || binned_events(events)[i].1 == Layer::Volcanoes,
        binned_events(events).len() <= events.len(),
    decreases events.len(),
{
    if events.len() > 0 {
        lemma_binned_events_layers(events.drop_last());
    }
}

/// Every located entity is tagged with a confluence layer, and there are no
/// more located entities than entities.
pub proof fn lemma_entries_are_real(input: ConfluenceInput)
    ensures
        forall|i: int|
            0 <= i < spec_entries(input).len() ==> confluence_layer(
                (#[trigger] spec_entries(input)[i]).1,
            ),
        spec_entries(input).len() <= input_len(input),
{
    lemma_binned_layers(input.sites@, Layer::Energy);
    lemma_binned_layers(input.nuclear_sites@, Layer::Nuclear);
    lemma_binned_layers(input.fossil_deposits@, Layer::FossilDeposits);
    lemma_binned_events_layers(input.natural_events@);
    lemma_binned_layers(input.major_cities@, Layer::MajorCities);
    lemma_binned_layers(input.chokepoints@, Layer::Chokepoints);
    lemma_binned_layers(input.critical_infrastructure@, Layer::Infrastructure);
    lemma_binned_layers(input.climate_projects@, Layer::Climate);
    lemma_binned_layers(input.emergency_shelters@, Layer::Emergency);
    lemma_binned_layers(input.health_facilities@, Layer::Health);
    let e = spec_entries(input);
    assert(spec_eligible_real_layers()[0] == Layer::Energy);
    assert(spec_eligible_real_layers()[1] == Layer::Nuclear);
    assert(spec_eligible_real_layers()[2] == Layer::FossilDeposits);
    assert(spec_eligible_real_layers()[3] == Layer::Earthquakes);
    assert(spec_eligible_real_layers()[4] == Layer::Fires);
    assert(spec_eligible_real_layers()[5] == Layer::Storms);
    assert(spec_eligible_real_layers()[6] == Layer::Volcanoes);
    assert(spec_eligible_real_layers()[7] == Layer::MajorCities);
    assert(spec_eligible_real_layers()[8] == Layer::Chokepoints);
    assert(spec_eligible_real_layers()[9] == Layer::Infrastructure);
}

proof fn lemma_binned_has(cells: Seq<Option<u64>>, l: Layer, i: int)
    requires
        0 <= i < cells.len(),
        cells[i] is Some,
    ensures
        binned(cells, l).contains((cells[i]->0, l)),
    decreases cells.len(),
{
    let p = binned(cells.drop_last(), l);
    if i < cells.len() - 1 {
        lemma_binned_has(cells.drop_last(), l, i);
        let j = choose|j: int| 0 <= j < p.len() && p[j] == (cells[i]->0, l);
        assert(binned(cells, l)[j] == (cells[i]->0, l));
    } else {
        assert(binned(cells, l)[p.len() as int] == (cells[i]->0, l));
    }
}

proof fn lemma_binned_events_has(events: Seq<(Option<u64>, NaturalEventType)>, i: int)
    requires
        0 <= i < events.len(),
        events[i].0 is Some,
    ensures
        binned_events(events).contains((events[i].0->0, spec_event_layer(events[i].1))),
    decreases events.len(),
{
    let x = (events[i].0->0, spec_event_layer(events[i].1));
    let p = binned_events(events.drop_last());
    if i < events.len() - 1 {
        lemma_binned_events_has(events.drop_last(), i);
        let j = choose|j: int| 0 <= j < p.len() && p[j] == x;
        assert(binned_events(events)[j] == x);
    } else {
        assert(binned_events(events)[p.len() as int] == x);
    }
}

proof fn lemma_contains_add(a: Seq<(u64, Layer)>, b: Seq<(u64, Layer)>, x: (u64, Layer))
    ensures
        a.contains(x) ==> (a + b).contains(x),
        b.contains(x) ==> (a + b).contains(x),
{
    if a.contains(x) {
        let j = choose|j: int| 0 <= j < a.len() && a[j] == x;
        assert((a + b)[j] == x);
    }
    if b.contains(x) {
        let j = choose|j: int| 0 <= j < b.len() && b[j] == x;
        assert((a + b)[a.len() + j] == x);
    }
}

/// Every entity of each part of the input is among the entities of the whole.
proof fn lemma_parts_in_entries(input: ConfluenceInput, x: (u64, Layer))
    ensures
        binned(input.sites@, Layer::Energy).contains(x) ==> spec_entries(input).contains(x),
        binned(input.nuclear_sites@, Layer::Nuclear).contains(x) ==> spec_entries(input).contains(x),
        binned(input.fossil_deposits@, Layer::FossilDeposits).contains(x) ==> spec_entries(
            input,
        ).contains(x),
        binned_events(input.natural_events@).contains(x) ==> spec_entries(input).contains(x),
        binned(input.major_cities@, Layer::MajorCities).contains(x) ==> spec_entries(input).contains(
            x,
        ),
        binned(input.chokepoints@, Layer::Chokepoints).contains(x) ==> spec_entries(input).contains(
            x,
        ),
        binned(input.critical_infrastructure@, Layer::Infrastructure).contains(x) ==> spec_entries(
            input,
        ).contains(x),
        binned(input.climate_projects@, Layer::Climate).contains(x) ==> spec_entries(
            input,
        ).contains(x),
        binned(input.emergency_shelters@, Layer::Emergency).contains(x) ==> spec_entries(
            input,
        ).contains(x),
        binned(input.health_facilities@, Layer::Health).contains(x) ==> spec_entries(
            input,
        ).contains(x),
{
    let p0 = binned(input.sites@, Layer::Energy);
    let p1 = binned(input.nuclear_sites@, Layer::Nuclear);
    let p2 = binned(input.fossil_deposits@, Layer::FossilDeposits);
    let p3 = binned_events(input.natural_events@);
    let p4 = binned(input.major_cities@, Layer::MajorCities);
    let p5 = binned(input.chokepoints@, Layer::Chokepoints);
    let p6 = binned(input.critical_infrastructure@, Layer::Infrastructure);
    let p7 = binned(input.climate_projects@, Layer::Climate);
    let p8 = binned(input.emergency_shelters@, Layer::Emergency);
    let p9 = binned(input.health_facilities@, Layer::Health);
    let s1 = p0 + p1;
    let s2 = s1 + p2;
    let s3 = s2 + p3;
    let s4 = s3 + p4;
    let s5 = s4 + p5;
    let s6 = s5 + p6;
    let s7 = s6 + p7;
    let s8 = s7 + p8;
    let s9 = s8 + p9;
    assert(s9 == spec_entries(input));
    lemma_contains_add(p0, p1, x);
    lemma_contains_add(s1, p2, x);
    lemma_contains_add(s2, p3, x);
    lemma_contains_add(s3, p4, x);
    lemma_contains_add(s4, p5, x);
    lemma_contains_add(s5, p6, x);
    lemma_contains_add(s6, p7, x);
    lemma_contains_add(s7, p8, x);
    lemma_contains_add(s8, p9, x);
}

/// Every located entity counts for its own category in its own cell: an
/// entity of a dataset puts that dataset's layer into the layers of the
/// cell it lies in, and a natural event puts the layer of its own kind
/// there (an earthquake Earthquakes, a fire Active Fires, a storm Severe
/// Storms, a volcano Volcanoes).
pub proof fn lemma_every_located_entity_is_binned(input: ConfluenceInput)
    ensures
        forall|i: int|
            0 <= i < input.sites@.len() && (#[trigger] input.sites@[i]) is Some ==> cell_layers(
                spec_entries(input),
                input.sites@[i]->0,
            ).contains(Layer::Energy),
        forall|i: int|
            0 <= i < input.nuclear_sites@.len() && (#[trigger] input.nuclear_sites@[i]) is Some
                ==> cell_layers(spec_entries(input), input.nuclear_sites@[i]->0).contains(
                Layer::Nuclear,
            ),
        forall|i: int|
            0 <= i < input.fossil_deposits@.len() && (#[trigger] input.fossil_deposits@[i]) is Some
                ==> cell_layers(spec_entries(input), input.fossil_deposits@[i]->0).contains(
                Layer::FossilDeposits,
            ),
        forall|i: int|
            0 <= i < input.natural_events@.len() && (#[trigger] input.natural_events@[i]).0 is Some
                ==> {
                let c = input.natural_events@[i].0->0;
                let layers = cell_layers(spec_entries(input), c);
                &&& input.natural_events@[i].1 == NaturalEventType::Earthquake ==> layers.contains(
                    Layer::Earthquakes,
                )
                &&& input.natural_events@[i].1 == NaturalEventType::Fire ==> layers.contains(
                    Layer::Fires,
                )
                &&& input.natural_events@[i].1 == NaturalEventType::Storm ==> layers.contains(
                    Layer::Storms,
                )
                &&& input.natural_events@[i].1 == NaturalEventType::Volcano ==> layers.contains(
                    Layer::Volcanoes,
                )
            },
        forall|i: int|
            0 <= i < input.major_cities@.len() && (#[trigger] input.major_cities@[i]) is Some
                ==> cell_layers(spec_entries(input), input.major_cities@[i]->0).contains(
                Layer::MajorCities,
            ),
        forall|i: int|
            0 <= i < input.chokepoints@.len() && (#[trigger] input.chokepoints@[i]) is Some
                ==> cell_layers(spec_entries(input), input.chokepoints@[i]->0).contains(
                Layer::Chokepoints,
            ),
        forall|i: int|
            0 <= i < input.critical_infrastructure@.len() && (
            #[trigger] input.critical_infrastructure@[i]) is Some ==> cell_layers(
                spec_entries(input),
                input.critical_infrastructure@[i]->0,
            ).contains(Layer::Infrastructure),
        forall|i: int|
            0 <= i < input.climate_projects@.len() && (#[trigger] input.climate_projects@[i])
                is Some ==> cell_layers(spec_entries(input), input.climate_projects@[i]->0).contains(
                Layer::Climate,
            ),
        forall|i: int|
            0 <= i < input.emergency_shelters@.len() && (#[trigger] input.emergency_shelters@[i])
                is Some ==> cell_layers(spec_entries(input), input.emergency_shelters@[i]->0).contains(
                Layer::Emergency,
            ),
        forall|i: int|
            0 <= i < input.health_facilities@.len() && (#[trigger] input.health_facilities@[i])
                is Some ==> cell_layers(spec_entries(input), input.health_facilities@[i]->0).contains(
                Layer::Health,
            ),
{
    let e = spec_entries(input);
    assert forall|i: int|
        0 <= i < input.sites@.len() && (#[trigger] input.sites@[i]) is Some implies cell_layers(
            e,
            input.sites@[i]->0,
        ).contains(Layer::Energy) by {
        let x = (input.sites@[i]->0, Layer::Energy);
        lemma_binned_has(input.sites@, Layer::Energy, i);
        lemma_parts_in_entries(input, x);
    }
    assert forall|i: int|
        0 <= i < input.nuclear_sites@.len() && (#[trigger] input.nuclear_sites@[i]) is Some
            implies cell_layers(e, input.nuclear_sites@[i]->0).contains(Layer::Nuclear) by {
        let x = (input.nuclear_sites@[i]->0, Layer::Nuclear);
        lemma_binned_has(input.nuclear_sites@, Layer::Nuclear, i);
        lemma_parts_in_entries(input, x);
    }
    assert forall|i: int|
        0 <= i < input.fossil_deposits@.len() && (#[trigger] input.fossil_deposits@[i]) is Some
            implies cell_layers(e, input.fossil_deposits@[i]->0).contains(Layer::FossilDeposits) by {
        let x = (input.fossil_deposits@[i]->0, Layer::FossilDeposits);
        lemma_binned_has(input.fossil_deposits@, Layer::FossilDeposits, i);
        lemma_parts_in_entries(input, x);
    }
    assert forall|i: int|
        0 <= i < input.natural_events@.len() && (#[trigger] input.natural_events@[i]).0 is Some
            implies cell_layers(e, input.natural_events@[i].0->0).contains(
            spec_event_layer(input.natural_events@[i].1),
        ) by {
        let x = (input.natural_events@[i].0->0, spec_event_layer(input.natural_events@[i].1));
        lemma_binned_events_has(input.natural_events@, i);
        lemma_parts_in_entries(input, x);
    }
    assert forall|i: int|
        0 <= i < input.major_cities@.len() && (#[trigger] input.major_cities@[i]) is Some implies cell_layers(
            e,
            input.major_cities@[i]->0,
        ).contains(Layer::MajorCities) by {
        let x = (input.major_cities@[i]->0, Layer::MajorCities);
        lemma_binned_has(input.major_cities@, Layer::MajorCities, i);
        lemma_parts_in_entries(input, x);
    }
    assert forall|i: int|
        0 <= i < input.chokepoints@.len() && (#[trigger] input.chokepoints@[i]) is Some implies cell_layers(
            e,
            input.chokepoints@[i]->0,
        ).contains(Layer::Chokepoints) by {
        let x = (input.chokepoints@[i]->0, Layer::Chokepoints);
        lemma_binned_has(input.chokepoints@, Layer::Chokepoints, i);
        lemma_parts_in_entries(input, x);
    }
    assert forall|i: int|
        0 <= i < input.critical_infrastructure@.len() && (
        #[trigger] input.critical_infrastructure@[i]) is Some implies cell_layers(
            e,
            input.critical_infrastructure@[i]->0,
        ).contains(Layer::Infrastructure) by {
        let x = (input.critical_infrastructure@[i]->0, Layer::Infrastructure);
        lemma_binned_has(input.critical_infrastructure@, Layer::Infrastructure, i);
        lemma_parts_in_entries(input, x);
    }
    assert forall|i: int|
        0 <= i < input.climate_projects@.len() && (#[trigger] input.climate_projects@[i]) is Some
            implies cell_layers(e, input.climate_projects@[i]->0).contains(Layer::Climate) by {
        let x = (input.climate_projects@[i]->0, Layer::Climate);
        lemma_binned_has(input.climate_projects@, Layer::Climate, i);
        lemma_parts_in_entries(input, x);
    }
    assert forall|i: int|
        0 <= i < input.emergency_shelters@.len() && (#[trigger] input.emergency_shelters@[i])
            is Some implies cell_layers(e, input.emergency_shelters@[i]->0).contains(
            Layer::Emergency,
        ) by {
        let x = (input.emergency_shelters@[i]->0, Layer::Emergency);
        lemma_binned_has(input.emergency_shelters@, Layer::Emergency, i);
        lemma_parts_in_entries(input, x);
    }
    assert forall|i: int|
        0 <= i < input.health_facilities@.len() && (#[trigger] input.health_facilities@[i]) is Some
            implies cell_layers(e, input.health_facilities@[i]->0).contains(Layer::Health) by {
        let x = (input.health_facilities@[i]->0, Layer::Health);
        lemma_binned_has(input.health_facilities@, Layer::Health, i);
        lemma_parts_in_entries(input, x);
    }
}

/// Honesty law: whatever the input, no scenario layer ever appears in the
/// layers of a confluence cell.
pub proof fn lemma_confluence_never_scenario(input: ConfluenceInput, c: u64, l: Layer)
    requires
        spec_layers_by_label(cell_layers(spec_entries(input), c)).contains(l),
    ensures
        spec_provenance_kind(l) != DataKind::Scenario,
{
    let e = spec_entries(input);
    lemma_layers_by_label(cell_layers(e, c));
    lemma_entries_are_real(input);
    let i = choose|i: int| 0 <= i < e.len() && e[i] == (c, l);
    assert(confluence_layer(e[i].1));
    lemma_confluence_layers_are_never_scenario(l);
}

/// A prefix of the entities puts no more of them in a cell than the whole.
proof fn lemma_cell_count_prefix(e: Seq<(u64, Layer)>, n: int, c: u64)
    requires
        0 <= n <= e.len(),
    ensures
        cell_count(e.take(n), c) <= cell_count(e, c),
    decreases e.len() - n,
{
    if n == e.len() {
        assert(e.take(n) =~= e);
    } else {
        lemma_prefix_step(e, n, c);
        lemma_cell_count_prefix(e, n + 1, c);
    }
}

/// A cell never lists more layers than it holds entities: every listed
/// layer is there because at least one entity of it is.
pub proof fn lemma_entity_count_covers_layers(e: Seq<(u64, Layer)>, c: u64)
    ensures
        spec_layers_by_label(cell_layers(e, c)).len() <= cell_count(e, c),
    decreases e.len(),
{
    if e.len() == 0 {
        let s = cell_layers(e, c);
        assert(s =~= Set::<Layer>::empty());
        lemma_layers_by_label(s);
        let v = spec_layers_by_label(s);
        if v.len() > 0 {
            assert(v.contains(v[0]));
            assert(s.contains(v[0]));
        }
        assert(v.len() == 0);
        assert(cell_count(e, c) == 0);
    } else {
        let p = e.drop_last();
        let i = (e.len() - 1) as int;
        assert(e.take(i + 1) =~= e);
        assert(e.take(i) =~= p);
        lemma_prefix_step(e, i, c);
        lemma_entity_count_covers_layers(p, c);
        if e[i].0 == c {
            lemma_layers_by_label_prefix_insert(cell_layers(p, c), e[i].1, LAYER_COUNT as nat);
        }
    }
}

// ─── Building the entity list ───────────────────────────────────

fn push_binned(out: &mut Vec<(u64, Layer)>, cells: &Vec<Option<u64>>, l: Layer)
    ensures
        final(out)@ == old(out)@ + binned(cells@, l),
{
    let ghost start = out@;
    let mut i: usize = 0;
    while i < cells.len()
        invariant
            i <= cells.len(),
            out@ == start + binned(cells@.take(i as int), l),
        decreases cells.len() - i,
    {
        assert(cells@.take(i + 1).drop_last() =~= cells@.take(i as int));
        match cells[i] {
            Some(c) => {
                out.push((c, l));
            },
            None => {},
        }
        i = i + 1;
        proof {
            assert(out@ =~= start + binned(cells@.take(i as int), l));
        }
    }
    assert(cells@.take(cells.len() as int) =~= cells@);
}

fn push_binned_events(out: &mut Vec<(u64, Layer)>, events: &Vec<(Option<u64>, NaturalEventType)>)
    ensures
        final(out)@ == old(out)@ + binned_events(events@),
{
    let ghost start = out@;
    let mut i: usize = 0;
    while i < events.len()
        invariant
            i <= events.len(),
            out@ == start + binned_events(events@.take(i as int)),
        decreases events.len() - i,
    {
        assert(events@.take(i + 1).drop_last() =~= events@.take(i as int));
        let (cell, kind) = events[i];
        match cell {
            Some(c) => {
                out.push((c, kind.layer()));
            },
            None => {},
        }
        i = i + 1;
        proof {
            assert(out@ =~= start + binned_events(events@.take(i as int)));
        }
    }
    assert(events@.take(events.len() as int) =~= events@);
}

/// All located entities, in dataset order, each tagged with its layer.
pub fn entries(input: &ConfluenceInput) -> (e: Vec<(u64, Layer)>)
    ensures
        e@ == spec_entries(*input),
{
    let mut e: Vec<(u64, Layer)> = Vec::new();
    push_binned(&mut e, &input.sites, Layer::Energy);
    push_binned(&mut e, &input.nuclear_sites, Layer::Nuclear);
    push_binned(&mut e, &input.fossil_deposits, Layer::FossilDeposits);
    push_binned_events(&mut e, &input.natural_events);
    push_binned(&mut e, &input.major_cities, Layer::MajorCities);
    push_binned(&mut e, &input.chokepoints, Layer::Chokepoints);
    push_binned(&mut e, &input.critical_infrastructure, Layer::Infrastructure);
    push_binned(&mut e, &input.climate_projects, Layer::Climate);
    push_binned(&mut e, &input.emergency_shelters, Layer::Emergency);
    push_binned(&mut e, &input.health_facilities, Layer::Health);
    assert(e@ =~= spec_entries(*input));
    e
}

// ─── Binning ────────────────────────────────────────────────────

/// Accumulated state of one cell over a prefix of the entities.
pub open spec fn acc_ok(acc: Seq<(u64, LayerSet, u32)>, p: Seq<(u64, Layer)>) -> bool {
    &&& forall|k: int|
        0 <= k < acc.len() ==> (#[trigger] acc[k]).1@ == cell_layers(p, acc[k].0) && acc[k].2
            == cell_count(p, acc[k].0) && cell_appears(p, acc[k].0)
    &&& forall|j: int, k: int| 0 <= j < k < acc.len() ==> acc[j].0 != acc[k].0
    &&& forall|c: u64| cell_appears(p, c) ==> exists|k: int| 0 <= k < acc.len() && acc[k].0 == c
    &&& forall|j: int, k: int| 0 <= j < k < acc.len() ==> first_before(p, acc[j].0, acc[k].0)
}

/// Cell `a` is reached before cell `b`: every entity in `b` comes after
/// some entity in `a`.
pub open spec fn first_before(e: Seq<(u64, Layer)>, a: u64, b: u64) -> bool {
    forall|i: int|
        0 <= i < e.len() && (#[trigger] e[i]).0 == b ==> exists|h: int|
            0 <= h < i && e[h].0 == a
}

proof fn lemma_first_before_extend(p: Seq<(u64, Layer)>, x: (u64, Layer), a: u64, b: u64)
    requires
        cell_appears(p, a),
        first_before(p, a, b) || !cell_appears(p, b),
    ensures
        first_before(p.push(x), a, b),
{
    let q = p.push(x);
    let h0 = choose|h: int| 0 <= h < p.len() && p[h].0 == a;
    assert forall|i: int| 0 <= i < q.len() && (#[trigger] q[i]).0 == b implies exists|h: int|
        0 <= h < i && q[h].0 == a by {
        if i < p.len() {
            assert(p[i].0 == b);
            assert(cell_appears(p, b));
            let h = choose|h: int| 0 <= h < i && p[h].0 == a;
            assert(q[h].0 == a);
        } else {
            assert(q[h0].0 == a);
        }
    }
}

proof fn lemma_prefix_step(e: Seq<(u64, Layer)>, i: int, c: u64)
    requires
        0 <= i < e.len(),
    ensures
        cell_layers(e.take(i + 1), c) == (if e[i].0 == c {
            cell_layers(e.take(i), c).insert(e[i].1)
        } else {
            cell_layers(e.take(i), c)
        }),
        cell_count(e.take(i + 1), c) == cell_count(e.take(i), c) + (if e[i].0 == c {
            1nat
        } else {
            0nat
        }),
        cell_appears(e.take(i + 1), c) == (cell_appears(e.take(i), c) || e[i].0 == c),
{
    let p = e.take(i);
    let q = e.take(i + 1);
    assert(q.drop_last() =~= p);
    let target = if e[i].0 == c {
        cell_layers(p, c).insert(e[i].1)
    } else {
        cell_layers(p, c)
    };
    assert forall|l: Layer| cell_layers(q, c).contains(l) == target.contains(l) by {
        if cell_layers(q, c).contains(l) {
            let j = choose|j: int| 0 <= j < q.len() && q[j] == (c, l);
            if j < i {
                assert(p[j] == (c, l));
            }
        }
        if target.contains(l) {
            if cell_layers(p, c).contains(l) {
                let j = choose|j: int| 0 <= j < p.len() && p[j] == (c, l);
                assert(q[j] == (c, l));
            } else {
                assert(q[i] == (c, l));
            }
        }
    }
    assert(cell_layers(q, c) =~= target);
    if cell_appears(q, c) {
        let j = choose|j: int| 0 <= j < q.len() && q[j].0 == c;
        if j < i {
            assert(p[j].0 == c);
        }
    }
    if cell_appears(p, c) {
        let j = choose|j: int| 0 <= j < p.len() && p[j].0 == c;
        assert(q[j].0 == c);
    }
    if e[i].0 == c {
        assert(q[i].0 == c);
    }
}

/// `index` maps each accumulated cell to its slot in `acc`, and nothing else.
pub open spec fn index_ok(index: Map<u64, usize>, acc: Seq<(u64, LayerSet, u32)>) -> bool {
    &&& forall|k: int|
        0 <= k < acc.len() ==> index.contains_key(#[trigger] acc[k].0) && index[acc[k].0] == k
    &&& forall|c: u64|
        #[trigger] index.contains_key(c) ==> index[c] < acc.len() && acc[index[c] as int].0 == c
}

/// Find the accumulated slot of a cell, if it has one.
fn find_cell(index: &HashMap<u64, usize>, Ghost(acc): Ghost<Seq<(u64, LayerSet, u32)>>, c: u64) -> (r:
    Option<usize>)
    requires
        index_ok(index@, acc),
    ensures
        match r {
            Some(k) => k < acc.len() && acc[k as int].0 == c,
            None => forall|k: int| 0 <= k < acc.len() ==> acc[k].0 != c,
        },
{
    broadcast use vstd::std_specs::hash::group_hash_axioms;

    match index.get(&c) {
        Some(k) => Some(*k),
        None => {
            assert forall|k: int| 0 <= k < acc.len() implies acc[k].0 != c by {
                if acc[k].0 == c {
                    assert(index@.contains_key(acc[k].0));
                }
            }
            None
        },
    }
}

/// Group entities by cell: for every cell that holds some entity, its
/// distinct layers and its entity count (cells in order of first appearance).
fn accumulate(e: &Vec<(u64, Layer)>) -> (acc: Vec<(u64, LayerSet, u32)>)
    requires
        forall|c: u64| cell_count(e@, c) <= u32::MAX,
    ensures
        acc_ok(acc@, e@),
{
    broadcast use vstd::std_specs::hash::group_hash_axioms;

    let mut acc: Vec<(u64, LayerSet, u32)> = Vec::new();
    let mut index: HashMap<u64, usize> = HashMap::new();
    let mut i: usize = 0;
    proof {
        assert(e@.take(0) =~= Seq::<(u64, Layer)>::empty());
    }
    while i < e.len()
        invariant
            i <= e.len(),
            forall|c: u64| cell_count(e@, c) <= u32::MAX,
            acc_ok(acc@, e@.take(i as int)),
            index_ok(index@, acc@),
        decreases e.len() - i,
    {
        let (c, l) = e[i];
        let ghost p = e@.take(i as int);
        let ghost q = e@.take(i + 1);
        let ghost old_acc = acc@;
        proof {
            assert forall|d: u64| true implies cell_layers(q, d) == (if e@[i as int].0 == d {
                cell_layers(p, d).insert(e@[i as int].1)
            } else {
                cell_layers(p, d)
            }) && cell_count(q, d) == cell_count(p, d) + (if e@[i as int].0 == d {
                1nat
            } else {
                0nat
            }) && cell_appears(q, d) == (cell_appears(p, d) || e@[i as int].0 == d) by {
                lemma_prefix_step(e@, i as int, d);
            }
            lemma_cell_count_prefix(e@, i + 1, c);
        }
        match find_cell(&index, Ghost(acc@), c) {
            Some(k) => {
                let (cell, mut set, n) = acc[k];
                set.insert(l);
                acc.set(k, (cell, set, n + 1));
                proof {
                    assert forall|j: int| 0 <= j < acc.len() implies #[trigger] acc@[j].0
                        == old_acc[j].0 by {}
                    assert(index_ok(index@, acc@));
                    assert forall|j: int| 0 <= j < acc.len() implies (#[trigger] acc@[j]).1@
                        == cell_layers(q, acc@[j].0) && acc@[j].2 == cell_count(q, acc@[j].0)
                        && cell_appears(q, acc@[j].0) by {
                        if j != k {
                            assert(acc@[j] == old_acc[j]);
                        }
                    }
                    assert forall|d: u64| cell_appears(q, d) implies exists|j: int|
                        0 <= j < acc.len() && acc@[j].0 == d by {
                        if d == c {
                            assert(acc@[k as int].0 == d);
                        } else {
                            let j = choose|j: int| 0 <= j < old_acc.len() && old_acc[j].0 == d;
                            assert(acc@[j].0 == d);
                        }
                    }
                    assert(q =~= p.push(e@[i as int]));
                    assert forall|j1: int, j2: int| 0 <= j1 < j2 < acc.len() implies first_before(
                        q,
                        acc@[j1].0,
                        acc@[j2].0,
                    ) by {
                        assert(acc@[j1].0 == old_acc[j1].0);
                        assert(acc@[j2].0 == old_acc[j2].0);
                        assert(old_acc[j1] == old_acc[j1]);
                        lemma_first_before_extend(p, e@[i as int], old_acc[j1].0, old_acc[j2].0);
                    }
                }
            },
            None => {
                let mut set = LayerSet::new();
                set.insert(l);
                index.insert(c, acc.len());
                acc.push((c, set, 1));
                proof {
                    assert forall|j: int| 0 <= j < acc.len() implies index@.contains_key(
                        #[trigger] acc@[j].0,
                    ) && index@[acc@[j].0] == j by {
                        if j < old_acc.len() {
                            assert(acc@[j] == old_acc[j]);
                            assert(old_acc[j].0 != c);
                        }
                    }
                    assert forall|d: u64| #[trigger] index@.contains_key(d) implies index@[d]
                        < acc.len() && acc@[index@[d] as int].0 == d by {
                        if d != c {
                            assert(acc@[index@[d] as int] == old_acc[index@[d] as int]);
                        }
                    }
                    assert(!cell_appears(p, c));
                    assert(cell_count(p, c) == 0) by {
                        lemma_cell_count_absent(p, c);
                    }
                    assert(cell_layers(p, c) =~= Set::<Layer>::empty());
                    assert forall|j: int| 0 <= j < acc.len() implies (#[trigger] acc@[j]).1@
                        == cell_layers(q, acc@[j].0) && acc@[j].2 == cell_count(q, acc@[j].0)
                        && cell_appears(q, acc@[j].0) by {
                        if j < old_acc.len() {
                            assert(acc@[j] == old_acc[j]);
                        }
                    }
                    assert forall|d: u64| cell_appears(q, d) implies exists|j: int|
                        0 <= j < acc.len() && acc@[j].0 == d by {
                        if d == c {
                            assert(acc@[old_acc.len() as int].0 == d);
                        } else {
                            let j = choose|j: int| 0 <= j < old_acc.len() && old_acc[j].0 == d;
                            assert(acc@[j].0 == d);
                        }
                    }
                    assert(q =~= p.push(e@[i as int]));
                    assert forall|j1: int, j2: int| 0 <= j1 < j2 < acc.len() implies first_before(
                        q,
                        acc@[j1].0,
                        acc@[j2].0,
                    ) by {
                        assert(acc@[j1] == old_acc[j1]);
                        assert(old_acc[j1] == old_acc[j1]);
                        if j2 < old_acc.len() {
                            assert(acc@[j2] == old_acc[j2]);
                        }
                        lemma_first_before_extend(p, e@[i as int], acc@[j1].0, acc@[j2].0);
                    }
                }
            },
        }
        i = i + 1;
    }
    proof {
        assert(e@.take(e.len() as int) =~= e@);
    }
    acc
}

proof fn lemma_cell_count_absent(e: Seq<(u64, Layer)>, c: u64)
    requires
        !cell_appears(e, c),
    ensures
        cell_count(e, c) == 0,
    decreases e.len(),
{
    if e.len() > 0 {
        let p = e.drop_last();
        assert(!cell_appears(p, c)) by {
            if cell_appears(p, c) {
                let j = choose|j: int| 0 <= j < p.len() && p[j].0 == c;
                assert(e[j].0 == c);
            }
        }
        assert(e[e.len() - 1].0 != c);
        lemma_cell_count_absent(p, c);
    }
}

/// Bin every located real-data entity into its H3 cell and return the cells
/// where at least `min_layers` distinct real categories co-locate. Each cell
/// lists its layers alphabetically and counts every entity in it. Cells come
/// in the order in which the input first reaches them.
pub fn compute(input: &ConfluenceInput, min_layers: usize) -> (cells: Vec<ConfluenceCell>)
    requires
        forall|c: u64| cell_count(spec_entries(*input), c) <= u32::MAX,
    ensures
        forall|k: int|
            0 <= k < cells.len() ==> {
                let c = (#[trigger] cells@[k]).cell;
                &&& cell_appears(spec_entries(*input), c)
                &&& cells@[k].layers@ == spec_layers_by_label(cell_layers(spec_entries(*input), c))
                &&& cells@[k].entity_count == cell_count(spec_entries(*input), c)
                &&& cells@[k].layers.len() >= min_layers
            },
        forall|j: int, k: int| 0 <= j < k < cells.len() ==> cells@[j].cell != cells@[k].cell,
        forall|j: int, k: int|
            0 <= j < k < cells.len() ==> first_before(
                spec_entries(*input),
                cells@[j].cell,
                cells@[k].cell,
            ),
        forall|c: u64|
            cell_appears(spec_entries(*input), c) && spec_layers_by_label(
                cell_layers(spec_entries(*input), c),
            ).len() >= min_layers ==> exists|k: int| 0 <= k < cells.len() && cells@[k].cell == c,
{
    let e = entries(input);
    let acc = accumulate(&e);
    let mut cells: Vec<ConfluenceCell> = Vec::new();
    let ghost ent = e@;
    // index in `acc` of each output cell
    let ghost mut origin: Seq<int> = Seq::empty();
    let mut k: usize = 0;
    while k < acc.len()
        invariant
            k <= acc.len(),
            ent == e@,
            acc_ok(acc@, ent),
            origin.len() == cells.len(),
            forall|m: int|
                0 <= m < cells.len() ==> 0 <= #[trigger] origin[m] < k && cells@[m].cell
                    == acc@[origin[m]].0,
            forall|j: int, m: int| 0 <= j < m < cells.len() ==> origin[j] < origin[m],
            forall|m: int|
                0 <= m < cells.len() ==> {
                    let c = (#[trigger] cells@[m]).cell;
                    &&& cell_appears(ent, c)
                    &&& cells@[m].layers@ == spec_layers_by_label(cell_layers(ent, c))
                    &&& cells@[m].entity_count == cell_count(ent, c)
                    &&& cells@[m].layers.len() >= min_layers
                },
            forall|j: int|
                0 <= j < k && spec_layers_by_label(cell_layers(ent, acc@[j].0)).len()
                    >= min_layers ==> exists|m: int|
                    0 <= m < cells.len() && #[trigger] origin[m] == j,
        decreases acc.len() - k,
    {
        let (c, set, n) = acc[k];
        let layers = set.layers_by_label();
        let ghost old_origin = origin;
        let ghost old_len = cells.len();
        let ghost qualifies = layers.len() >= min_layers;
        if layers.len() >= min_layers {
            cells.push(ConfluenceCell { cell: c, layers, entity_count: n });
            proof {
                origin = origin.push(k as int);
            }
        }
        proof {
            assert(acc@[k as int].1@ == cell_layers(ent, acc@[k as int].0));
            assert forall|j: int|
                0 <= j < k + 1 && spec_layers_by_label(cell_layers(ent, acc@[j].0)).len()
                    >= min_layers implies exists|m: int|
                0 <= m < cells.len() && #[trigger] origin[m] == j by {
                if j == k {
                    assert(qualifies);
                    assert(origin[old_len as int] == j);
                } else {
                    let m = choose|m: int| 0 <= m < old_len && #[trigger] old_origin[m] == j;
                    assert(origin[m] == j);
                }
            }
        }
        k = k + 1;
    }
    proof {
        assert forall|j: int, m: int| 0 <= j < m < cells.len() implies #[trigger] cells@[j].cell
            != #[trigger] cells@[m].cell by {
            let a = origin[j];
            let b = origin[m];
            assert(0 <= a < b < acc.len());
            assert(acc@[a].0 != acc@[b].0);
        }
        assert forall|j: int, m: int| 0 <= j < m < cells.len() implies first_before(
            ent,
            cells@[j].cell,
            cells@[m].cell,
        ) by {
            let a = origin[j];
            let b = origin[m];
            assert(0 <= a < b < acc.len());
            assert(first_before(ent, acc@[a].0, acc@[b].0));
        }
        assert forall|c: u64|
            cell_appears(ent, c) && spec_layers_by_label(cell_layers(ent, c)).len()
                >= min_layers implies exists|m: int| 0 <= m < cells.len() && cells@[m].cell == c by {
            let j = choose|j: int| 0 <= j < acc.len() && acc@[j].0 == c;
            let m = choose|m: int| 0 <= m < cells.len() && #[trigger] origin[m] == j;
            assert(cells@[m].cell == c);
        }
    }
    cells
}

// ─── Summaries ──────────────────────────────────────────────────

pub open spec fn spec_digit(d: nat) -> Seq<char> {
    if d == 0 {
        "0"@
    } else if d == 1 {
        "1"@
    } else if d == 2 {
        "2"@
    } else if d == 3 {
        "3"@
    } else if d == 4 {
        "4"@
    } else if d == 5 {
        "5"@
    } else if d == 6 {
        "6"@
    } else if d == 7 {
        "7"@
    } else if d == 8 {
        "8"@
    } else {
        "9"@
    }
}

/// Decimal notation of a natural number, without leading zeros.
pub open spec fn spec_decimal(n: nat) -> Seq<char>
    decreases n,
{
    if n < 10 {
        spec_digit(n)
    } else {
        spec_decimal(n / 10) + spec_digit(n % 10)
    }
}

fn digit(d: usize) -> (s: &'static str)
    requires
        d < 10,
    ensures
        s@ == spec_digit(d as nat),
{
    match d {
        0 => "0",
        1 => "1",
        2 => "2",
        3 => "3",
        4 => "4",
        5 => "5",
        6 => "6",
        7 => "7",
        8 => "8",
        _ => "9",
    }
}

/// Decimal notation of `n`.
pub fn decimal(n: usize) -> (s: String)
    ensures
        s@ == spec_decimal(n as nat),
    decreases n,
{
    if n < 10 {
        String::from_str(digit(n))
    } else {
        decimal(n / 10).concat(digit(n % 10))
    }
}

/// Labels of the layers, separated by ", ".
pub open spec fn spec_join_labels(ls: Seq<Layer>) -> Seq<char>
    decreases ls.len(),
{
    if ls.len() == 0 {
        Seq::empty()
    } else if ls.len() == 1 {
        spec_layer_label(ls[0])
    } else {
        spec_join_labels(ls.drop_last()) + ", "@ + spec_layer_label(ls.last())
    }
}

/// "N real system(s): A, B, C".
pub open spec fn spec_confluence_summary(ls: Seq<Layer>) -> Seq<char> {
    spec_decimal(ls.len()) + (if ls.len() == 1 {
        " real system"@
    } else {
        " real systems"@
    }) + ": "@ + spec_join_labels(ls)
}

impl ConfluenceCell {
    /// Human-readable summary, e.g. "3 real systems: Earthquakes, Nuclear
    /// Sites, Maritime Chokepoints". Factual, never implies severity.
    pub fn summary(&self) -> (s: String)
        ensures
            s@ == spec_confluence_summary(self.layers@),
    {
        let n = self.layers.len();
        let mut s = decimal(n);
        if n == 1 {
            s.append(" real system");
        } else {
            s.append(" real systems");
        }
        s.append(": ");
        let ghost head = s@;
        let mut i: usize = 0;
        while i < n
            invariant
                i <= n,
                n == self.layers.len(),
                s@ == head + spec_join_labels(self.layers@.take(i as int)),
            decreases n - i,
        {
            assert(self.layers@.take(i + 1).drop_last() =~= self.layers@.take(i as int));
            if i != 0 {
                s.append(", ");
            }
            s.append(self.layers[i].label());
            i = i + 1;
            proof {
                if i == 1 {
                    assert(self.layers@.take(0) =~= Seq::<Layer>::empty());
                }
                assert(s@ =~= head + spec_join_labels(self.layers@.take(i as int)));
            }
        }
        assert(self.layers@.take(n as int) =~= self.layers@);
        s
    }
}

} // verus!
