//! Data layers, their provenance, and the small enumerations shared by
//! every part of the atlas.

use vstd::prelude::*;

verus! {

// ─── Layers ──────────────────────────────────────────────────────

/// One toggleable data layer of the globe.
#[derive(Debug, Clone, Copy, PartialEq, Eq, Hash, Structural)]
pub enum Layer {
    Energy,
    ResontiaVaults,
    Maglev,
    Geothermal,
    TerraLumina,
    Regions,
    SupplyChain,
    Climate,
    Emergency,
    Health,
    Robotics,
    FossilDeposits,
    Nuclear,
    Earthquakes,
    Fires,
    Storms,
    Volcanoes,
    Infrastructure,
    Chokepoints,
    MajorCities,
    DeSciEvidence,
}

/// Number of distinct layers.
pub const LAYER_COUNT: usize = 21;

/// Position of a layer in declaration order (0-based).
pub open spec fn layer_index(l: Layer) -> nat {
    match l {
        Layer::Energy => 0,
        Layer::ResontiaVaults => 1,
        Layer::Maglev => 2,
        Layer::Geothermal => 3,
        Layer::TerraLumina => 4,
        Layer::Regions => 5,
        Layer::SupplyChain => 6,
        Layer::Climate => 7,
        Layer::Emergency => 8,
        Layer::Health => 9,
        Layer::Robotics => 10,
        Layer::FossilDeposits => 11,
        Layer::Nuclear => 12,
        Layer::Earthquakes => 13,
        Layer::Fires => 14,
        Layer::Storms => 15,
        Layer::Volcanoes => 16,
        Layer::Infrastructure => 17,
        Layer::Chokepoints => 18,
        Layer::MajorCities => 19,
        Layer::DeSciEvidence => 20,
    }
}

/// The layer at a given declaration position.
pub open spec fn layer_at_index(i: int) -> Layer {
    if i == 0 { Layer::Energy }
    else if i == 1 { Layer::ResontiaVaults }
    else if i == 2 { Layer::Maglev }
    else if i == 3 { Layer::Geothermal }
    else if i == 4 { Layer::TerraLumina }
    else if i == 5 { Layer::Regions }
    else if i == 6 { Layer::SupplyChain }
    else if i == 7 { Layer::Climate }
    else if i == 8 { Layer::Emergency }
    else if i == 9 { Layer::Health }
    else if i == 10 { Layer::Robotics }
    else if i == 11 { Layer::FossilDeposits }
    else if i == 12 { Layer::Nuclear }
    else if i == 13 { Layer::Earthquakes }
    else if i == 14 { Layer::Fires }
    else if i == 15 { Layer::Storms }
    else if i == 16 { Layer::Volcanoes }
    else if i == 17 { Layer::Infrastructure }
    else if i == 18 { Layer::Chokepoints }
    else if i == 19 { Layer::MajorCities }
    else { Layer::DeSciEvidence }
}

/// `layer_index` and `layer_at_index` are inverse to each other.
pub proof fn lemma_layer_index_bijection(l: Layer)
    ensures
        layer_index(l) < LAYER_COUNT,
        layer_at_index(layer_index(l) as int) == l,
{
}

/// Display label of each layer.
pub open spec fn spec_layer_label(l: Layer) -> Seq<char> {
    match l {
        Layer::Energy => "Energy Sites"@,
        Layer::ResontiaVaults => "Resontia Vaults"@,
        Layer::Maglev => "Maglev Corridors"@,
        Layer::Geothermal => "Geothermal Nodes"@,
        Layer::TerraLumina => "Terra Lumina Sites"@,
        Layer::Regions => "Earth Regions"@,
        Layer::SupplyChain => "Supply Chain"@,
        Layer::Climate => "Climate Projects"@,
        Layer::Emergency => "Emergency Shelters"@,
        Layer::Health => "Health Facilities"@,
        Layer::Robotics => "Robotics Dispatch"@,
        Layer::FossilDeposits => "Fossil Deposits"@,
        Layer::Nuclear => "Nuclear Sites"@,
        Layer::Earthquakes => "Earthquakes"@,
        Layer::Fires => "Active Fires"@,
        Layer::Storms => "Storms"@,
        Layer::Volcanoes => "Volcanoes"@,
        Layer::Infrastructure => "Critical Infrastructure"@,
        Layer::Chokepoints => "Maritime Chokepoints"@,
        Layer::MajorCities => "Major Cities"@,
        Layer::DeSciEvidence => "DeSci Evidence Mesh"@,
    }
}

/// CSS color of each layer's marker.
pub open spec fn spec_layer_css_color(l: Layer) -> Seq<char> {
    match l {
        Layer::Energy => "#06b6d4"@,
        Layer::ResontiaVaults => "#34d399"@,
        Layer::Maglev => "#fbbf24"@,
        Layer::Geothermal => "#ef4444"@,
        Layer::TerraLumina => "#a78bfa"@,
        Layer::Regions => "#3b82f6"@,
        Layer::SupplyChain => "#f59e0b"@,
        Layer::Climate => "#10b981"@,
        Layer::Emergency => "#ef4444"@,
        Layer::Health => "#ec4899"@,
        Layer::Robotics => "#8b5cf6"@,
        Layer::FossilDeposits => "#b8860b"@,
        Layer::Nuclear => "#a855f7"@,
        Layer::Earthquakes => "#e53e3e"@,
        Layer::Fires => "#ed8936"@,
        Layer::Storms => "#4299e1"@,
        Layer::Volcanoes => "#e53e3e"@,
        Layer::Infrastructure => "#9f7aea"@,
        Layer::Chokepoints => "#ed8936"@,
        Layer::MajorCities => "#94a3b8"@,
        Layer::DeSciEvidence => "#0066CC"@,
    }
}

/// Where each layer's data comes from.
pub open spec fn spec_provenance_source(l: Layer) -> Seq<char> {
    match l {
        Layer::Energy => "USACE dam inventory + NRC SMR pipeline"@,
        Layer::ResontiaVaults => "Sol Atlas planning scenario"@,
        Layer::Maglev => "Sol Atlas planning scenario"@,
        Layer::Geothermal => "Sol Atlas planning scenario"@,
        Layer::TerraLumina => "Sol Atlas planning scenario"@,
        Layer::Regions => "curated regional aggregates (estimates)"@,
        Layer::SupplyChain => "curated schematic of major trade flows"@,
        Layer::Climate => "curated major climate projects (estimates)"@,
        Layer::Emergency => "curated illustrative shelter network"@,
        Layer::Health => "curated illustrative facility set"@,
        Layer::Robotics => "Sol Atlas planning scenario"@,
        Layer::FossilDeposits => "curated major fields (EROI estimated)"@,
        Layer::Nuclear => "curated operating plants"@,
        Layer::Earthquakes => "USGS earthquake feed"@,
        Layer::Fires => "NASA FIRMS active-fire feed"@,
        Layer::Storms => "NASA EONET event feed"@,
        Layer::Volcanoes => "curated active volcanoes"@,
        Layer::Infrastructure => "curated critical-infrastructure set"@,
        Layer::Chokepoints => "curated maritime chokepoints"@,
        Layer::MajorCities => "curated cities (population >= 1M)"@,
        Layer::DeSciEvidence => "Sol Atlas demo scenario"@,
    }
}

/// Snapshot date of each layer's data; empty for undated reference data.
pub open spec fn spec_provenance_date(l: Layer) -> Seq<char> {
    match l {
        Layer::Energy => "2025-11"@,
        Layer::Earthquakes => "2026-04"@,
        Layer::Fires => "2026-04"@,
        Layer::Storms => "2026-04"@,
        _ => ""@,
    }
}

/// How each layer's data relates to reality.
pub open spec fn spec_provenance_kind(l: Layer) -> DataKind {
    match l {
        Layer::Energy => DataKind::Observed,
        Layer::Earthquakes => DataKind::Observed,
        Layer::Fires => DataKind::Observed,
        Layer::Storms => DataKind::Observed,
        Layer::ResontiaVaults => DataKind::Scenario,
        Layer::Maglev => DataKind::Scenario,
        Layer::Geothermal => DataKind::Scenario,
        Layer::TerraLumina => DataKind::Scenario,
        Layer::Robotics => DataKind::Scenario,
        Layer::DeSciEvidence => DataKind::Scenario,
        _ => DataKind::Curated,
    }
}

/// The provenance record of a layer, as plain values.
pub open spec fn spec_provenance(l: Layer) -> (Seq<char>, Seq<char>, DataKind) {
    (spec_provenance_source(l), spec_provenance_date(l), spec_provenance_kind(l))
}

impl Layer {
    /// The layer at a given declaration position.
    pub fn from_index(i: usize) -> (l: Layer)
        requires
            i < LAYER_COUNT,
        ensures
            l == layer_at_index(i as int),
            layer_index(l) == i,
    {
        match i {
            0 => Layer::Energy,
            1 => Layer::ResontiaVaults,
            2 => Layer::Maglev,
            3 => Layer::Geothermal,
            4 => Layer::TerraLumina,
            5 => Layer::Regions,
            6 => Layer::SupplyChain,
            7 => Layer::Climate,
            8 => Layer::Emergency,
            9 => Layer::Health,
            10 => Layer::Robotics,
            11 => Layer::FossilDeposits,
            12 => Layer::Nuclear,
            13 => Layer::Earthquakes,
            14 => Layer::Fires,
            15 => Layer::Storms,
            16 => Layer::Volcanoes,
            17 => Layer::Infrastructure,
            18 => Layer::Chokepoints,
            19 => Layer::MajorCities,
            _ => Layer::DeSciEvidence,
        }
    }

    /// Position of this layer in declaration order.
    pub fn index(&self) -> (i: usize)
        ensures
            i == layer_index(*self),
            i < LAYER_COUNT,
    {
        match self {
            Layer::Energy => 0,
            Layer::ResontiaVaults => 1,
            Layer::Maglev => 2,
            Layer::Geothermal => 3,
            Layer::TerraLumina => 4,
            Layer::Regions => 5,
            Layer::SupplyChain => 6,
            Layer::Climate => 7,
            Layer::Emergency => 8,
            Layer::Health => 9,
            Layer::Robotics => 10,
            Layer::FossilDeposits => 11,
            Layer::Nuclear => 12,
            Layer::Earthquakes => 13,
            Layer::Fires => 14,
            Layer::Storms => 15,
            Layer::Volcanoes => 16,
            Layer::Infrastructure => 17,
            Layer::Chokepoints => 18,
            Layer::MajorCities => 19,
            Layer::DeSciEvidence => 20,
        }
    }

    /// Every layer.
    pub fn all() -> (s: LayerSet)
        ensures
            s@ == Set::<Layer>::full(),
    {
        LayerSet { present: [true; 21] }
    }

    /// Display label of the layer.
    pub fn label(&self) -> (s: &'static str)
        ensures
            s@ == spec_layer_label(*self),
    {
        match self {
            Layer::Energy => "Energy Sites",
            Layer::ResontiaVaults => "Resontia Vaults",
            Layer::Maglev => "Maglev Corridors",
            Layer::Geothermal => "Geothermal Nodes",
            Layer::TerraLumina => "Terra Lumina Sites",
            Layer::Regions => "Earth Regions",
            Layer::SupplyChain => "Supply Chain",
            Layer::Climate => "Climate Projects",
            Layer::Emergency => "Emergency Shelters",
            Layer::Health => "Health Facilities",
            Layer::Robotics => "Robotics Dispatch",
            Layer::FossilDeposits => "Fossil Deposits",
            Layer::Nuclear => "Nuclear Sites",
            Layer::Earthquakes => "Earthquakes",
            Layer::Fires => "Active Fires",
            Layer::Storms => "Storms",
            Layer::Volcanoes => "Volcanoes",
            Layer::Infrastructure => "Critical Infrastructure",
            Layer::Chokepoints => "Maritime Chokepoints",
            Layer::MajorCities => "Major Cities",
            Layer::DeSciEvidence => "DeSci Evidence Mesh",
        }
    }

    /// CSS color of the layer's marker.
    pub fn css_color(&self) -> (s: &'static str)
        ensures
            s@ == spec_layer_css_color(*self),
    {
        match self {
            Layer::Energy => "#06b6d4",
            Layer::ResontiaVaults => "#34d399",
            Layer::Maglev => "#fbbf24",
            Layer::Geothermal => "#ef4444",
            Layer::TerraLumina => "#a78bfa",
            Layer::Regions => "#3b82f6",
            Layer::SupplyChain => "#f59e0b",
            Layer::Climate => "#10b981",
            Layer::Emergency => "#ef4444",
            Layer::Health => "#ec4899",
            Layer::Robotics => "#8b5cf6",
            Layer::FossilDeposits => "#b8860b",
            Layer::Nuclear => "#a855f7",
            Layer::Earthquakes => "#e53e3e",
            Layer::Fires => "#ed8936",
            Layer::Storms => "#4299e1",
            Layer::Volcanoes => "#e53e3e",
            Layer::Infrastructure => "#9f7aea",
            Layer::Chokepoints => "#ed8936",
            Layer::MajorCities => "#94a3b8",
            Layer::DeSciEvidence => "#0066CC",
        }
    }

    /// Where this layer's data comes from and whether it depicts reality.
    pub fn provenance(&self) -> (p: DataProvenance)
        ensures
            p@ == spec_provenance(*self),
    {
        match self {
            Layer::Energy => DataProvenance {
                source: "USACE dam inventory + NRC SMR pipeline",
                snapshot_date: "2025-11",
                kind: DataKind::Observed,
            },
            Layer::ResontiaVaults => DataProvenance {
                source: "Sol Atlas planning scenario",
                snapshot_date: "",
                kind: DataKind::Scenario,
            },
            Layer::Maglev => DataProvenance {
                source: "Sol Atlas planning scenario",
                snapshot_date: "",
                kind: DataKind::Scenario,
            },
            Layer::Geothermal => DataProvenance {
                source: "Sol Atlas planning scenario",
                snapshot_date: "",
                kind: DataKind::Scenario,
            },
            Layer::TerraLumina => DataProvenance {
                source: "Sol Atlas planning scenario",
                snapshot_date: "",
                kind: DataKind::Scenario,
            },
            Layer::Regions => DataProvenance {
                source: "curated regional aggregates (estimates)",
                snapshot_date: "",
                kind: DataKind::Curated,
            },
            Layer::SupplyChain => DataProvenance {
                source: "curated schematic of major trade flows",
                snapshot_date: "",
                kind: DataKind::Curated,
            },
            Layer::Climate => DataProvenance {
                source: "curated major climate projects (estimates)",
                snapshot_date: "",
                kind: DataKind::Curated,
            },
            Layer::Emergency => DataProvenance {
                source: "curated illustrative shelter network",
                snapshot_date: "",
                kind: DataKind::Curated,
            },
            Layer::Health => DataProvenance {
                source: "curated illustrative facility set",
                snapshot_date: "",
                kind: DataKind::Curated,
            },
            Layer::Robotics => DataProvenance {
                source: "Sol Atlas planning scenario",
                snapshot_date: "",
                kind: DataKind::Scenario,
            },
            Layer::FossilDeposits => DataProvenance {
                source: "curated major fields (EROI estimated)",
                snapshot_date: "",
                kind: DataKind::Curated,
            },
            Layer::Nuclear => DataProvenance {
                source: "curated operating plants",
                snapshot_date: "",
                kind: DataKind::Curated,
            },
            Layer::Earthquakes => DataProvenance {
                source: "USGS earthquake feed",
                snapshot_date: "2026-04",
                kind: DataKind::Observed,
            },
            Layer::Fires => DataProvenance {
                source: "NASA FIRMS active-fire feed",
                snapshot_date: "2026-04",
                kind: DataKind::Observed,
            },
            Layer::Storms => DataProvenance {
                source: "NASA EONET event feed",
                snapshot_date: "2026-04",
                kind: DataKind::Observed,
            },
            Layer::Volcanoes => DataProvenance {
                source: "curated active volcanoes",
                snapshot_date: "",
                kind: DataKind::Curated,
            },
            Layer::Infrastructure => DataProvenance {
                source: "curated critical-infrastructure set",
                snapshot_date: "",
                kind: DataKind::Curated,
            },
            Layer::Chokepoints => DataProvenance {
                source: "curated maritime chokepoints",
                snapshot_date: "",
                kind: DataKind::Curated,
            },
            Layer::MajorCities => DataProvenance {
                source: "curated cities (population >= 1M)",
                snapshot_date: "",
                kind: DataKind::Curated,
            },
            Layer::DeSciEvidence => DataProvenance {
                source: "Sol Atlas demo scenario",
                snapshot_date: "",
                kind: DataKind::Scenario,
            },
        }
    }
}

// ─── Data provenance ─────────────────────────────────────────────

/// How a dataset relates to reality.
#[derive(Debug, Clone, Copy, PartialEq, Eq, Hash, Structural)]
pub enum DataKind {
    /// Direct observations from a named source — a dated snapshot, not live.
    Observed,
    /// Real-world entities, hand-curated; some fields are estimates.
    Curated,
    /// Speculative planning fiction — these do not exist.
    Scenario,
}

pub open spec fn spec_data_kind_label(k: DataKind) -> Seq<char> {
    match k {
        DataKind::Observed => "observed"@,
        DataKind::Curated => "curated"@,
        DataKind::Scenario => "scenario"@,
    }
}

impl DataKind {
    pub fn label(&self) -> (s: &'static str)
        ensures
            s@ == spec_data_kind_label(*self),
    {
        match self {
            DataKind::Observed => "observed",
            DataKind::Curated => "curated",
            DataKind::Scenario => "scenario",
        }
    }
}

/// Source attribution for one layer's dataset.
#[derive(Debug, Clone, Copy)]
pub struct DataProvenance {
    pub source: &'static str,
    /// Empty string = undated/slow-changing reference data.
    pub snapshot_date: &'static str,
    pub kind: DataKind,
}

impl View for DataProvenance {
    type V = (Seq<char>, Seq<char>, DataKind);

    open spec fn view(&self) -> (Seq<char>, Seq<char>, DataKind) {
        (self.source@, self.snapshot_date@, self.kind)
    }
}

/// The one-line summary of a provenance record.
pub open spec fn spec_summary(p: (Seq<char>, Seq<char>, DataKind)) -> Seq<char> {
    if p.2 == DataKind::Scenario {
        p.0 + " (fictional)"@
    } else if p.1.len() > 0 {
        p.0 + " — snapshot "@ + p.1
    } else {
        p.0
    }
}

impl DataProvenance {
    /// One-line human-readable summary, e.g.
    /// `"USGS earthquake feed — snapshot 2026-04"` or
    /// `"Sol Atlas planning scenario (fictional)"`.
    pub fn summary(&self) -> (s: String)
        ensures
            s@ == spec_summary(self@),
    {
        match self.kind {
            DataKind::Scenario => String::from_str(self.source).concat(" (fictional)"),
            _ => {
                if !self.snapshot_date.is_empty() {
                    String::from_str(self.source).concat(" — snapshot ").concat(
                        self.snapshot_date,
                    )
                } else {
                    String::from_str(self.source)
                }
            },
        }
    }
}

// ─── Layer sets ──────────────────────────────────────────────────

/// A set of layers (which layers are switched on).
#[derive(Debug, Clone, Copy)]
pub struct LayerSet {
    present: [bool; 21],
}

impl View for LayerSet {
    type V = Set<Layer>;

    closed spec fn view(&self) -> Set<Layer> {
        Set::new(|l: Layer| self.present@[layer_index(l) as int])
    }
}

/// The set after toggling one layer: removed if present, added if absent.
pub open spec fn spec_toggle(s: Set<Layer>, l: Layer) -> Set<Layer> {
    if s.contains(l) {
        s.remove(l)
    } else {
        s.insert(l)
    }
}

impl LayerSet {
    /// The empty set.
    pub fn new() -> (s: LayerSet)
        ensures
            s@ == Set::<Layer>::empty(),
    {
        let s = LayerSet { present: [false; 21] };
        assert(s@ =~= Set::<Layer>::empty());
        s
    }

    pub fn contains(&self, l: Layer) -> (b: bool)
        ensures
            b == self@.contains(l),
    {
        let i = l.index();
        self.present[i]
    }

    pub fn insert(&mut self, l: Layer)
        ensures
            final(self)@ == old(self)@.insert(l),
    {
        let i = l.index();
        self.present[i] = true;
        proof {
            assert forall|m: Layer| final(self)@.contains(m) == old(self)@.insert(l).contains(m) by {
                lemma_layer_index_injective(m, l);
            }
        }
        assert(final(self)@ =~= old(self)@.insert(l));
    }

    pub fn remove(&mut self, l: Layer)
        ensures
            final(self)@ == old(self)@.remove(l),
    {
        let i = l.index();
        self.present[i] = false;
        proof {
            assert forall|m: Layer| final(self)@.contains(m) == old(self)@.remove(l).contains(m) by {
                lemma_layer_index_injective(m, l);
            }
        }
        assert(final(self)@ =~= old(self)@.remove(l));
    }

    /// Switch one layer: off if it was on, on if it was off.
    pub fn toggle(&mut self, l: Layer)
        ensures
            final(self)@ == spec_toggle(old(self)@, l),
    {
        if self.contains(l) {
            self.remove(l);
        } else {
            self.insert(l);
        }
    }

    /// The members, sorted alphabetically by label.
    pub fn layers_by_label(&self) -> (v: Vec<Layer>)
        ensures
            v@ == spec_layers_by_label(self@),
    {
        let mut v: Vec<Layer> = Vec::new();
        let order: [Layer; 21] = [
            Layer::Fires,
            Layer::Climate,
            Layer::Infrastructure,
            Layer::DeSciEvidence,
            Layer::Regions,
            Layer::Earthquakes,
            Layer::Emergency,
            Layer::Energy,
            Layer::FossilDeposits,
            Layer::Geothermal,
            Layer::Health,
            Layer::Maglev,
            Layer::MajorCities,
            Layer::Chokepoints,
            Layer::Nuclear,
            Layer::ResontiaVaults,
            Layer::Robotics,
            Layer::Storms,
            Layer::SupplyChain,
            Layer::TerraLumina,
            Layer::Volcanoes,
        ];
        assert(forall|k: int| 0 <= k < 21 ==> order@[k] == label_order_at(k));
        let mut i: usize = 0;
        while i < LAYER_COUNT
            invariant
                i <= LAYER_COUNT,
                forall|k: int| 0 <= k < 21 ==> order@[k] == label_order_at(k),
                v@ == layers_by_label_prefix(self@, i as nat),
            decreases LAYER_COUNT - i,
        {
            let l = order[i];
            if self.contains(l) {
                v.push(l);
            }
            i = i + 1;
        }
        v
    }

    /// The members, in declaration order of the layers.
    pub fn layers(&self) -> (v: Vec<Layer>)
        ensures
            forall|k: int| 0 <= k < v.len() ==> self@.contains(#[trigger] v@[k]),
            forall|l: Layer| self@.contains(l) ==> v@.contains(l),
            forall|j: int, k: int|
                0 <= j < k < v.len() ==> layer_index(v@[j]) < layer_index(v@[k]),
    {
        let mut v: Vec<Layer> = Vec::new();
        let mut i: usize = 0;
        while i < LAYER_COUNT
            invariant
                i <= LAYER_COUNT,
                forall|k: int| 0 <= k < v.len() ==> self@.contains(#[trigger] v@[k]),
                forall|k: int| 0 <= k < v.len() ==> layer_index(#[trigger] v@[k]) < i,
                forall|l: Layer|
                    self@.contains(l) && layer_index(l) < i ==> v@.contains(l),
                forall|j: int, k: int|
                    0 <= j < k < v.len() ==> layer_index(v@[j]) < layer_index(v@[k]),
            decreases LAYER_COUNT - i,
        {
            let l = Layer::from_index(i);
            if self.present[i] {
                let ghost old_v = v@;
                v.push(l);
                proof {
                    assert forall|m: Layer|
                        self@.contains(m) && layer_index(m) < i + 1 implies v@.contains(m) by {
                        if layer_index(m) == i {
                            lemma_layer_index_injective(m, l);
                            assert(v@[v.len() - 1] == l);
                        } else {
                            assert(old_v.contains(m));
                            let k = choose|k: int| 0 <= k < old_v.len() && old_v[k] == m;
                            assert(v@[k] == m);
                        }
                    }
                }
            } else {
                proof {
                    assert forall|m: Layer|
                        self@.contains(m) && layer_index(m) < i + 1 implies v@.contains(m) by {
                        if layer_index(m) == i {
                            lemma_layer_index_injective(m, l);
                        }
                    }
                }
            }
            i = i + 1;
        }
        v
    }
}

/// Two layers with the same position are the same layer.
pub proof fn lemma_layer_index_injective(a: Layer, b: Layer)
    ensures
        layer_index(a) == layer_index(b) <==> a == b,
{
}

// ─── Alphabetical order of layer labels ─────────────────────────

/// Strict lexicographic order on character sequences (code point by code point).
pub open spec fn lex_less(a: Seq<char>, b: Seq<char>) -> bool
    decreases a.len(),
{
    if b.len() == 0 {
        false
    } else if a.len() == 0 {
        true
    } else if a[0] != b[0] {
        (a[0] as u32) < (b[0] as u32)
    } else {
        lex_less(a.drop_first(), b.drop_first())
    }
}

/// Lexicographic order is transitive.
pub proof fn lemma_lex_less_transitive(a: Seq<char>, b: Seq<char>, c: Seq<char>)
    requires
        lex_less(a, b),
        lex_less(b, c),
    ensures
        lex_less(a, c),
    decreases a.len(),
{
    if a.len() > 0 && b.len() > 0 && c.len() > 0 && a[0] == b[0] && b[0] == c[0] {
        lemma_lex_less_transitive(a.drop_first(), b.drop_first(), c.drop_first());
    }
}

/// The layer whose label is the `k`-th in alphabetical order.
pub open spec fn label_order_at(k: int) -> Layer {
    if k == 0 { Layer::Fires }
    else if k == 1 { Layer::Climate }
    else if k == 2 { Layer::Infrastructure }
    else if k == 3 { Layer::DeSciEvidence }
    else if k == 4 { Layer::Regions }
    else if k == 5 { Layer::Earthquakes }
    else if k == 6 { Layer::Emergency }
    else if k == 7 { Layer::Energy }
    else if k == 8 { Layer::FossilDeposits }
    else if k == 9 { Layer::Geothermal }
    else if k == 10 { Layer::Health }
    else if k == 11 { Layer::Maglev }
    else if k == 12 { Layer::MajorCities }
    else if k == 13 { Layer::Chokepoints }
    else if k == 14 { Layer::Nuclear }
    else if k == 15 { Layer::ResontiaVaults }
    else if k == 16 { Layer::Robotics }
    else if k == 17 { Layer::Storms }
    else if k == 18 { Layer::SupplyChain }
    else if k == 19 { Layer::TerraLumina }
    else { Layer::Volcanoes }
}

/// Alphabetical position of a layer's label.
pub open spec fn label_rank(l: Layer) -> nat {
    match l {
        Layer::Fires => 0,
        Layer::Climate => 1,
        Layer::Infrastructure => 2,
        Layer::DeSciEvidence => 3,
        Layer::Regions => 4,
        Layer::Earthquakes => 5,
        Layer::Emergency => 6,
        Layer::Energy => 7,
        Layer::FossilDeposits => 8,
        Layer::Geothermal => 9,
        Layer::Health => 10,
        Layer::Maglev => 11,
        Layer::MajorCities => 12,
        Layer::Chokepoints => 13,
        Layer::Nuclear => 14,
        Layer::ResontiaVaults => 15,
        Layer::Robotics => 16,
        Layer::Storms => 17,
        Layer::SupplyChain => 18,
        Layer::TerraLumina => 19,
        Layer::Volcanoes => 20,
    }
}

/// `label_rank` and `label_order_at` are inverse to each other.
pub proof fn lemma_label_rank_bijection(l: Layer, k: int)
    ensures
        label_rank(l) < LAYER_COUNT,
        label_order_at(label_rank(l) as int) == l,
        0 <= k < LAYER_COUNT ==> label_rank(label_order_at(k)) == k,
{
}

/// Each label is alphabetically before the next one in label order.
proof fn lemma_label_order_step(k: int)
    requires
        0 <= k < LAYER_COUNT - 1,
    ensures
        lex_less(spec_layer_label(label_order_at(k)), spec_layer_label(label_order_at(k + 1))),
{
    reveal_with_fuel(lex_less, 7);
    reveal_strlit("Energy Sites");
    reveal_strlit("Resontia Vaults");
    reveal_strlit("Maglev Corridors");
    reveal_strlit("Geothermal Nodes");
    reveal_strlit("Terra Lumina Sites");
    reveal_strlit("Earth Regions");
    reveal_strlit("Supply Chain");
    reveal_strlit("Climate Projects");
    reveal_strlit("Emergency Shelters");
    reveal_strlit("Health Facilities");
    reveal_strlit("Robotics Dispatch");
    reveal_strlit("Fossil Deposits");
    reveal_strlit("Nuclear Sites");
    reveal_strlit("Earthquakes");
    reveal_strlit("Active Fires");
    reveal_strlit("Storms");
    reveal_strlit("Volcanoes");
    reveal_strlit("Critical Infrastructure");
    reveal_strlit("Maritime Chokepoints");
    reveal_strlit("Major Cities");
    reveal_strlit("DeSci Evidence Mesh");
}

/// Label order is alphabetical order of the labels.
pub proof fn lemma_label_rank_is_alphabetical(a: Layer, b: Layer)
    requires
        label_rank(a) < label_rank(b),
    ensures
        lex_less(spec_layer_label(a), spec_layer_label(b)),
    decreases label_rank(b) - label_rank(a),
{
    let ka = label_rank(a) as int;
    lemma_label_rank_bijection(a, ka + 1);
    lemma_label_order_step(ka);
    let next = label_order_at(ka + 1);
    if next != b {
        lemma_label_rank_bijection(b, 0);
        lemma_label_rank_is_alphabetical(next, b);
        lemma_lex_less_transitive(spec_layer_label(a), spec_layer_label(next), spec_layer_label(b));
    }
}

/// Members of `s` among the first `n` layers in label order, in that order.
pub open spec fn layers_by_label_prefix(s: Set<Layer>, n: nat) -> Seq<Layer>
    decreases n,
{
    if n == 0 {
        Seq::empty()
    } else {
        let p = layers_by_label_prefix(s, (n - 1) as nat);
        if s.contains(label_order_at(n - 1)) {
            p.push(label_order_at(n - 1))
        } else {
            p
        }
    }
}

/// The members of a layer set sorted alphabetically by label.
pub open spec fn spec_layers_by_label(s: Set<Layer>) -> Seq<Layer> {
    layers_by_label_prefix(s, LAYER_COUNT as nat)
}

/// A label-sorted prefix holds exactly the members among its first `n`
/// label positions, in strictly increasing label order.
pub proof fn lemma_layers_by_label_prefix(s: Set<Layer>, n: nat)
    requires
        n <= LAYER_COUNT,
    ensures
        forall|k: int|
            0 <= k < layers_by_label_prefix(s, n).len() ==> s.contains(
                #[trigger] layers_by_label_prefix(s, n)[k],
            ) && label_rank(layers_by_label_prefix(s, n)[k]) < n,
        forall|l: Layer|
            s.contains(l) && label_rank(l) < n ==> layers_by_label_prefix(s, n).contains(l),
        forall|j: int, k: int|
            0 <= j < k < layers_by_label_prefix(s, n).len() ==> label_rank(
                layers_by_label_prefix(s, n)[j],
            ) < label_rank(layers_by_label_prefix(s, n)[k]),
        layers_by_label_prefix(s, n).len() <= n,
    decreases n,
{
    if n > 0 {
        let m = (n - 1) as nat;
        lemma_layers_by_label_prefix(s, m);
        let p = layers_by_label_prefix(s, m);
        let x = label_order_at(m as int);
        lemma_label_rank_bijection(x, m as int);
        assert forall|l: Layer|
            s.contains(l) && label_rank(l) < n implies layers_by_label_prefix(s, n).contains(l) by {
            lemma_label_rank_bijection(l, 0);
            if label_rank(l) < m {
                let k = choose|k: int| 0 <= k < p.len() && p[k] == l;
                if s.contains(x) {
                    assert(layers_by_label_prefix(s, n)[k] == l);
                }
            } else {
                assert(l == x);
                assert(layers_by_label_prefix(s, n)[p.len() as int] == l);
            }
        }
    }
}

/// Label-sorted membership lists: exactly the members, alphabetically, without repeats.
pub proof fn lemma_layers_by_label(s: Set<Layer>)
    ensures
        forall|l: Layer| s.contains(l) <==> spec_layers_by_label(s).contains(l),
        forall|j: int, k: int|
            0 <= j < k < spec_layers_by_label(s).len() ==> lex_less(
                spec_layer_label(spec_layers_by_label(s)[j]),
                spec_layer_label(spec_layers_by_label(s)[k]),
            ),
        spec_layers_by_label(s).len() <= LAYER_COUNT,
{
    lemma_layers_by_label_prefix(s, LAYER_COUNT as nat);
    let v = spec_layers_by_label(s);
    assert forall|l: Layer| s.contains(l) <==> v.contains(l) by {
        lemma_label_rank_bijection(l, 0);
        if v.contains(l) {
            let k = choose|k: int| 0 <= k < v.len() && v[k] == l;
        }
    }
    assert forall|j: int, k: int| 0 <= j < k < v.len() implies lex_less(
        spec_layer_label(v[j]),
        spec_layer_label(v[k]),
    ) by {
        lemma_label_rank_is_alphabetical(v[j], v[k]);
    }
}

/// Adding one layer to a set lengthens its label-sorted list by at most one.
pub proof fn lemma_layers_by_label_prefix_insert(s: Set<Layer>, l: Layer, n: nat)
    requires
        n <= LAYER_COUNT,
    ensures
        layers_by_label_prefix(s.insert(l), n).len() == layers_by_label_prefix(s, n).len() + (
        if !s.contains(l) && label_rank(l) < n {
            1nat
        } else {
            0nat
        }),
    decreases n,
{
    if n > 0 {
        let m = (n - 1) as nat;
        lemma_layers_by_label_prefix_insert(s, l, m);
        let x = label_order_at(m as int);
        lemma_label_rank_bijection(x, m as int);
        lemma_label_rank_bijection(l, 0);
        if x == l {
            assert(label_rank(l) == m);
        } else {
            assert(s.insert(l).contains(x) == s.contains(x));
            assert(label_rank(l) != m);
        }
    }
}

// ─── Laws of provenance ─────────────────────────────────────────

/// `needle` occurs somewhere inside `hay`.
pub open spec fn contains_text(hay: Seq<char>, needle: Seq<char>) -> bool {
    exists|i: int|
        0 <= i && i + needle.len() <= hay.len() && #[trigger] hay.subrange(i, i + needle.len())
            == needle
}

/// Every layer names a non-empty source, so its summary is never empty.
pub proof fn lemma_every_layer_has_provenance(l: Layer)
    ensures
        spec_provenance_source(l).len() > 0,
        spec_summary(spec_provenance(l)).len() > 0,
{
    reveal_strlit("USACE dam inventory + NRC SMR pipeline");
    reveal_strlit("Sol Atlas planning scenario");
    reveal_strlit("curated regional aggregates (estimates)");
    reveal_strlit("curated schematic of major trade flows");
    reveal_strlit("curated major climate projects (estimates)");
    reveal_strlit("curated illustrative shelter network");
    reveal_strlit("curated illustrative facility set");
    reveal_strlit("curated major fields (EROI estimated)");
    reveal_strlit("curated operating plants");
    reveal_strlit("USGS earthquake feed");
    reveal_strlit("NASA FIRMS active-fire feed");
    reveal_strlit("NASA EONET event feed");
    reveal_strlit("curated active volcanoes");
    reveal_strlit("curated critical-infrastructure set");
    reveal_strlit("curated maritime chokepoints");
    reveal_strlit("curated cities (population >= 1M)");
    reveal_strlit("Sol Atlas demo scenario");
}

/// Exactly the speculative layers (vaults, maglev, geothermal nodes, Terra
/// Lumina, robotics dispatch, the DeSci demo) are marked as scenario data.
pub proof fn lemma_scenario_layers_are_the_fictional_ones(l: Layer)
    ensures
        spec_provenance_kind(l) == DataKind::Scenario <==> (l == Layer::ResontiaVaults || l
            == Layer::Maglev || l == Layer::Geothermal || l == Layer::TerraLumina || l
            == Layer::Robotics || l == Layer::DeSciEvidence),
{
}

/// Observed data is always a dated snapshot.
pub proof fn lemma_observed_layers_are_dated(l: Layer)
    ensures
        spec_provenance_kind(l) == DataKind::Observed ==> spec_provenance_date(l).len() > 0,
{
    reveal_strlit("2025-11");
    reveal_strlit("2026-04");
}

/// A scenario summary says it is fictional; a dated summary names its snapshot.
pub proof fn lemma_summary_marks_kind(p: (Seq<char>, Seq<char>, DataKind))
    ensures
        p.2 == DataKind::Scenario ==> contains_text(spec_summary(p), "fictional"@),
        p.2 != DataKind::Scenario && p.1.len() > 0 ==> contains_text(spec_summary(p), "snapshot"@),
{
    reveal_strlit(" (fictional)");
    reveal_strlit("fictional");
    reveal_strlit(" — snapshot ");
    reveal_strlit("snapshot");
    let s = spec_summary(p);
    if p.2 == DataKind::Scenario {
        let i: int = p.0.len() as int + 2;
        assert(s.subrange(i, i + 9) =~= "fictional"@);
    } else if p.1.len() > 0 {
        let i: int = p.0.len() as int + 3;
        assert(s.subrange(i, i + 8) =~= "snapshot"@);
    }
}

// ─── Laws of layer sets ─────────────────────────────────────────

/// Toggling the same layer twice restores the set.
pub proof fn lemma_toggle_twice_restores(s: Set<Layer>, l: Layer)
    ensures
        spec_toggle(spec_toggle(s, l), l) == s,
{
    assert(spec_toggle(spec_toggle(s, l), l) =~= s);
}

/// Toggling a layer flips that layer's membership and leaves every other layer alone.
pub proof fn lemma_toggle_touches_only_its_layer(s: Set<Layer>, l: Layer, m: Layer)
    ensures
        spec_toggle(s, l).contains(l) == !s.contains(l),
        m != l ==> spec_toggle(s, l).contains(m) == s.contains(m),
{
}

// ─── Energy ──────────────────────────────────────────────────────

#[derive(Debug, Clone, Copy, PartialEq, Eq, Hash, Structural)]
pub enum EnergyType {
    Solar,
    Wind,
    Hydro,
    Nuclear,
    Geothermal,
    Battery,
    Hybrid,
}

pub open spec fn spec_energy_hex_color(e: EnergyType) -> Seq<char> {
    match e {
        EnergyType::Solar => "#fbbf24"@,
        EnergyType::Wind => "#06b6d4"@,
        EnergyType::Hydro => "#3b82f6"@,
        EnergyType::Nuclear => "#a855f7"@,
        EnergyType::Geothermal => "#ef4444"@,
        EnergyType::Battery => "#a855f7"@,
        EnergyType::Hybrid => "#ec4899"@,
    }
}

pub open spec fn spec_energy_label(e: EnergyType) -> Seq<char> {
    match e {
        EnergyType::Solar => "Solar"@,
        EnergyType::Wind => "Wind"@,
        EnergyType::Hydro => "Hydro"@,
        EnergyType::Nuclear => "Nuclear"@,
        EnergyType::Geothermal => "Geothermal"@,
        EnergyType::Battery => "Battery"@,
        EnergyType::Hybrid => "Hybrid"@,
    }
}

impl EnergyType {
    pub fn hex_color(&self) -> (s: &'static str)
        ensures
            s@ == spec_energy_hex_color(*self),
    {
        match self {
            EnergyType::Solar => "#fbbf24",
            EnergyType::Wind => "#06b6d4",
            EnergyType::Hydro => "#3b82f6",
            EnergyType::Nuclear => "#a855f7",
            EnergyType::Geothermal => "#ef4444",
            EnergyType::Battery => "#a855f7",
            EnergyType::Hybrid => "#ec4899",
        }
    }

    pub fn label(&self) -> (s: &'static str)
        ensures
            s@ == spec_energy_label(*self),
    {
        match self {
            EnergyType::Solar => "Solar",
            EnergyType::Wind => "Wind",
            EnergyType::Hydro => "Hydro",
            EnergyType::Nuclear => "Nuclear",
            EnergyType::Geothermal => "Geothermal",
            EnergyType::Battery => "Battery",
            EnergyType::Hybrid => "Hybrid",
        }
    }
}

// ─── Fuel types (fossil deposits) ────────────────────────────────

#[derive(Debug, Clone, Copy, PartialEq, Eq, Hash, Structural)]
pub enum FuelType {
    Oil,
    Gas,
    Coal,
    TarSands,
}

pub open spec fn spec_fuel_hex_color(f: FuelType) -> Seq<char> {
    match f {
        FuelType::Oil => "#b8860b"@,
        FuelType::Gas => "#808080"@,
        FuelType::Coal => "#4a4a4a"@,
        FuelType::TarSands => "#6b4226"@,
    }
}

pub open spec fn spec_fuel_label(f: FuelType) -> Seq<char> {
    match f {
        FuelType::Oil => "Oil"@,
        FuelType::Gas => "Natural Gas"@,
        FuelType::Coal => "Coal"@,
        FuelType::TarSands => "Tar Sands"@,
    }
}

impl FuelType {
    pub fn hex_color(&self) -> (s: &'static str)
        ensures
            s@ == spec_fuel_hex_color(*self),
    {
        match self {
            FuelType::Oil => "#b8860b",
            FuelType::Gas => "#808080",
            FuelType::Coal => "#4a4a4a",
            FuelType::TarSands => "#6b4226",
        }
    }

    pub fn label(&self) -> (s: &'static str)
        ensures
            s@ == spec_fuel_label(*self),
    {
        match self {
            FuelType::Oil => "Oil",
            FuelType::Gas => "Natural Gas",
            FuelType::Coal => "Coal",
            FuelType::TarSands => "Tar Sands",
        }
    }
}

// ─── Reactor types (nuclear sites) ───────────────────────────────

#[derive(Debug, Clone, Copy, PartialEq, Eq, Hash, Structural)]
pub enum ReactorType {
    /// Pressurized Water Reactor
    PWR,
    /// Boiling Water Reactor
    BWR,
    /// Pressurized Heavy Water (CANDU)
    PHWR,
    /// High Temperature Gas-cooled
    HTGR,
    /// Small Modular Reactor
    SMR,
    /// Fast Breeder Reactor
    FBR,
    Other,
}

pub open spec fn spec_reactor_label(r: ReactorType) -> Seq<char> {
    match r {
        ReactorType::PWR => "Pressurized Water"@,
        ReactorType::BWR => "Boiling Water"@,
        ReactorType::PHWR => "Heavy Water (CANDU)"@,
        ReactorType::HTGR => "High Temp Gas"@,
        ReactorType::SMR => "Small Modular"@,
        ReactorType::FBR => "Fast Breeder"@,
        ReactorType::Other => "Other"@,
    }
}

impl ReactorType {
    pub fn label(&self) -> (s: &'static str)
        ensures
            s@ == spec_reactor_label(*self),
    {
        match self {
            ReactorType::PWR => "Pressurized Water",
            ReactorType::BWR => "Boiling Water",
            ReactorType::PHWR => "Heavy Water (CANDU)",
            ReactorType::HTGR => "High Temp Gas",
            ReactorType::SMR => "Small Modular",
            ReactorType::FBR => "Fast Breeder",
            ReactorType::Other => "Other",
        }
    }

    pub fn is_smr(&self) -> (b: bool)
        ensures
            b <==> *self == ReactorType::SMR,
    {
        match self {
            ReactorType::SMR => true,
            _ => false,
        }
    }
}

// ─── Marker types (for SDF selection on GPU) ────────────────────

/// Marker glyph shape; its code selects the signed-distance function on the GPU.
#[derive(Debug, Clone, Copy, PartialEq, Eq, Hash, Structural)]
pub enum MarkerShape {
    Energy,
    Geothermal,
    Vault,
    TerraLumina,
    Region,
    Climate,
    Emergency,
    Health,
    Robotics,
    FossilDeposit,
    Nuclear,
}

pub open spec fn spec_marker_code(m: MarkerShape) -> u8 {
    match m {
        MarkerShape::Energy => 0,
        MarkerShape::Geothermal => 1,
        MarkerShape::Vault => 2,
        MarkerShape::TerraLumina => 3,
        MarkerShape::Region => 4,
        MarkerShape::Climate => 5,
        MarkerShape::Emergency => 6,
        MarkerShape::Health => 7,
        MarkerShape::Robotics => 8,
        MarkerShape::FossilDeposit => 9,
        MarkerShape::Nuclear => 10,
    }
}

impl MarkerShape {
    /// Numeric code of the shape as the shaders read it.
    pub fn code(self) -> (c: u8)
        ensures
            c == spec_marker_code(self),
    {
        match self {
            MarkerShape::Energy => 0,
            MarkerShape::Geothermal => 1,
            MarkerShape::Vault => 2,
            MarkerShape::TerraLumina => 3,
            MarkerShape::Region => 4,
            MarkerShape::Climate => 5,
            MarkerShape::Emergency => 6,
            MarkerShape::Health => 7,
            MarkerShape::Robotics => 8,
            MarkerShape::FossilDeposit => 9,
            MarkerShape::Nuclear => 10,
        }
    }
}

// ─── Natural events ─────────────────────────────────────────────

/// Natural event kind from USGS, NASA EONET, FIRMS, or volcano data.
#[derive(Debug, Clone, Copy, PartialEq, Eq, Hash, Structural)]
pub enum NaturalEventType {
    Earthquake,
    Fire,
    Storm,
    Volcano,
}

pub open spec fn spec_event_layer(e: NaturalEventType) -> Layer {
    match e {
        NaturalEventType::Earthquake => Layer::Earthquakes,
        NaturalEventType::Fire => Layer::Fires,
        NaturalEventType::Storm => Layer::Storms,
        NaturalEventType::Volcano => Layer::Volcanoes,
    }
}

/// Different kinds of natural event are shown on different layers, and
/// each on one of the four natural-event layers.
pub proof fn lemma_event_layers_distinct(a: NaturalEventType, b: NaturalEventType)
    ensures
        spec_event_layer(a) == spec_event_layer(b) ==> a == b,
        spec_event_layer(a) == Layer::Earthquakes || spec_event_layer(a) == Layer::Fires
            || spec_event_layer(a) == Layer::Storms || spec_event_layer(a) == Layer::Volcanoes,
{
}

impl NaturalEventType {
    /// The data layer a natural event of this kind is shown on.
    pub fn layer(self) -> (l: Layer)
        ensures
            l == spec_event_layer(self),
    {
        match self {
            NaturalEventType::Earthquake => Layer::Earthquakes,
            NaturalEventType::Fire => Layer::Fires,
            NaturalEventType::Storm => Layer::Storms,
            NaturalEventType::Volcano => Layer::Volcanoes,
        }
    }
}

} // verus!
