use sol_atlas::types::{
    DataKind, DataProvenance, EnergyType, FuelType, Layer, LayerSet, MarkerShape,
    NaturalEventType, ReactorType,
};

#[test]
fn every_layer_has_provenance() {
    for layer in Layer::all().layers() {
        let p = layer.provenance();
        assert!(!p.source.is_empty(), "{layer:?} has empty source");
        assert!(!p.summary().is_empty());
    }
}

#[test]
fn fictional_layers_are_marked_scenario() {
    for layer in [
        Layer::ResontiaVaults,
        Layer::Maglev,
        Layer::Geothermal,
        Layer::TerraLumina,
        Layer::Robotics,
        Layer::DeSciEvidence,
    ] {
        assert_eq!(
            layer.provenance().kind,
            DataKind::Scenario,
            "{layer:?} depicts things that don't exist — must stay Scenario"
        );
    }
}

#[test]
fn observed_layers_carry_snapshot_dates() {
    for layer in Layer::all().layers() {
        let p = layer.provenance();
        if p.kind == DataKind::Observed {
            assert!(
                !p.snapshot_date.is_empty(),
                "{layer:?} is Observed but undated — snapshots must be dated"
            );
        }
    }
}

#[test]
fn scenario_summary_says_fictional() {
    assert!(Layer::ResontiaVaults
        .provenance()
        .summary()
        .contains("fictional"));
    assert!(Layer::Earthquakes
        .provenance()
        .summary()
        .contains("snapshot"));
}

#[test]
fn all_has_every_layer_once() {
    let all = Layer::all().layers();
    assert_eq!(all.len(), 21);
    for i in 0..21 {
        assert_eq!(all[i].index(), i);
        assert_eq!(Layer::from_index(i), all[i]);
    }
}

#[test]
fn only_the_fictional_layers_are_scenario() {
    let scenario: Vec<Layer> = Layer::all()
        .layers()
        .into_iter()
        .filter(|l| l.provenance().kind == DataKind::Scenario)
        .collect();
    assert_eq!(
        scenario,
        vec![
            Layer::ResontiaVaults,
            Layer::Maglev,
            Layer::Geothermal,
            Layer::TerraLumina,
            Layer::Robotics,
            Layer::DeSciEvidence,
        ]
    );
}

#[test]
fn summary_formats_by_kind() {
    assert_eq!(
        Layer::Earthquakes.provenance().summary(),
        "USGS earthquake feed — snapshot 2026-04"
    );
    assert_eq!(
        Layer::ResontiaVaults.provenance().summary(),
        "Sol Atlas planning scenario (fictional)"
    );
    assert_eq!(
        Layer::Nuclear.provenance().summary(),
        "curated operating plants"
    );
    let undated_observation = DataProvenance {
        source: "sensor",
        snapshot_date: "",
        kind: DataKind::Observed,
    };
    assert_eq!(undated_observation.summary(), "sensor");
    let dated_scenario = DataProvenance {
        source: "plan",
        snapshot_date: "2030-01",
        kind: DataKind::Scenario,
    };
    assert_eq!(dated_scenario.summary(), "plan (fictional)");
}

#[test]
fn labels_and_colors() {
    assert_eq!(Layer::Fires.label(), "Active Fires");
    assert_eq!(Layer::DeSciEvidence.css_color(), "#0066CC");
    assert_eq!(DataKind::Curated.label(), "curated");
    assert_eq!(EnergyType::Battery.hex_color(), "#a855f7");
    assert_eq!(EnergyType::Hydro.label(), "Hydro");
    assert_eq!(FuelType::Gas.label(), "Natural Gas");
    assert_eq!(FuelType::TarSands.hex_color(), "#6b4226");
    assert_eq!(ReactorType::PHWR.label(), "Heavy Water (CANDU)");
    assert!(ReactorType::SMR.is_smr());
    assert!(!ReactorType::PWR.is_smr());
}

#[test]
fn marker_codes_follow_declaration_order() {
    assert_eq!(MarkerShape::Energy.code(), 0);
    assert_eq!(MarkerShape::FossilDeposit.code(), 9);
    assert_eq!(MarkerShape::Nuclear.code(), 10);
}

#[test]
fn natural_events_map_to_their_layers() {
    assert_eq!(NaturalEventType::Earthquake.layer(), Layer::Earthquakes);
    assert_eq!(NaturalEventType::Fire.layer(), Layer::Fires);
    assert_eq!(NaturalEventType::Storm.layer(), Layer::Storms);
    assert_eq!(NaturalEventType::Volcano.layer(), Layer::Volcanoes);
}

#[test]
fn toggling_twice_restores_the_set() {
    let mut s = LayerSet::new();
    s.insert(Layer::Energy);
    assert!(s.contains(Layer::Energy));
    s.toggle(Layer::Fires);
    assert!(s.contains(Layer::Fires));
    assert!(s.contains(Layer::Energy));
    s.toggle(Layer::Fires);
    assert!(!s.contains(Layer::Fires));
    assert_eq!(s.layers(), vec![Layer::Energy]);
    s.toggle(Layer::Energy);
    assert!(s.layers().is_empty());
}

#[test]
fn layers_by_label_is_alphabetical() {
    let sorted = Layer::all().layers_by_label();
    assert_eq!(sorted.len(), 21);
    for w in sorted.windows(2) {
        assert!(w[0].label() < w[1].label(), "{} !< {}", w[0].label(), w[1].label());
    }
    let mut s = LayerSet::new();
    s.insert(Layer::Nuclear);
    s.insert(Layer::Earthquakes);
    s.insert(Layer::Chokepoints);
    assert_eq!(
        s.layers_by_label(),
        vec![Layer::Earthquakes, Layer::Chokepoints, Layer::Nuclear]
    );
}
