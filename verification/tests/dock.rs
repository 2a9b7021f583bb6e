use sol_atlas::dock::{layer_whisper, press_dock_dot, real_layers, scenario_layers};
use sol_atlas::types::{DataKind, Layer, LayerSet};

#[test]
fn dock_groups_split_real_from_scenario() {
    let real = real_layers();
    let scenario = scenario_layers();
    assert_eq!(real.len(), 15);
    assert_eq!(scenario.len(), 5);
    for l in real {
        assert_ne!(l.provenance().kind, DataKind::Scenario);
    }
    for l in scenario {
        assert_eq!(l.provenance().kind, DataKind::Scenario);
    }
    for l in Layer::all().layers() {
        if l.provenance().kind != DataKind::Scenario {
            assert!(real.contains(&l), "{l:?} missing from the dock");
        }
    }
}

#[test]
fn whisper_names_label_and_provenance() {
    assert_eq!(
        layer_whisper(Layer::Earthquakes),
        "Earthquakes — USGS earthquake feed — snapshot 2026-04"
    );
    assert_eq!(
        layer_whisper(Layer::Maglev),
        format!("{} — Sol Atlas planning scenario (fictional)", Layer::Maglev.label())
    );
}

#[test]
fn pressing_a_dot_toggles_and_whispers_only_on_wake() {
    let mut active = LayerSet::new();
    active.insert(Layer::Energy);
    let w = press_dock_dot(&mut active, Layer::Nuclear);
    assert!(active.contains(Layer::Nuclear));
    assert_eq!(w, Some(layer_whisper(Layer::Nuclear)));
    let w = press_dock_dot(&mut active, Layer::Nuclear);
    assert!(!active.contains(Layer::Nuclear));
    assert!(active.contains(Layer::Energy));
    assert_eq!(w, None);
}
