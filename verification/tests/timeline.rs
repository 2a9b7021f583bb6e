use sol_atlas::timeline::{
    corridor_visible, epoch_detail, epoch_for_year, epoch_name, timeline_whisper, vault_visible,
    Epoch,
};

#[test]
fn test_epoch_boundaries() {
    assert_eq!(epoch_for_year(0), Epoch::Foundation);
    assert_eq!(epoch_for_year(25), Epoch::Foundation);
    assert_eq!(epoch_for_year(26), Epoch::Growth);
    assert_eq!(epoch_for_year(150), Epoch::Maturation);
    assert_eq!(epoch_for_year(301), Epoch::DeepTime);
}

#[test]
fn test_vault_visibility_tiers() {
    assert!(!vault_visible(0, 0));
    assert!(vault_visible(0, 50));
    assert!(!vault_visible(2, 50));
    assert!(vault_visible(11, 150));
}

#[test]
fn test_corridor_visibility_tiers() {
    assert!(!corridor_visible(0, 0));
    assert!(corridor_visible(0, 25));
    assert!(!corridor_visible(3, 25));
    assert!(corridor_visible(12, 150));
}

#[test]
fn epoch_labels() {
    assert_eq!(Epoch::DeepTime.label(), "Deep Time");
    assert_eq!(Epoch::Expansion.label(), "Expansion");
    assert_eq!(epoch_for_year(75).label(), "Maturation");
    assert_eq!(epoch_for_year(100), Epoch::Maturation);
    assert_eq!(epoch_for_year(51), Epoch::Maturation);
    assert_eq!(epoch_for_year(50), Epoch::Growth);
    assert_eq!(epoch_for_year(151), Epoch::Hardening);
    assert_eq!(epoch_for_year(300).label(), "Hardening");
}

#[test]
fn slider_names_match_epoch_labels() {
    assert_eq!(epoch_name(0), "Foundation");
    assert_eq!(epoch_name(75), "Maturation");
    assert_eq!(epoch_name(150), "Maturation");
    assert_eq!(epoch_name(151), "Hardening");
    assert_eq!(epoch_name(301), "Deep Time");
    for year in 0..400u32 {
        assert_eq!(epoch_for_year(year).label(), epoch_name(year));
    }
    assert_eq!(
        epoch_detail(200),
        "Full maglev grid operational. All 12 vaults active."
    );
    assert_eq!(
        epoch_detail(40),
        "Maglev corridors under construction. Initial vault excavation."
    );
}

#[test]
fn infrastructure_only_accumulates() {
    for index in 0..20usize {
        let mut was_vault = false;
        let mut was_corridor = false;
        for year in 0..400u32 {
            let v = vault_visible(index, year);
            let c = corridor_visible(index, year);
            assert!(!was_vault || v, "vault {index} vanished at {year}");
            assert!(!was_corridor || c, "corridor {index} vanished at {year}");
            if v && index > 0 {
                assert!(vault_visible(index - 1, year));
            }
            was_vault = v;
            was_corridor = c;
        }
    }
    assert!(vault_visible(1_000_000, 150));
    assert!(corridor_visible(1_000_000, 150));
    assert!(corridor_visible(14, 150));
    assert!(!corridor_visible(10, 149));
    assert!(corridor_visible(9, 149));
    assert!(!vault_visible(usize::MAX, 500));
}

#[test]
fn scrubbing_inside_a_period_is_silent() {
    assert_eq!(timeline_whisper(60, 140), None);
    assert_eq!(timeline_whisper(0, 25), None);
    assert_eq!(timeline_whisper(400, 301), None);
}

#[test]
fn crossing_into_a_period_narrates_it() {
    assert_eq!(
        timeline_whisper(25, 26).as_deref(),
        Some("Growth — Maglev corridors under construction. Initial vault excavation.")
    );
    assert_eq!(
        timeline_whisper(200, 10).as_deref(),
        Some("Foundation — First geothermal taps online. Survey teams mapping vault sites.")
    );
    assert_eq!(
        timeline_whisper(0, 301).as_deref(),
        Some("Deep Time — Multi-century resilience. Self-sustaining civilization infrastructure.")
    );
}
