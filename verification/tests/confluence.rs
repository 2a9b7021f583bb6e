use h3o::{CellIndex, LatLng, Resolution};
use sol_atlas::confluence::{
    compute, decimal, eligible_real_layers, ConfluenceCell, ConfluenceInput,
    CONFLUENCE_RESOLUTION,
};
use sol_atlas::types::{DataKind, Layer, NaturalEventType};

/// The H3 cell of a coordinate at the confluence resolution, as the app computes it.
fn cell(lat: f64, lon: f64) -> Option<u64> {
    let res = Resolution::try_from(CONFLUENCE_RESOLUTION).unwrap();
    LatLng::new(lat, lon).ok().map(|ll| u64::from(ll.to_cell(res)))
}

fn empty() -> ConfluenceInput {
    ConfluenceInput {
        sites: vec![],
        nuclear_sites: vec![],
        fossil_deposits: vec![],
        natural_events: vec![],
        major_cities: vec![],
        chokepoints: vec![],
        critical_infrastructure: vec![],
        climate_projects: vec![],
        emergency_shelters: vec![],
        health_facilities: vec![],
    }
}

fn quake(lat: f64, lon: f64) -> (Option<u64>, NaturalEventType) {
    (cell(lat, lon), NaturalEventType::Earthquake)
}

#[test]
fn eligible_layers_are_never_scenario() {
    for layer in eligible_real_layers() {
        assert_ne!(
            layer.provenance().kind,
            DataKind::Scenario,
            "{layer:?} is Scenario — must never be confluence-eligible"
        );
    }
    // The three added directly in `compute` (not in the fixed array) get
    // the same check here.
    for layer in [Layer::Climate, Layer::Emergency, Layer::Health] {
        assert_ne!(layer.provenance().kind, DataKind::Scenario);
    }
}

#[test]
fn no_confluence_below_min_layers() {
    // Two energy sites in the same cell: still only ONE distinct layer.
    let data = ConfluenceInput {
        sites: vec![cell(10.0, 10.0), cell(10.001, 10.001)],
        ..empty()
    };
    let result = compute(&data, 2);
    assert!(result.is_empty());
}

#[test]
fn three_distinct_real_layers_co_locate() {
    let data = ConfluenceInput {
        nuclear_sites: vec![cell(35.0, 139.0)],
        natural_events: vec![quake(35.0001, 139.0001)],
        chokepoints: vec![cell(35.0002, 139.0002)],
        ..empty()
    };
    let result = compute(&data, 2);
    assert_eq!(result.len(), 1);
    let cell = &result[0];
    assert_eq!(cell.layers.len(), 3);
    assert!(cell.layers.contains(&Layer::Nuclear));
    assert!(cell.layers.contains(&Layer::Earthquakes));
    assert!(cell.layers.contains(&Layer::Chokepoints));
    assert_eq!(cell.entity_count, 3);
    assert!(cell.summary().contains("3 real systems"));
}

#[test]
fn scenario_data_never_appears_even_at_identical_coordinates() {
    let data = ConfluenceInput {
        nuclear_sites: vec![cell(9.145, 40.49)],
        chokepoints: vec![cell(9.1451, 40.4901)],
        ..empty()
    };
    let result = compute(&data, 2);
    assert_eq!(result.len(), 1);
    for layer in &result[0].layers {
        assert_ne!(layer.provenance().kind, DataKind::Scenario);
    }
}

#[test]
fn far_apart_entities_do_not_merge() {
    let data = ConfluenceInput {
        nuclear_sites: vec![cell(35.0, 139.0)],
        chokepoints: vec![cell(-33.0, 151.0)], // Sydney, far away
        ..empty()
    };
    let result = compute(&data, 2);
    assert!(result.is_empty());
}

#[test]
fn cell_center_is_a_valid_coordinate() {
    let data = ConfluenceInput {
        nuclear_sites: vec![cell(35.0, 139.0)],
        critical_infrastructure: vec![cell(35.0, 139.0)],
        ..empty()
    };
    let result = compute(&data, 2);
    assert_eq!(result.len(), 1);
    let center = LatLng::from(CellIndex::try_from(result[0].cell).unwrap());
    assert!(center.lat().abs() <= 90.0);
    assert!(center.lng().abs() <= 180.0);
}

#[test]
fn layers_are_sorted_by_label_and_counts_are_raw() {
    let c = cell(35.0, 139.0);
    let data = ConfluenceInput {
        nuclear_sites: vec![c, c],
        natural_events: vec![quake(35.0, 139.0), quake(35.0, 139.0)],
        chokepoints: vec![c],
        health_facilities: vec![c],
        ..empty()
    };
    let result = compute(&data, 2);
    assert_eq!(result.len(), 1);
    assert_eq!(
        result[0].layers,
        vec![Layer::Earthquakes, Layer::Health, Layer::Chokepoints, Layer::Nuclear]
    );
    assert_eq!(result[0].entity_count, 6);
    assert_eq!(
        result[0].summary(),
        "4 real systems: Earthquakes, Health Facilities, Maritime Chokepoints, Nuclear Sites"
    );
}

#[test]
fn unlocated_entities_are_skipped() {
    let c = cell(35.0, 139.0);
    assert!(cell(f64::NAN, 0.0).is_none());
    let data = ConfluenceInput {
        nuclear_sites: vec![None, c],
        fossil_deposits: vec![cell(f64::NAN, 139.0)],
        major_cities: vec![c],
        ..empty()
    };
    let result = compute(&data, 2);
    assert_eq!(result.len(), 1);
    assert_eq!(result[0].entity_count, 2);
    assert_eq!(result[0].layers, vec![Layer::MajorCities, Layer::Nuclear]);
}

#[test]
fn min_layers_one_keeps_single_category_cells() {
    let data = ConfluenceInput {
        sites: vec![cell(10.0, 10.0)],
        emergency_shelters: vec![cell(-33.0, 151.0)],
        ..empty()
    };
    let mut result = compute(&data, 1);
    assert_eq!(result.len(), 2);
    result.sort_by_key(|c| c.cell);
    for c in &result {
        assert_eq!(c.layers.len(), 1);
        assert_eq!(c.entity_count, 1);
        assert!(c.summary().starts_with("1 real system: "));
    }
    assert!(compute(&data, 0).len() == 2);
    assert!(compute(&empty(), 0).is_empty());
}

#[test]
fn summary_of_a_hand_built_cell() {
    let c = ConfluenceCell {
        cell: 0,
        layers: vec![Layer::Fires],
        entity_count: 7,
    };
    assert_eq!(c.summary(), "1 real system: Active Fires");
    let none = ConfluenceCell {
        cell: 0,
        layers: vec![],
        entity_count: 0,
    };
    assert_eq!(none.summary(), "0 real systems: ");
}

#[test]
fn decimal_notation() {
    assert_eq!(decimal(0), "0");
    assert_eq!(decimal(7), "7");
    assert_eq!(decimal(10), "10");
    assert_eq!(decimal(1905), "1905");
    assert_eq!(decimal(usize::MAX), usize::MAX.to_string());
}

#[test]
fn cells_come_in_order_of_first_appearance() {
    // Sydney is reached first (by the energy sites), Tokyo second.
    let sydney = cell(-33.0, 151.0);
    let tokyo = cell(35.0, 139.0);
    let data = ConfluenceInput {
        sites: vec![sydney, tokyo],
        chokepoints: vec![tokyo, sydney],
        ..empty()
    };
    let result = compute(&data, 2);
    assert_eq!(result.len(), 2);
    assert_eq!(Some(result[0].cell), sydney);
    assert_eq!(Some(result[1].cell), tokyo);
    assert_eq!(result[0].entity_count, 2);
    assert_eq!(result[1].entity_count, 2);
}
