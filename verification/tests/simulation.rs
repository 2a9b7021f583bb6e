use sol_atlas::simulation::{
    colonies_at_year, secular_phase_at_year, tech_milestones, SecularPhase,
};

#[test]
fn tech_milestones_ordered() {
    let milestones = tech_milestones();
    assert!(milestones.len() >= 8);
    for w in milestones.windows(2) {
        assert!(
            w[0].year <= w[1].year,
            "Milestones not ordered: {} > {}",
            w[0].year,
            w[1].year
        );
    }
}

#[test]
fn secular_phases_cycle() {
    assert_eq!(secular_phase_at_year(0), SecularPhase::Growth);
    assert_eq!(secular_phase_at_year(40), SecularPhase::Stagflation);
    assert_eq!(secular_phase_at_year(60), SecularPhase::Crisis);
    assert_eq!(secular_phase_at_year(75), SecularPhase::Depression);
    // Second cycle
    assert_eq!(secular_phase_at_year(80), SecularPhase::Growth);
    assert_eq!(secular_phase_at_year(120), SecularPhase::Stagflation);
}

#[test]
fn colonies_appear_at_milestones() {
    let c_0 = colonies_at_year(0);
    assert!(c_0.is_empty());

    let c_35 = colonies_at_year(35);
    assert_eq!(c_35.len(), 1);
    assert_eq!(c_35[0].name, "Luna Base");

    let c_50 = colonies_at_year(50);
    assert_eq!(c_50.len(), 2); // Luna + Mars

    let c_100 = colonies_at_year(100);
    assert_eq!(c_100.len(), 3); // Luna + Mars + Europa

    let c_200 = colonies_at_year(200);
    assert_eq!(c_200.len(), 4); // All four
    assert!(c_200.iter().any(|c| c.name == "Titan Harvest"));
}

#[test]
fn milestone_table() {
    let m = tech_milestones();
    assert_eq!(m.len(), 10);
    assert_eq!(m[0].year, 27);
    assert_eq!(m[0].name, "NTP Demo");
    assert_eq!(m[9].year, 200);
    assert_eq!(m[9].description, "First 0.1c probe launched");
}

#[test]
fn secular_phase_boundaries_and_period() {
    assert_eq!(secular_phase_at_year(31), SecularPhase::Growth);
    assert_eq!(secular_phase_at_year(32), SecularPhase::Stagflation);
    assert_eq!(secular_phase_at_year(51), SecularPhase::Stagflation);
    assert_eq!(secular_phase_at_year(52), SecularPhase::Crisis);
    assert_eq!(secular_phase_at_year(67), SecularPhase::Crisis);
    assert_eq!(secular_phase_at_year(68), SecularPhase::Depression);
    assert_eq!(secular_phase_at_year(79), SecularPhase::Depression);
    for y in 0..1000u32 {
        assert_eq!(secular_phase_at_year(y), secular_phase_at_year(y + 80));
    }
    assert_eq!(SecularPhase::Stagflation.label(), "Stagflation");
}

#[test]
fn colony_populations() {
    let c = colonies_at_year(35);
    assert_eq!(c[0].population, 12);
    assert_eq!(c[0].body, "Moon");
    let c = colonies_at_year(150);
    // Luna: 12 + 3 * 115 = 357; Mars: 50 + 8 * 105 = 890;
    // Europa: 8 + 70 / 2 = 43; Titan: 4 + 3 * 30 / 10 = 13.
    let pops: Vec<u32> = c.iter().map(|c| c.population).collect();
    assert_eq!(pops, vec![357, 890, 43, 13]);
    let c = colonies_at_year(10_000);
    let pops: Vec<u32> = c.iter().map(|c| c.population).collect();
    assert_eq!(pops, vec![500, 10000, 100, 50]);
    let c = colonies_at_year(u32::MAX);
    assert_eq!(c.len(), 4);
    assert_eq!(c[3].population, 50);
}

#[test]
fn colony_populations_never_shrink() {
    for y in 35..600u32 {
        let a = colonies_at_year(y);
        let b = colonies_at_year(y + 1);
        assert!(a.len() <= b.len());
        for k in 0..a.len() {
            assert_eq!(a[k].name, b[k].name);
            assert!(a[k].population <= b[k].population);
        }
    }
}

#[test]
fn colony_populations_grow() {
    let mars_50 = colonies_at_year(50).into_iter().find(|c| c.body == "Mars").unwrap();
    let mars_150 = colonies_at_year(150).into_iter().find(|c| c.body == "Mars").unwrap();
    assert!(mars_150.population > mars_50.population);
}
