use sol_atlas::aesthetics::Aesthetic;
use sol_atlas::constants::{GLOBE_LAT_SEGMENTS, GLOBE_LON_SEGMENTS, STARFIELD_SEED};
use sol_atlas::economics::EroiTier;
use sol_atlas::energy_trading::trade_partner;
use sol_atlas::geometry::{sphere_indices, xorshift32};
use sol_atlas::planet::PlanetTarget;
use sol_atlas::shaders;
use sol_atlas::vitality::CircadianPhase;

#[test]
fn aesthetics_menu() {
    let all = Aesthetic::all();
    assert_eq!(all.len(), 5);
    assert_eq!(all[0], Aesthetic::Holographic);
    assert_eq!(all[4].label(), "Night");
}

#[test]
fn eroi_tier_labels() {
    assert_eq!(EroiTier::Civilization.label(), "Civilization");
    assert_eq!(EroiTier::Sustainability.label(), "Sustainable");
    assert_eq!(EroiTier::Marginal.label(), "Marginal");
    assert_eq!(EroiTier::Unviable.label(), "Unviable");
}

#[test]
fn small_sphere_index_buffer() {
    let indices = sphere_indices(4, 4);
    // 4 * 4 * 6 = 96 indices
    assert_eq!(indices.len(), 96);
    assert_eq!(&indices[0..6], &[0, 5, 1, 1, 5, 6]);
    // last quad: ring 3, meridian 3 → a = 3 * 5 + 3 = 18
    assert_eq!(&indices[90..96], &[18, 23, 19, 19, 23, 24]);
    assert!(indices.iter().all(|&i| i < 25));
}

#[test]
fn globe_mesh_indices_stay_in_range() {
    let indices = sphere_indices(GLOBE_LAT_SEGMENTS, GLOBE_LON_SEGMENTS);
    assert_eq!(indices.len(), 6 * 128 * 128);
    let vertices = (GLOBE_LAT_SEGMENTS + 1) * (GLOBE_LON_SEGMENTS + 1);
    assert!(indices.iter().all(|&i| i < vertices));
    assert!(sphere_indices(0, 7).is_empty());
}

#[test]
fn xorshift_stream_is_deterministic_and_never_zero() {
    let expected = {
        let mut s = STARFIELD_SEED;
        s ^= s << 13;
        s ^= s >> 17;
        s ^= s << 5;
        s
    };
    assert_eq!(xorshift32(STARFIELD_SEED), expected);
    let mut s = STARFIELD_SEED;
    for _ in 0..10_000 {
        s = xorshift32(s);
        assert_ne!(s, 0);
    }
    assert_eq!(xorshift32(0), 0);
}

#[test]
fn trade_partners_are_other_sites() {
    // three sites, tick 5: partner of i is (i + 1 + (35 + 3 * i) % 2) % 3
    assert_eq!(trade_partner(0, 3, 5), 2);
    assert_eq!(trade_partner(1, 3, 5), 2);
    assert_eq!(trade_partner(2, 3, 5), 1);
    for n in 2..12usize {
        for tick in 0..40usize {
            for i in 0..n {
                let j = trade_partner(i, n, tick);
                assert!(j < n && j != i);
                assert_eq!(j, (i + 1 + (tick * 7 + i * 3) % (n - 1)) % n);
            }
        }
    }
}

#[test]
fn circadian_phases() {
    assert_eq!(CircadianPhase::from_hour(4), CircadianPhase::Night);
    assert_eq!(CircadianPhase::from_hour(5), CircadianPhase::Dawn);
    assert_eq!(CircadianPhase::from_hour(9), CircadianPhase::Day);
    assert_eq!(CircadianPhase::from_hour(16), CircadianPhase::Day);
    assert_eq!(CircadianPhase::from_hour(17), CircadianPhase::Dusk);
    assert_eq!(CircadianPhase::from_hour(21), CircadianPhase::Night);
    assert_eq!(CircadianPhase::from_hour(99), CircadianPhase::Night);
}

#[test]
fn planet_targets() {
    assert_eq!(PlanetTarget::Jupiter.label(), "Jupiter");
    assert_eq!(PlanetTarget::Sun.icon(), "\u{2609}");
    assert_eq!(PlanetTarget::Earth.icon(), "🌍");
}

#[test]
fn fragment_shaders_are_assembled_from_preludes() {
    let earth = shaders::earth_frag();
    assert!(earth.starts_with("#version 300 es\nprecision highp float;\n"));
    assert_eq!(
        earth,
        format!(
            "{}{}{}{}",
            shaders::GLSL_ES_HEADER,
            shaders::SNOISE_GLSL,
            shaders::HARMONY_COLORS_GLSL,
            shaders::EARTH_FRAG_BODY
        )
    );
    assert!(earth.contains("float snoise(vec3 v)"));
    let inner = shaders::atmosphere_inner_frag();
    assert!(!inner.contains("float snoise("));
    assert!(inner.contains("HARMONY_COLORS"));
    for s in [
        shaders::earth_frag(),
        shaders::atmosphere_inner_frag(),
        shaders::atmosphere_outer_frag(),
        shaders::sacred_background_frag(),
        shaders::sun_frag(),
        shaders::moon_frag(),
        shaders::core_sphere_frag(),
    ] {
        assert!(s.starts_with(shaders::GLSL_ES_HEADER));
        assert!(s.contains("void main()"));
    }
    assert!(shaders::MARKER_VERT.starts_with("#version 300 es"));
}
