use wmc::error::CoreError;
use wmc::marker::{Color, Marker, MarkerId};
use wmc::projection::{EquirectangularProjection, GeoCoord, Projection, SUBPIXELS_PER_PIXEL};
use wmc::theme::Theme;

#[test]
fn geocoord_create_valid_returns_same_values() {
    let cases = [
        (0i64, 0i64),
        (55_755_800, 37_617_300),
        (90_000_000, 180_000_000),
        (-90_000_000, -180_000_000),
        (-89_999_999, 179_999_999),
    ];
    for (lat, lon) in cases {
        let c = GeoCoord::new(lat, lon).unwrap();
        assert_eq!(c.lat, lat);
        assert_eq!(c.lon, lon);
    }
}

#[test]
fn geocoord_create_out_of_range_fails() {
    let cases = [
        (90_000_001i64, 0i64),
        (-90_000_001, 0),
        (0, 180_000_001),
        (0, -180_000_001),
        (i64::MAX, 0),
        (0, i64::MIN),
    ];
    for (lat, lon) in cases {
        let r = GeoCoord::new(lat, lon);
        assert_eq!(r, Err(CoreError::InvalidCoordinates { lat, lon }));
    }
}

#[test]
fn equirect_round_trip_is_exact() {
    let sizes = [(1u32, 1u32), (800, 600), (1920, 1080), (3, 7)];
    let coords = [
        (0i64, 0i64),
        (55_755_800, 37_617_300),
        (90_000_000, 180_000_000),
        (-90_000_000, -180_000_000),
        (-33_448_900, -70_669_400),
        (1, -1),
    ];
    for (w, h) in sizes {
        let proj = EquirectangularProjection::new(w, h);
        for (lat, lon) in coords {
            let c = GeoCoord::new(lat, lon).unwrap();
            let p = proj.project(c);
            let back = proj.unproject(p);
            assert_eq!(back, c);
        }
    }
}

#[test]
fn projection_trait_round_trips_too() {
    let proj = EquirectangularProjection::new(640, 480);
    let c = GeoCoord::new(-12_345_678, 98_765_432).unwrap();
    let p = <EquirectangularProjection as Projection>::project(&proj, c);
    let back = <EquirectangularProjection as Projection>::unproject(&proj, p);
    assert_eq!(back, c);
}

#[test]
fn equirect_project_known_values() {
    let proj = EquirectangularProjection::new(800, 600);
    let moscow = GeoCoord::new(55_755_800, 37_617_300).unwrap();
    let p = proj.project(moscow);
    assert_eq!(p.x, 519_255_103_635);
    assert_eq!(p.y, 122_564_765_898);
    let sub = SUBPIXELS_PER_PIXEL as f64;
    let x_px = p.x as f64 / sub;
    let y_px = p.y as f64 / sub;
    let expected_x = (37.6173 + 180.0) / 360.0 * 800.0;
    let expected_y = (90.0 - 55.7558) / 180.0 * 600.0;
    assert!((x_px - expected_x).abs() < 1e-6);
    assert!((y_px - expected_y).abs() < 1e-6);

    let proj2 = EquirectangularProjection::new(2, 2);
    let origin = GeoCoord::new(0, 0).unwrap();
    let q = proj2.project(origin);
    assert_eq!(q.x, SUBPIXELS_PER_PIXEL);
    assert_eq!(q.y, SUBPIXELS_PER_PIXEL);
}

#[test]
fn marker_id_validate() {
    assert_eq!(MarkerId::Number(0).validate(), Ok(()));
    assert_eq!(MarkerId::String("a".to_string()).validate(), Ok(()));
    let r = MarkerId::String(String::new()).validate();
    assert_eq!(r, Err(CoreError::InvalidMarkerId { id: String::new() }));
}

#[test]
fn marker_new_defaults() {
    let m = Marker::new(MarkerId::Number(7), 10_000_000, 20_000_000).unwrap();
    assert_eq!(m.id, MarkerId::Number(7));
    assert_eq!(m.coord.lat, 10_000_000);
    assert_eq!(m.coord.lon, 20_000_000);
    assert_eq!(m.intensity, 1_000_000);
    assert_eq!(m.radius, 5_000_000);
    assert!(m.color.is_none());
    assert!(m.meta.is_none());
    assert_eq!(m.validate(), Ok(()));
}

#[test]
fn marker_new_rejects_bad_inputs() {
    let r = Marker::new(MarkerId::String(String::new()), 0, 0);
    assert_eq!(r.unwrap_err(), CoreError::InvalidMarkerId { id: String::new() });
    let r = Marker::new(MarkerId::Number(1), 91_000_000, 0);
    assert_eq!(
        r.unwrap_err(),
        CoreError::InvalidCoordinates { lat: 91_000_000, lon: 0 }
    );
}

#[test]
fn marker_validate_ranges() {
    let mut m = Marker::new(MarkerId::Number(1), 0, 0).unwrap();
    m.intensity = 1_000_001;
    assert_eq!(
        m.validate(),
        Err(CoreError::InvalidMarkerId { id: "intensity out of range [0, 1]".to_string() })
    );
    m.intensity = 1_000_000;
    m.radius = 0;
    assert_eq!(
        m.validate(),
        Err(CoreError::InvalidMarkerId { id: "invalid radius".to_string() })
    );
    m.radius = 1;
    assert_eq!(m.validate(), Ok(()));
}

#[test]
fn marker_phase_is_deterministic_and_pinned() {
    let a = Marker::new(MarkerId::String("marker-1".to_string()), 0, 0).unwrap();
    let b = Marker::new(MarkerId::String("marker-1".to_string()), 50_000_000, 1).unwrap();
    assert_eq!(a.phase(), b.phase());
    // Pin the documented FNV-1a derivation so reimplementations cannot drift.
    assert_eq!(a.phase(), 1770);
    let five = Marker::new(MarkerId::Number(5), 0, 0).unwrap();
    assert_eq!(five.phase(), 7332);
    let answer = Marker::new(MarkerId::Number(42), 0, 0).unwrap();
    assert_eq!(answer.phase(), 6955);
    let abc = Marker::new(MarkerId::String("abc".to_string()), 0, 0).unwrap();
    assert_eq!(abc.phase(), 4742);
}

#[test]
fn marker_phase_spreads_over_full_turn() {
    let mut phases = Vec::new();
    for i in 0..200u32 {
        let m = Marker::new(MarkerId::String(format!("m{i}")), 0, 0).unwrap();
        let p = m.phase();
        assert!(p < 10000);
        phases.push(p);
    }
    let mut distinct = phases.clone();
    distinct.sort_unstable();
    distinct.dedup();
    assert!(distinct.len() > 100);
    assert!(*phases.iter().min().unwrap() < 2000);
    assert!(*phases.iter().max().unwrap() > 8000);
    // Radians stay inside [0, 2*pi).
    for p in phases {
        let radians = p as f32 / 10000.0 * std::f32::consts::TAU;
        assert!((0.0..std::f32::consts::TAU).contains(&radians));
    }
}

#[test]
fn color_from_hex_six_digits() {
    let c = Color::from_hex("#FF0000").unwrap();
    assert_eq!((c.r, c.g, c.b, c.a), (255, 0, 0, 255));
    let rgba = [
        c.r as f32 / 255.0,
        c.g as f32 / 255.0,
        c.b as f32 / 255.0,
        c.a as f32 / 255.0,
    ];
    assert_eq!(rgba, [1.0, 0.0, 0.0, 1.0]);
}

#[test]
fn color_from_hex_eight_digits() {
    let c = Color::from_hex("#00FF0080").unwrap();
    assert_eq!((c.r, c.g, c.b, c.a), (0, 255, 0, 128));
    let alpha = c.a as f32 / 255.0;
    assert!((alpha - 0.502).abs() < 1e-3);
}

#[test]
fn color_from_hex_rejects_bad_text() {
    for bad in ["#ABC", "", "#", "#GG0000", "#FF00001", "#FF0000FF0"] {
        let r = Color::from_hex(bad);
        assert_eq!(
            r,
            Err(CoreError::ThemeValidationFailed { reason: format!("invalid hex color: {bad}") })
        );
    }
}

#[test]
fn color_from_hex_tolerates_missing_or_repeated_hash() {
    let c = Color::from_hex("00FF00").unwrap();
    assert_eq!((c.r, c.g, c.b, c.a), (0, 255, 0, 255));
    let c = Color::from_hex("##FF0000").unwrap();
    assert_eq!((c.r, c.g, c.b, c.a), (255, 0, 0, 255));
    let c = Color::from_hex("#aBcDeF").unwrap();
    assert_eq!((c.r, c.g, c.b, c.a), (0xAB, 0xCD, 0xEF, 255));
}

#[test]
fn theme_dark_minimal_is_valid() {
    let t = Theme::dark_minimal();
    assert_eq!(t.name, "dark-minimal");
    assert_eq!((t.background.r, t.background.g, t.background.b, t.background.a), (11, 15, 16, 255));
    assert_eq!(t.contour_width, 1_000_000);
    assert_eq!(t.marker_glow, 8_000_000);
    assert_eq!(t.grain_intensity, 15_000);
    assert_eq!(t.validate(), Ok(()));
}

#[test]
fn theme_validate_rejects_bad_values() {
    let mut t = Theme::dark_minimal();
    t.name = String::new();
    assert_eq!(
        t.validate(),
        Err(CoreError::ThemeValidationFailed { reason: "empty theme name".to_string() })
    );
    let mut t = Theme::dark_minimal();
    t.contour_width = 0;
    assert_eq!(
        t.validate(),
        Err(CoreError::ThemeValidationFailed { reason: "invalid contour width".to_string() })
    );
    let mut t = Theme::dark_minimal();
    t.marker_glow = -1;
    assert_eq!(
        t.validate(),
        Err(CoreError::ThemeValidationFailed { reason: "invalid marker glow".to_string() })
    );
    // A glow of exactly zero is non-positive and must fail too.
    let mut t = Theme::dark_minimal();
    t.marker_glow = 0;
    assert_eq!(
        t.validate(),
        Err(CoreError::ThemeValidationFailed { reason: "invalid marker glow".to_string() })
    );
}

#[test]
fn marker_meta_is_carried_opaquely() {
    let mut m = Marker::new(MarkerId::Number(1), 0, 0).unwrap();
    assert!(m.meta.is_none());
    m.meta = Some(serde_json::Value::String("note".to_string()));
    assert_eq!(m.validate(), Ok(()));
    assert_eq!(m.meta, Some(serde_json::Value::String("note".to_string())));
}

#[test]
fn core_error_messages() {
    assert_eq!(
        CoreError::InvalidCoordinates { lat: 0, lon: 0 }.message(),
        "Invalid coordinates"
    );
    assert_eq!(
        CoreError::InvalidMarkerId { id: "m1".to_string() }.message(),
        "Invalid marker ID: m1"
    );
    assert_eq!(
        CoreError::ThemeValidationFailed { reason: "empty theme name".to_string() }.message(),
        "Theme validation failed: empty theme name"
    );
    assert_eq!(
        CoreError::TopologyParseError { details: "bad shape".to_string() }.message(),
        "Topology parse error: bad shape"
    );
    assert_eq!(
        CoreError::BufferOverflow { requested: 4, capacity: 3 }.message(),
        "Buffer overflow"
    );
}
