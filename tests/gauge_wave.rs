use home_world_derby::gauge::wave_level;

#[test]
fn wave_starts_at_zero() {
    assert_eq!(wave_level(0), 0);
}

#[test]
fn wave_exact_values() {
    assert_eq!(wave_level(16), 64);
    assert_eq!(wave_level(100), 390);
    assert_eq!(wave_level(250), 840);
    assert_eq!(wave_level(393), 999);
    assert_eq!(wave_level(1178), -999);
    assert_eq!(wave_level(4000), -289);
}

#[test]
fn wave_tracks_sine() {
    for t in (0u64..20000).step_by(7) {
        let exact = 1000.0 * (t as f64 / 250.0).sin();
        let got = wave_level(t) as f64;
        assert!((got - exact).abs() <= 5.0, "t={} got={} exact={}", t, got, exact);
    }
}

#[test]
fn wave_stays_in_range() {
    for t in 0u64..10000 {
        let v = wave_level(t);
        assert!(-1000 <= v && v <= 1000);
    }
    let v = wave_level(u64::MAX);
    assert!(-1000 <= v && v <= 1000);
}
