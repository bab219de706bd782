use actuator_core::duty::{interpolate, interpolate_in};

#[test]
fn endpoints_map_to_window_ends() {
    assert_eq!(interpolate(0, 409, 2047), 409);
    assert_eq!(interpolate(180, 409, 2047), 2047);
}

#[test]
fn midpoint_exact_value() {
    // 90 * (2047 - 409) / 180 + 409 == 90 * 1638 / 180 + 409 == 819 + 409
    assert_eq!(interpolate(90, 409, 2047), 1228);
}

#[test]
fn monotonic_over_whole_domain() {
    let mut prev = interpolate(0, 409, 2047);
    for a in 1..=180 {
        let next = interpolate(a, 409, 2047);
        assert!(prev <= next);
        prev = next;
    }
}

#[test]
fn identity_when_window_equals_domain() {
    for v in 0..=255 {
        assert_eq!(interpolate_in(v, 255, 0, 255), v);
    }
}

#[test]
fn scales_to_wide_window() {
    // 128 * 16383 / 255 == 2097024 / 255 == 8223 (floor)
    assert_eq!(interpolate_in(128, 255, 0, 16383), 8223);
    assert_eq!(interpolate_in(0, 255, 0, 16383), 0);
    assert_eq!(interpolate_in(255, 255, 0, 16383), 16383);
}

#[test]
fn degenerate_window_is_constant() {
    for a in [0, 1, 90, 180] {
        assert_eq!(interpolate(a, 700, 700), 700);
    }
}
