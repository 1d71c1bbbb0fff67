use cursor_ping::settings::{
    auto_line_width, auto_radius, reference_size_of, resolve, LineWidth, Radius, Settings,
    FALLBACK_DISPLAY_SIZE,
};

#[test]
fn auto_radius_formula() {
    // max(s / 20, 50)
    assert_eq!(auto_radius(1920), 96);
    assert_eq!(auto_radius(3840), 192);
    assert_eq!(auto_radius(1000), 50);
    assert_eq!(auto_radius(0), 50);
    assert_eq!(auto_radius(1001), 50);
    assert_eq!(auto_radius(1020), 51);
}

#[test]
fn auto_line_width_formula() {
    // max(s / 800, 3)
    assert_eq!(auto_line_width(1920), 3);
    assert_eq!(auto_line_width(3840), 4);
    assert_eq!(auto_line_width(2400), 3);
    assert_eq!(auto_line_width(2401), 3);
    assert_eq!(auto_line_width(0), 3);
    assert_eq!(auto_line_width(8000), 10);
}

#[test]
fn auto_sizes_non_decreasing() {
    let mut last_radius = 0;
    let mut last_width = 0;
    for s in [0u32, 100, 999, 1000, 1920, 2400, 3840, 7680, 100_000] {
        let r = auto_radius(s);
        let w = auto_line_width(s);
        assert!(r >= last_radius);
        assert!(w >= last_width);
        last_radius = r;
        last_width = w;
    }
}

#[test]
fn reference_size_is_larger_side_or_fallback() {
    assert_eq!(reference_size_of(Some((1920, 1080))), 1920);
    assert_eq!(reference_size_of(Some((1080, 1920))), 1920);
    assert_eq!(reference_size_of(Some((800, 800))), 800);
    assert_eq!(reference_size_of(None), FALLBACK_DISPLAY_SIZE);
    assert_eq!(FALLBACK_DISPLAY_SIZE, 1920);
}

#[test]
fn explicit_values_pass_through() {
    let settings = Settings::new(
        Radius::Value(120),
        LineWidth::Value(7),
        0xFFFF4500,
        0xFF808080,
        70,
    );
    assert_eq!(settings.radius(Some((3840, 2160))), 120);
    assert_eq!(settings.radius(None), 120);
    assert_eq!(settings.line_width(Some((3840, 2160))), 7);
    assert_eq!(settings.line_width(None), 7);
    assert_eq!(settings.color_argb(), 0xFFFF4500);
    assert_eq!(settings.edge_color_argb(), 0xFF808080);
    assert_eq!(settings.interval(), 70);
}

#[test]
fn auto_values_use_display_size() {
    let settings = Settings::new(Radius::Auto, LineWidth::Auto, 0, 0, 70);
    assert_eq!(settings.radius(Some((3840, 2160))), 192);
    assert_eq!(settings.line_width(Some((3840, 2160))), 4);
    // Unknown display: fall back to the 1920 reference size.
    assert_eq!(settings.radius(None), 96);
    assert_eq!(settings.line_width(None), 3);
}

#[test]
fn resolve_builds_the_full_record() {
    let r = resolve(
        Radius::Auto,
        LineWidth::Value(2),
        (0xFF, 0x45, 0x00, 0xFF),
        (0x80, 0x80, 0x80, 0xFF),
        70,
        Some((2560, 1440)),
    );
    assert_eq!(r.base_radius, 128);
    assert_eq!(r.line_width, 2);
    assert_eq!(r.fill_color_argb, 0xFFFF4500);
    assert_eq!(r.edge_color_argb, 0xFF808080);
    assert_eq!(r.frame_interval_millis, 70);
    assert!(r.base_radius >= 1 && r.line_width >= 1);
}
