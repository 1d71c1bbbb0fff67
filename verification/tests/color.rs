use cursor_ping::color::{pack_argb, parse_color_argb};

#[test]
fn packs_alpha_red_green_blue() {
    assert_eq!(pack_argb(0xFF, 0x45, 0x00, 0xFF), 0xFFFF4500);
    assert_eq!(pack_argb(0x80, 0x80, 0x80, 0xFF), 0xFF808080);
    assert_eq!(pack_argb(0, 0, 0, 0), 0x00000000);
    assert_eq!(pack_argb(0x12, 0x34, 0x56, 0x78), 0x78123456);
}

#[test]
fn parses_named_colors() {
    assert_eq!(parse_color_argb("orangered"), Some(0xFFFF4500));
    assert_eq!(parse_color_argb("gray"), Some(0xFF808080));
}

#[test]
fn parses_hex_and_functional_forms() {
    assert_eq!(parse_color_argb("#ff4500"), Some(0xFFFF4500));
    assert_eq!(parse_color_argb("rgb(255 69 0)"), Some(0xFFFF4500));
    assert_eq!(parse_color_argb("rgba(255,69,0,1.0)"), Some(0xFFFF4500));
}

#[test]
fn rejects_malformed_colors() {
    assert_eq!(parse_color_argb("not-a-color"), None);
    assert_eq!(parse_color_argb(""), None);
    assert_eq!(parse_color_argb("#ggg"), None);
}
