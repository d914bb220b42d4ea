use hyprland::error::HyprError;
use hyprland::keyword::{Custom, HyprColor, HyprGradient, HyprRect};

fn alpha(t: &str) -> Option<u8> {
    let f: f32 = t.trim().parse().ok()?;
    Some((f.clamp(0.0, 1.0) * 255.0).round() as u8)
}

fn rgba(c: HyprColor) -> (u8, u8, u8, u8) {
    (c.r, c.g, c.b, c.a)
}

#[test]
fn color_from_argb_number() {
    assert_eq!(rgba(HyprColor::from_argb_u32(0xeeb3ff1a)), (0xb3, 0xff, 0x1a, 0xee));
}

#[test]
fn color_forms() {
    assert_eq!(rgba(HyprColor::try_from_argb_str("0xeeb3ff1a").unwrap()), (0xb3, 0xff, 0x1a, 0xee));
    assert_eq!(rgba(HyprColor::try_from_argb_str("  0xff000000 ").unwrap()), (0, 0, 0, 0xff));
    assert!(HyprColor::try_from_argb_str("0xzz").is_none());
    assert_eq!(rgba(HyprColor::try_from_rgb_str("rgb(b3ff1a)").unwrap()), (0xb3, 0xff, 0x1a, 0xff));
    assert_eq!(rgba(HyprColor::try_from_rgb_str("rgb(179, 255, 26)").unwrap()), (179, 255, 26, 255));
    assert!(HyprColor::try_from_rgb_str("rgb(1,2)").is_none());
    assert!(HyprColor::try_from_rgb_str("rgb(1,2,3,4)").is_none());
    assert!(HyprColor::try_from_rgb_str("rgb(b3ff1)").is_none());
    assert_eq!(rgba(HyprColor::try_from_rgba_str("rgba(b3ff1aee)", &alpha).unwrap()), (0xb3, 0xff, 0x1a, 0xee));
    assert_eq!(rgba(HyprColor::try_from_rgba_str("rgba(255, 0, 170, 0.5)", &alpha).unwrap()), (255, 0, 170, 128));
    assert!(HyprColor::try_from_rgba_str("rgba(255, 0, 170, x)", &alpha).is_none());
    assert!(HyprColor::try_from_rgba_str("rgba(256, 0, 170, 1)", &alpha).is_none());
    assert!(HyprColor::try_from_rgba_str("rgba(b3ff1a)", &alpha).is_none());
}

#[test]
fn color_text_reads_back() {
    let c = HyprColor { r: 1, g: 0xab, b: 0xff, a: 0x10 };
    let t = c.to_string();
    assert_eq!(t, "rgba(01abff10)");
    assert_eq!(rgba(HyprColor::try_from_rgba_str(&t, &alpha).unwrap()), (1, 0xab, 0xff, 0x10));
}

#[test]
fn color_as_option_text() {
    assert_eq!(rgba(HyprColor::parse(" RGBA(B3FF1AEE) ", &alpha).unwrap()), (0xb3, 0xff, 0x1a, 0xee));
    assert_eq!(rgba(HyprColor::parse("rgb(010203)", &alpha).unwrap()), (1, 2, 3, 255));
    assert_eq!(rgba(HyprColor::parse("0x01020304", &alpha).unwrap()), (2, 3, 4, 1));
    assert!(matches!(HyprColor::parse("blue", &alpha), Err(HyprError::InvalidHyprColorFormat)));
}

#[test]
fn rectangles() {
    let r = HyprRect::try_from(" 1 -2 3 4 ").unwrap();
    assert_eq!((r.top, r.right, r.bottom, r.left), (1, -2, 3, 4));
    assert_eq!(r.to_string(), "1 -2 3 4");
    assert!(matches!(HyprRect::try_from("1 2 3"), Err(HyprError::InvalidOptionValue)));
    assert!(matches!(HyprRect::try_from("1 2 3 4 5"), Err(HyprError::InvalidOptionValue)));
    assert!(matches!(HyprRect::try_from("1  2 3 4"), Err(HyprError::InvalidOptionValue)));
    let back = HyprRect::try_from(&r.to_string()).unwrap();
    assert_eq!((back.top, back.right, back.bottom, back.left), (1, -2, 3, 4));
}

#[test]
fn gradients() {
    let g = HyprGradient::try_from("rgba(33ccffee) rgba(00ff99ee) 45deg", &alpha).unwrap();
    assert_eq!(rgba(g.color0), (0x33, 0xcc, 0xff, 0xee));
    assert_eq!(rgba(g.color1.unwrap()), (0x00, 0xff, 0x99, 0xee));
    assert_eq!(g.angle, 45);
    assert_eq!(g.to_string(), "rgba(33ccffee) rgba(00ff99ee) 45deg");
    let one = HyprGradient::try_from("rgb(255, 0, 0) 90deg", &alpha).unwrap();
    assert_eq!(rgba(one.color0), (255, 0, 0, 255));
    assert!(one.color1.is_none());
    assert_eq!(one.to_string(), "rgba(ff0000ff) 90deg");
    assert!(matches!(HyprGradient::try_from("rgb(ff0000)", &alpha), Err(HyprError::InvalidHyprGradiantFormat)));
    assert!(matches!(HyprGradient::try_from("rgb(ff0000) 9degx", &alpha), Err(HyprError::InvalidHyprGradiantFormat)));
    assert!(matches!(HyprGradient::try_from("nope 9deg", &alpha), Err(HyprError::InvalidHyprColorFormat)));
    assert!(matches!(HyprGradient::try_from("rgb(ff0000) 9deg x", &alpha), Err(HyprError::InvalidHyprGradiantFormat)));
}

#[test]
fn custom_values() {
    assert!(matches!(Custom::try_from("1 2 3 4", &alpha), Ok(Custom::HyprRect(_))));
    assert!(matches!(Custom::try_from("rgb(ff0000) 9deg", &alpha), Ok(Custom::HyprGradient(_))));
    assert!(matches!(Custom::try_from("rgb(ff0000)", &alpha), Ok(Custom::HyprColor(_))));
    let c = Custom::try_from("rgb(ff0000)", &alpha).unwrap();
    assert_eq!(c.to_string(), "rgba(ff0000ff)");
}

fn never_asked(_: &str) -> Option<u8> {
    panic!("the alpha reader is not asked for a color's own text")
}

#[test]
fn color_option_text_reads_back() {
    let c = HyprColor::from_argb_u32(0x80c0ffee);
    let back = HyprColor::parse(&c.to_string(), &never_asked).unwrap();
    assert_eq!(rgba(back), rgba(c));
}

#[test]
fn gradient_text_reads_back() {
    let c0 = HyprColor::from_argb_u32(0xee33ccff);
    let c1 = HyprColor::from_argb_u32(0x0100ff99);
    for g in [
        HyprGradient { color0: c0, color1: Some(c1), angle: 45 },
        HyprGradient { color0: c1, color1: None, angle: 0 },
        HyprGradient { color0: c0, color1: None, angle: u32::MAX },
    ] {
        let back = HyprGradient::try_from(&g.to_string(), &never_asked).unwrap();
        assert_eq!(rgba(back.color0), rgba(g.color0));
        assert_eq!(back.color1.map(rgba), g.color1.map(rgba));
        assert_eq!(back.angle, g.angle);
    }
}

#[test]
fn decimal_and_hex_forms_agree() {
    let hex = HyprColor::try_from_rgb_str("rgb(b3ff1a)").unwrap();
    let dec = HyprColor::try_from_rgb_str("rgb(179,255,26)").unwrap();
    assert_eq!(rgba(hex), rgba(dec));
    assert_eq!(rgba(dec), (179, 255, 26, 255));
    let hex = HyprColor::try_from_rgba_str("rgba(b3ff1aee)", &alpha).unwrap();
    let dec = HyprColor::try_from_rgba_str("rgba(179,255,26,0.933)", &alpha).unwrap();
    assert_eq!(rgba(hex), rgba(dec));
    assert_eq!(rgba(dec), (0xb3, 0xff, 0x1a, 0xee));
}

#[test]
fn setting_an_option() {
    let c = hyprland::keyword::set_command("general:border_size", Some("2")).unwrap();
    assert_eq!(c.data, "keyword general:border_size 2");
    assert!(matches!(c.flag, hyprland::shared::CommandFlag::Empty));
    assert!(matches!(hyprland::keyword::set_command("x", None), Err(HyprError::InvalidOptionValue)));
}
