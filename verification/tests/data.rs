use hyprland::data::{AnimationStyle, BezierIdent, FullscreenMode, FullscreenState, Transforms};

#[test]
fn animation_styles() {
    assert_eq!(AnimationStyle::from("slide".into()), AnimationStyle::Slide);
    assert_eq!(AnimationStyle::from("slidefadevert".into()), AnimationStyle::SlideFadeVert);
    assert_eq!(AnimationStyle::from("".into()), AnimationStyle::NoStyle);
    assert_eq!(AnimationStyle::from("popin 80%".into()), AnimationStyle::PopIn(80));
    assert_eq!(AnimationStyle::from("popin".into()), AnimationStyle::PopIn(100));
    assert_eq!(AnimationStyle::from("popin abc".into()), AnimationStyle::PopIn(100));
    assert_eq!(AnimationStyle::from("wobble".into()), AnimationStyle::Unknown("wobble".into()));
}

#[test]
fn bezier_names() {
    assert_eq!(BezierIdent::from("".into()), BezierIdent::NoBezier);
    assert_eq!(BezierIdent::from("default".into()), BezierIdent::Default);
    assert_eq!(BezierIdent::from("easeOut".into()), BezierIdent::Specified("easeOut".into()));
}

#[test]
fn numbered_enums() {
    assert_eq!(FullscreenState(true).bool(), true);
    assert_eq!(Transforms::Flipped90.number(), 5);
    assert_eq!(Transforms::from_number(7), Some(Transforms::Flipped270));
    assert_eq!(Transforms::from_number(8), None);
    assert_eq!(FullscreenMode::from_number(2), Some(FullscreenMode::Fullscreen));
    assert_eq!(FullscreenMode::MaximizedFullscreen.number(), 3);
}
