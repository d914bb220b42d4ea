use hyprland::window_rule::{LayerEffect, LayerMatch, LayerRule, WindowEffect, WindowMatch, WindowRule};

#[test]
fn test_window_rules() {
    let rules = vec![
        (
            WindowRule {
                name: Some("apply-something".into()),
                matchers: vec![WindowMatch::Class("my-class".into())],
                effects: vec![WindowEffect::Center(false), WindowEffect::Float(true)],
            },
            r#"hl.window_rule({name = "apply-something", match = {class = "my-class", }, center = false, float = true, })"#,
        ),
        (
            WindowRule {
                name: None,
                matchers: vec![WindowMatch::Focus(false), WindowMatch::Tag("my-tag".into())],
                effects: vec![
                    WindowEffect::NoCloseFor(230434),
                    WindowEffect::FullscreenState("1 2".into()),
                    WindowEffect::Content("video".into()),
                ],
            },
            r#"hl.window_rule({match = {focus = false, tag = "my-tag", }, no_close_for = 230434, fullscreen_state = "1 2", content = "video", })"#,
        ),
        (
            WindowRule {
                name: Some("some-layer-rule".into()),
                matchers: vec![
                    WindowMatch::InitialClass("test".into()),
                    WindowMatch::XWayland(false),
                    WindowMatch::Content("video".into()),
                ],
                effects: vec![
                    WindowEffect::Monitor("1".into()),
                    WindowEffect::Workspace("2".into()),
                    WindowEffect::Group("3".into()),
                    WindowEffect::Pin(true),
                    WindowEffect::NoInitialFocus(true),
                    WindowEffect::ScrollingWidth(234234),
                ],
            },
            r#"hl.window_rule({name = "some-layer-rule", match = {initial_class = "test", xwayland = false, content = "video", }, monitor = "1", workspace = "2", group = "3", pin = true, no_initial_focus = true, scrolling_width = 234234, })"#,
        ),
    ];
    for (rule, lua) in rules {
        assert_eq!(rule.to_string(), lua);
    }
}

#[test]
fn test_layer_rules() {
    let rules = vec![
        (
            LayerRule {
                name: Some("apply-something".into()),
                matchers: vec![LayerMatch::Namespace("my-layer".into())],
                effects: vec![LayerEffect::Animation("test".into()), LayerEffect::Order(-20)],
            },
            r#"hl.layer_rule({name = "apply-something", match = {namespace = "my-layer", }, animation = "test", order = -20, })"#,
        ),
        (
            LayerRule {
                name: None,
                matchers: vec![LayerMatch::Namespace("my-layer".into())],
                effects: vec![LayerEffect::Xray(false), LayerEffect::DimAround(true)],
            },
            r#"hl.layer_rule({match = {namespace = "my-layer", }, xray = false, dim_around = true, })"#,
        ),
        (
            LayerRule {
                name: Some("some-layer-rule".into()),
                matchers: vec![LayerMatch::Namespace("my-layer-2".into())],
                effects: vec![
                    LayerEffect::IgnoreAlpha(0.53f32.to_string()),
                    LayerEffect::Blur(false),
                    LayerEffect::AboveLock(3334),
                ],
            },
            r#"hl.layer_rule({name = "some-layer-rule", match = {namespace = "my-layer-2", }, ignore_alpha = 0.53, blur = false, above_lock = 3334, })"#,
        ),
    ];
    for (rule, lua) in rules {
        assert_eq!(rule.to_string(), lua);
    }
}

#[test]
fn rule_matches_and_effects_in_detail() {
    assert_eq!(WindowMatch::FullscreenStateClient(2).to_string(), "fullscreen_state_client = 2, ");
    assert_eq!(WindowEffect::Tile(true).to_string(), "title = true, ");
    assert_eq!(WindowEffect::NoCloseFor(-5).to_string(), "no_close_for = -5, ");
    let empty = WindowRule { name: None, matchers: vec![], effects: vec![] };
    assert_eq!(empty.to_string(), "hl.window_rule({match = {}, })");
    assert_eq!(empty.command_text(), "eval hl.window_rule({match = {}, })");
}

#[test]
fn rule_replies() {
    assert!(WindowRule::reply("ok").is_ok());
    match WindowRule::reply("bad") {
        Err(hyprland::error::HyprError::NotOkDispatch(m)) => assert_eq!(m, "Could not apply rule: bad"),
        other => panic!("unexpected {other:?}"),
    }
}
