use hyprland::bind_new::{Binding, Flag, Mod};
use hyprland::config::binds::{Binder, Binding as ConfigBinding, Flag as ConfigFlag, Key, Mod as ConfigMod, PartialBind};
use hyprland::dispatch::DispatchType;
use hyprland::dispatch_new::{Direction, Dispatch, WindowIdentifier};

#[test]
fn test_key_bindinds() {
    let binds = vec![
        (
            Binding {
                mods: vec![],
                key: "TAB".to_string(),
                dispatcher: Dispatch::FocusDirection(Direction::Up),
                flags: vec![],
            },
            r#"hl.bind("TAB"), hl.dsp.focus({ direction = "u", }), { })"#,
        ),
        (
            Binding {
                mods: vec![Mod::Super, Mod::Shift],
                key: "1".to_string(),
                dispatcher: Dispatch::ExecCmd("ls -la".into(), None),
                flags: vec![Flag::Description(r#"move"a""#.into()), Flag::AutoConsuming],
            },
            r#"hl.bind("SUPER + SHIFT + 1"), hl.dsp.exec_cmd("ls -la"), { description = "move\"a\"", auto_consuming = true, })"#,
        ),
        (
            Binding {
                mods: vec![Mod::Alt],
                key: "tab".to_string(),
                dispatcher: Dispatch::FocusLast,
                flags: vec![],
            },
            r#"hl.bind("ALT + tab"), hl.dsp.focus({ last }), { })"#,
        ),
        (
            Binding {
                mods: vec![Mod::Alt],
                key: "tab".to_string(),
                dispatcher: Dispatch::Exit,
                flags: vec![],
            },
            r#"hl.bind("ALT + tab"), hl.dsp.exit(), { })"#,
        ),
        (
            Binding {
                mods: vec![Mod::Alt],
                key: "tab".to_string(),
                dispatcher: Dispatch::SubMap("submap".into()),
                flags: vec![],
            },
            r#"hl.bind("ALT + tab"), hl.dsp.submap("submap"), { })"#,
        ),
        (
            Binding {
                mods: vec![Mod::Alt],
                key: "tab".to_string(),
                dispatcher: Dispatch::Pass(None),
                flags: vec![],
            },
            r#"hl.bind("ALT + tab"), hl.dsp.pass({ }), { })"#,
        ),
        (
            Binding {
                mods: vec![Mod::Alt],
                key: "tab".to_string(),
                dispatcher: Dispatch::Pass(Some(WindowIdentifier::InitialTitleRegularExpression(
                    "Proton P.*\\".to_string(),
                ))),
                flags: vec![],
            },
            r#"hl.bind("ALT + tab"), hl.dsp.pass({ window = "initialtitle:Proton P.*\\", }), { })"#,
        ),
        (
            Binding {
                mods: vec![Mod::Alt],
                key: "tab".to_string(),
                dispatcher: Dispatch::Event("test".into()),
                flags: vec![],
            },
            r#"hl.bind("ALT + tab"), hl.dsp.event("test"), { })"#,
        ),
        (
            Binding {
                mods: vec![Mod::Alt],
                key: "tab".to_string(),
                dispatcher: Dispatch::ForceIdle(232323),
                flags: vec![],
            },
            r#"hl.bind("ALT + tab"), hl.dsp.force_idle(232323), { })"#,
        ),
        (
            Binding {
                mods: vec![Mod::Alt],
                key: "tab".to_string(),
                dispatcher: Dispatch::NoOp(),
                flags: vec![],
            },
            r#"hl.bind("ALT + tab"), hl.dsp.no_op(), { })"#,
        ),
    ];
    for (bind, lua) in binds {
        assert_eq!(bind.to_string(), lua);
    }
}

#[test]
fn test_binds() {
    let binding = ConfigBinding {
        mods: &[ConfigMod::SUPER],
        key: Key::Key("v"),
        flags: &[],
        dispatcher: DispatchType::ToggleFloating(None),
    };
    let built_bind = match Binder::gen_str(binding) {
        Ok(v) => v,
        Err(e) => panic!("Error occured: {e:?}"),
    };
    assert_eq!(built_bind, "SUPER,v,togglefloating");
}

#[test]
fn bind_texts_in_detail() {
    let mods = [ConfigMod::SUPER, ConfigMod::SHIFT];
    let partial = PartialBind { mods: &mods, key: Key::Mod(&[ConfigMod::ALT, ConfigMod::NONE], "x") };
    assert_eq!(Binder::gen_str_partial(partial), "SUPERSHIFT,ALT_x");
    assert_eq!(Binder::bind_keyword(&[ConfigFlag::l, ConfigFlag::r, ConfigFlag::m]), "bindlrm");
    assert_eq!(Binder::bind_keyword(&[]), "bind");
    let binding = ConfigBinding {
        mods: &[],
        key: Key::Key("Return"),
        flags: &[ConfigFlag::e],
        dispatcher: DispatchType::Exec("kitty"),
    };
    assert_eq!(Binder::gen_str(binding).unwrap(), ",Return,exec,kitty");
}

#[test]
fn binding_replies() {
    assert!(Binding::<Dispatch>::reply("ok").is_ok());
    match Binding::<Dispatch>::reply("nope") {
        Err(hyprland::error::HyprError::NotOkDispatch(m)) => assert_eq!(m, "Could not bind key: nope"),
        other => panic!("unexpected {other:?}"),
    }
}
