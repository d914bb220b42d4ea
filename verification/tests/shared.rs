use hyprland::shared::{Address, CommandContent, CommandFlag, Mod, MonitorId, WorkspaceId, WorkspaceType};

#[test]
fn test_address_new_and_display() {
    let addr = Address::new("0x123abc");
    assert_eq!(addr.to_string(), "0x123abc");
}

#[test]
fn test_address_from_string() {
    let addr = Address("0x456def".to_string());
    assert_eq!(addr.to_string(), "0x456def");
}

#[test]
fn address_new_adds_missing_prefix() {
    assert_eq!(Address::new("abc").to_string(), "0xabc");
    assert_eq!(Address::new("").to_string(), "0x");
    assert_eq!(Address::new("0").to_string(), "0x0");
    assert_eq!(Address::fmt_new("0xabc").to_string(), "0x0xabc");
}

#[test]
fn address_new_is_idempotent() {
    let once = Address::new("55d4f0");
    let twice = Address::new(&once.to_string());
    assert_eq!(once, twice);
}

#[test]
fn test_workspace_type_regular() {
    let wt = WorkspaceType::Regular("myworkspace".to_string());
    assert_eq!(wt.to_string(), "myworkspace");
}

#[test]
fn test_workspace_type_special_with_name() {
    let wt = WorkspaceType::Special(Some("scratchpad".to_string()));
    assert_eq!(wt.to_string(), "special:scratchpad");
}

#[test]
fn test_workspace_type_special_without_name() {
    let wt = WorkspaceType::Special(None);
    assert_eq!(wt.to_string(), "special");
}

#[test]
fn test_workspace_type_try_from_int() {
    let wt: WorkspaceType = 42u32.try_into().unwrap();
    assert_eq!(wt.to_string(), "42");

    let result: Result<WorkspaceType, _> = 0u32.try_into();
    assert!(result.is_err());
}

#[test]
fn workspace_type_from_negative_id_is_refused() {
    let result: Result<WorkspaceType, _> = (-3i32).try_into();
    match result {
        Err(hyprland::error::HyprError::Internal(m)) => assert_eq!(m, "Conversion error: Unrecognised id"),
        other => panic!("unexpected {other:?}"),
    }
    let wt: WorkspaceType = 7u8.try_into().unwrap();
    assert_eq!(wt, WorkspaceType::Regular("7".to_string()));
}

#[test]
fn test_command_content_as_bytes() {
    let content = CommandContent {
        flag: CommandFlag::JSON,
        data: "test".to_string(),
    };
    assert_eq!(content.as_bytes(), b"j/test");

    let content = CommandContent {
        flag: CommandFlag::Empty,
        data: "foo".to_string(),
    };
    assert_eq!(content.as_bytes(), b"/foo");
}

#[test]
fn command_content_bytes_are_utf8() {
    let content = CommandContent { flag: CommandFlag::Empty, data: "é".to_string() };
    assert_eq!(content.as_bytes(), "/é".as_bytes());
    assert_eq!(content.to_string(), "/é");
}

#[test]
fn test_mod_display() {
    assert_eq!(Mod::SUPER.to_string(), "SUPER");
    assert_eq!(Mod::SHIFT.to_string(), "SHIFT");
    assert_eq!(Mod::ALT.to_string(), "ALT");
    assert_eq!(Mod::CTRL.to_string(), "CTRL");
    assert_eq!(Mod::NONE.to_string(), "");
}

#[test]
fn test_workspace_id_type() {
    let id: WorkspaceId = 42;
    assert_eq!(id, 42);
}

#[test]
fn test_monitor_id_type() {
    let id: MonitorId = 12345678901234567890i128;
    assert_eq!(id, 12345678901234567890i128);
}

#[test]
fn errors_can_be_copied() {
    let e = hyprland::error::HyprError::Internal("broken".into());
    match e.try_as_cloned() {
        Ok(hyprland::error::HyprError::Internal(m)) => assert_eq!(m, "broken"),
        other => panic!("unexpected {other:?}"),
    }
    let h = hyprland::error::HyprError::Hyprpaper(hyprland::hyprpaper::Error::NotOk("no".into()));
    assert!(matches!(h.try_as_cloned(), Ok(hyprland::error::HyprError::Hyprpaper(hyprland::hyprpaper::Error::NotOk(m))) if m == "no"));
}
