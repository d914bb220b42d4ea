use hyprland::dispatch::{
    format_relative, gen_dispatch_str, Corner, CycleDirection, Direction, Dispatch, DispatchType, FullscreenType,
    MonitorIdentifier, Position, WindowIdentifier, WindowMove, WorkspaceIdentifier, WorkspaceIdentifierWithSpecial,
    WorkspaceOptions,
};
use hyprland::dispatch_new::{
    Dispatch as LuaDispatch, FirstEmpty, MonitorIdentifier as LuaMonitor, ToDispatch,
    WorkspaceIdentifier as LuaWorkspace,
};
use hyprland::error::HyprError;
use hyprland::shared::{Address, CommandFlag};

fn data(cmd: DispatchType, dispatch: bool) -> (CommandFlag, String) {
    let c = gen_dispatch_str(cmd, dispatch).unwrap();
    (c.flag, c.data)
}

#[test]
fn exec_on_the_dispatch_socket() {
    assert_eq!(data(DispatchType::Exec("kitty"), true), (CommandFlag::JSON, "dispatch exec kitty".to_string()));
    assert_eq!(data(DispatchType::Exec("kitty"), false), (CommandFlag::Empty, "exec,kitty".to_string()));
}

#[test]
fn set_cursor_is_always_setcursor() {
    assert_eq!(data(DispatchType::SetCursor("Bibata", 24), true), (CommandFlag::JSON, "setcursor Bibata 24".to_string()));
    assert_eq!(data(DispatchType::SetCursor("Bibata", 24), false), (CommandFlag::JSON, "setcursor Bibata 24".to_string()));
}

#[test]
fn dispatchers_with_arguments() {
    let w = WindowIdentifier::Address(Address::new("abc"));
    assert_eq!(data(DispatchType::MoveToWorkspace(WorkspaceIdentifierWithSpecial::Relative(-2), Some(w)), true).1,
        "dispatch movetoworkspace -2,address:0xabc");
    assert_eq!(data(DispatchType::Workspace(WorkspaceIdentifierWithSpecial::Special(Some("s"))), true).1,
        "dispatch workspace special:s");
    assert_eq!(data(DispatchType::Workspace(WorkspaceIdentifierWithSpecial::Special(None)), true).1,
        "dispatch workspace special");
    assert_eq!(data(DispatchType::Workspace(WorkspaceIdentifierWithSpecial::RelativeMonitor(0)), true).1,
        "dispatch workspace +0");
    assert_eq!(data(DispatchType::ToggleDPMS(true, None), true).1, "dispatch dpms on ");
    assert_eq!(data(DispatchType::ToggleDPMS(false, Some("DP-1")), false).1, "dpms,off DP-1");
    assert_eq!(data(DispatchType::MoveWindow(WindowMove::Monitor(MonitorIdentifier::Relative(3))), true).1,
        "dispatch movewindow mon:+3");
    assert_eq!(data(DispatchType::MoveActive(Position::Exact(10, -4)), true).1, "dispatch moveactive exact 10 -4");
    assert_eq!(data(DispatchType::ResizeActive(Position::Delta(1, 2)), false).1, "resizeactive,1 2");
    assert_eq!(data(DispatchType::MoveCursorToCorner(Corner::TopLeft), true).1, "dispatch movecursortocorner 3");
    assert_eq!(data(DispatchType::RenameWorkspace(4, None), true).1, "dispatch renameworkspace 4 4");
    assert_eq!(data(DispatchType::RenameWorkspace(4, Some("web")), true).1, "dispatch renameworkspace 4 web");
    assert_eq!(data(DispatchType::ToggleFullscreen(FullscreenType::NoParam), true).1, "dispatch fullscreen ");
    assert_eq!(data(DispatchType::CycleWindow(CycleDirection::Previous), true).1, "dispatch cyclenext prev");
    assert_eq!(data(DispatchType::WorkspaceOption(WorkspaceOptions::AllPseudo), true).1, "dispatch workspaceopt allpseudo");
    assert_eq!(data(DispatchType::WorkspaceOption(WorkspaceOptions::AllFloat), true).1, "dispatch workspaceopt allfloat");
    assert_eq!(data(DispatchType::ChangeSplitRatio("0.5".to_string()), true).1, "dispatch splitratio 0.5");
    assert_eq!(data(DispatchType::MoveWorkspaceToMonitor(WorkspaceIdentifier::Name("a"), MonitorIdentifier::Current), true).1,
        "dispatch moveworkspacetomonitor name:a current");
    assert_eq!(data(DispatchType::SwapActiveWorkspaces(MonitorIdentifier::Id(1), MonitorIdentifier::Direction(Direction::Left)), true).1,
        "dispatch swapactiveworkspaces 1 l");
    assert_eq!(data(DispatchType::ToggleFloating(None), true).1, "dispatch togglefloating");
    assert_eq!(data(DispatchType::ToggleSplit, true).1, "dispatch layoutmsg togglesplit");
}

#[test]
fn relative_numbers() {
    assert_eq!(format_relative(5, "m"), "m+5");
    assert_eq!(format_relative(-5, "e"), "e-5");
    assert_eq!(format_relative(0, "r"), "+0");
}

#[test]
fn dispatch_replies() {
    assert!(Dispatch::reply("ok").is_ok());
    match Dispatch::reply("no") {
        Err(HyprError::NotOkDispatch(m)) => assert_eq!(m, "no"),
        other => panic!("unexpected {other:?}"),
    }
}

#[test]
fn lua_dispatchers() {
    assert_eq!(LuaDispatch::FocusMonitor(LuaMonitor::Relative(-3)).to_string(), "hl.dsp.focus({ monitor = \"--3\", })");
    assert_eq!(LuaDispatch::FocusMonitor(LuaMonitor::Relative(0)).to_string(), "hl.dsp.focus({ monitor = \"+0\", })");
    assert_eq!(
        LuaDispatch::FocusWorkspace(LuaWorkspace::Empty(FirstEmpty { on_monitor: true, next: false }), true).to_string(),
        "hl.dsp.focus({ workspace = \"empty{ on_monitor = true, next = false }\",  on_current_monitor = true, })"
    );
    assert_eq!(LuaDispatch::FocusWorkspace(LuaWorkspace::AbsoluteOpen(3), false).to_string(),
        "hl.dsp.focus({ workspace = \"e~3\",  on_current_monitor = false, })");
    assert_eq!(LuaDispatch::Unimplemented("x()".into()).to_string(), "x()");
    assert_eq!(LuaDispatch::Exit.command_text(), "eval hl.dispatch(hl.dsp.exit())");
    match LuaDispatch::reply("bad") {
        Err(HyprError::NotOkDispatch(m)) => assert_eq!(m, "Could not dispatch: bad"),
        other => panic!("unexpected {other:?}"),
    }
}
