use hyprland::error::HyprError;
use hyprland::event_listener::active_window::{event_primer, event_primer_noexec, ActiveWindowState, ActiveWindowValue};
use hyprland::event_listener::shared::{
    event_parser, parse_string_as_work, Event, GroupToggledEventData, UnknownEventData, WindowEventData,
    WorkspaceEventData,
};
use hyprland::event_listener::calls::{DispatchSender, EventExecutor};
use hyprland::event_listener::state::State;
use hyprland::shared::{Address, WorkspaceType};

fn chars(s: &str) -> Vec<char> {
    s.chars().collect()
}

#[test]
fn parses_workspace_events() {
    let events = event_parser("workspacev2>>3,three\ncreateworkspacev2>>5,special:scratch").unwrap();
    assert_eq!(
        events,
        vec![
            Event::WorkspaceChanged(WorkspaceEventData { name: WorkspaceType::Regular("three".into()), id: 3 }),
            Event::WorkspaceAdded(WorkspaceEventData { name: WorkspaceType::Special(Some("scratch".into())), id: 5 }),
        ]
    );
}

#[test]
fn trims_text_and_skips_empty_lines() {
    let events = event_parser("\n  configreloaded>>\n\nfullscreen>>0\r\n").unwrap();
    assert_eq!(events, vec![Event::ConfigReloaded, Event::FullscreenStateChanged(false)]);
}

#[test]
fn unknown_events_keep_name_and_data() {
    let events = event_parser("somethingnew>>a,b,c").unwrap();
    assert_eq!(
        events,
        vec![Event::Unknown(UnknownEventData { name: "somethingnew".into(), args: "a,b,c".into() })]
    );
    let data = UnknownEventData { name: "x".into(), args: "a,b,c".into() };
    assert_eq!(data.clone().parse_args(2), vec!["a".to_string(), "b,c".to_string()]);
    assert_eq!(data.parse_args(0), Vec::<String>::new());
}

#[test]
fn line_without_separator_fails() {
    match event_parser("garbage") {
        Err(HyprError::Other(m)) => {
            assert_eq!(m, "could not get event name from Hyprland IPC data (not hyprland-rs)")
        },
        other => panic!("unexpected {other:?}"),
    }
}

#[test]
fn bad_workspace_id_fails() {
    match event_parser("workspacev2>>x,name") {
        Err(HyprError::Internal(m)) => {
            assert_eq!(m, "WorkspaceChangedV2: invalid integer error: invalid digit found in string")
        },
        other => panic!("unexpected {other:?}"),
    }
    match event_parser("destroyworkspacev2>>5") {
        Err(HyprError::Internal(m)) => assert_eq!(m, "could not get the event arg of index 1"),
        other => panic!("unexpected {other:?}"),
    }
}

#[test]
fn window_events() {
    let events = event_parser("openwindow>>55d4,2,kitty,title, with comma\nactivewindowv2>>,\nactivewindowv2>>0xab").unwrap();
    assert_eq!(events.len(), 3);
    match &events[0] {
        Event::WindowOpened(d) => {
            assert_eq!(d.window_address, Address("0x55d4".into()));
            assert_eq!(d.window_title, "title, with comma");
        },
        other => panic!("unexpected {other:?}"),
    }
    assert_eq!(events[1], Event::ActiveWindowChangedV2(None));
    assert_eq!(events[2], Event::ActiveWindowChangedV2(Some(Address("0xab".into()))));
    let groups = event_parser("togglegroup>>1,a,0xb").unwrap();
    assert_eq!(
        groups,
        vec![Event::GroupToggled(GroupToggledEventData {
            toggled: true,
            window_addresses: vec![Address("0xa".into()), Address("0xb".into())],
        })]
    );
}

#[test]
fn special_workspace_names() {
    assert_eq!(parse_string_as_work(&chars("special")), WorkspaceType::Special(None));
    assert_eq!(parse_string_as_work(&chars("special:a:b")), WorkspaceType::Special(Some("a".into())));
    assert_eq!(parse_string_as_work(&chars("specialx")), WorkspaceType::Regular("specialx".into()));
}

#[test]
fn primer_merges_active_window_events() {
    let mut buf: Vec<ActiveWindowState> = Vec::new();
    let first = event_primer_noexec(Event::ActiveWindowChangedV1(Some(("kitty".into(), "term".into()))), &mut buf).unwrap();
    assert!(first.is_empty());
    let second = event_primer_noexec(Event::ActiveWindowChangedV2(Some(Address("0x1".into()))), &mut buf).unwrap();
    assert_eq!(
        second,
        vec![Event::ActiveWindowChanged(Some(WindowEventData {
            class: "kitty".into(),
            title: "term".into(),
            address: Address("0x1".into()),
        }))]
    );
    assert!(buf.is_empty());
}

#[test]
fn primer_merges_in_either_order_and_passes_others() {
    let mut buf: Vec<ActiveWindowState> = Vec::new();
    assert!(event_primer_noexec(Event::ActiveWindowChangedV2(None), &mut buf).unwrap().is_empty());
    let out = event_primer_noexec(Event::ActiveWindowChangedV1(None), &mut buf).unwrap();
    assert_eq!(out, vec![Event::ActiveWindowChanged(None)]);
    let out = event_primer_noexec(Event::ConfigReloaded, &mut buf).unwrap();
    assert_eq!(out, vec![Event::ConfigReloaded]);
    assert_eq!(buf.len(), 1);
}

#[test]
fn active_window_state_basics() {
    let mut s = ActiveWindowState::new();
    assert!(!s.ready());
    assert!(s.class.is_empty());
    s.class = ActiveWindowValue::Queued("c".into());
    s.title = ActiveWindowValue::NoWindow;
    s.addr = ActiveWindowValue::Queued(Address("0x2".into()));
    assert!(s.ready());
    assert_eq!(s.get_event(), None);
    s.reset();
    assert!(s.class.is_empty() && s.title.is_empty() && s.addr.is_empty());
}

#[test]
fn state_changes_become_dispatchers() {
    let old = State { active_workspace: WorkspaceType::Regular("1".into()), active_monitor: "DP-1".into(), fullscreen_state: false };
    let new = State { active_workspace: WorkspaceType::Special(Some("s".into())), active_monitor: "DP-1".into(), fullscreen_state: true };
    let texts: Vec<String> = new
        .changes_to_dispatch(&old)
        .into_iter()
        .map(|d| hyprland::dispatch::gen_dispatch_str(d, true).unwrap().data)
        .collect();
    assert_eq!(texts, vec!["dispatch fullscreen ".to_string(), "dispatch workspace special:s".to_string()]);
    assert!(old.changes_to_dispatch(&old).is_empty());
}

#[test]
fn workspace_text_reads_back() {
    for w in [
        WorkspaceType::Regular("coding".into()),
        WorkspaceType::Regular("7".into()),
        WorkspaceType::Special(None),
        WorkspaceType::Special(Some("scratch".into())),
    ] {
        assert_eq!(parse_string_as_work(&chars(&w.to_string())), w);
    }
    // A special name with a colon is cut at the colon.
    let w = WorkspaceType::Special(Some("a:b".into()));
    assert_eq!(parse_string_as_work(&chars(&w.to_string())), WorkspaceType::Special(Some("a".into())));
}

/// A dispatcher that writes down what it was handed, and refuses the one
/// at position `fail_at`.
fn recorder(
    sent: &std::cell::RefCell<Vec<String>>,
    fail_at: Option<usize>,
) -> impl Fn(hyprland::dispatch::DispatchType) -> Result<(), HyprError> + '_ {
    move |dispatch| {
        if fail_at == Some(sent.borrow().len()) {
            return Err(HyprError::Other("refused".into()));
        }
        sent.borrow_mut().push(hyprland::dispatch::gen_dispatch_str(dispatch, true).unwrap().data);
        Ok(())
    }
}

#[test]
fn execute_state_sync_sends_changes_in_order() {
    let old = State { active_workspace: WorkspaceType::Regular("1".into()), active_monitor: "DP-1".into(), fullscreen_state: false };
    let new = State { active_workspace: WorkspaceType::Regular("2".into()), active_monitor: "HDMI-A-1".into(), fullscreen_state: true };
    let sent = std::cell::RefCell::new(vec![]);
    let back = new.clone().execute_state_sync(old.clone(), &mut DispatchSender::new(recorder(&sent, None))).unwrap();
    assert_eq!(back, new);
    assert_eq!(
        sent.into_inner(),
        vec![
            "dispatch fullscreen ".to_string(),
            "dispatch workspace name:2".to_string(),
            "dispatch focusmonitor HDMI-A-1".to_string(),
        ]
    );
    // An unchanged state sends nothing.
    let quiet = std::cell::RefCell::new(vec![]);
    assert_eq!(old.clone().execute_state_sync(old.clone(), &mut DispatchSender::new(recorder(&quiet, Some(0)))).unwrap(), old);
    assert!(quiet.into_inner().is_empty());
    // The first refused dispatcher ends the work with its error.
    let refusing = std::cell::RefCell::new(vec![]);
    assert!(new.execute_state_sync(old, &mut DispatchSender::new(recorder(&refusing, Some(1)))).is_err());
    assert_eq!(refusing.into_inner(), vec!["dispatch fullscreen ".to_string()]);
}

/// Handlers that write down every event they see, or refuse every one.
fn handlers(
    seen: &std::cell::RefCell<Vec<Event>>,
    refuse: bool,
) -> impl Fn(Event) -> Result<(), HyprError> + '_ {
    move |event| {
        if refuse {
            return Err(HyprError::Other("handler failed".into()));
        }
        seen.borrow_mut().push(event);
        Ok(())
    }
}

#[test]
fn primer_runs_handlers_of_merged_and_other_events() {
    let seen = std::cell::RefCell::new(vec![]);
    let mut h = EventExecutor::new(handlers(&seen, false));
    let mut buf: Vec<ActiveWindowState> = Vec::new();
    event_primer(&mut h, Event::ActiveWindowChangedV1(Some(("kitty".into(), "term".into()))), &mut buf).unwrap();
    assert!(seen.borrow().is_empty());
    event_primer(&mut h, Event::ActiveWindowChangedV2(Some(Address("0x1".into()))), &mut buf).unwrap();
    event_primer(&mut h, Event::ConfigReloaded, &mut buf).unwrap();
    assert_eq!(
        *seen.borrow(),
        vec![
            Event::ActiveWindowChanged(Some(WindowEventData {
                class: "kitty".into(),
                title: "term".into(),
                address: Address("0x1".into()),
            })),
            Event::ConfigReloaded,
        ]
    );
    assert_eq!(buf.len(), 1);

    // A failing handler keeps the filled state in the buffer.
    let unseen = std::cell::RefCell::new(vec![]);
    let mut bad = EventExecutor::new(handlers(&unseen, true));
    let mut buf: Vec<ActiveWindowState> = Vec::new();
    event_primer(&mut bad, Event::ActiveWindowChangedV2(None), &mut buf).unwrap();
    assert!(event_primer(&mut bad, Event::ActiveWindowChangedV1(None), &mut buf).is_err());
    assert_eq!(buf.len(), 1);
    assert!(buf[0].ready());
    assert!(event_primer(&mut bad, Event::ConfigReloaded, &mut buf).is_err());
}

#[test]
fn execute_hands_the_merged_window_to_the_handlers() {
    let seen = std::cell::RefCell::new(vec![]);
    let mut ex = EventExecutor::new(handlers(&seen, false));
    let mut s = ActiveWindowState {
        class: ActiveWindowValue::Queued("kitty".into()),
        title: ActiveWindowValue::Queued("term".into()),
        addr: ActiveWindowValue::Queued(Address("0xa".into())),
    };
    s.execute(&mut ex).unwrap();
    assert_eq!(
        *seen.borrow(),
        vec![Event::ActiveWindowChanged(Some(WindowEventData {
            class: "kitty".into(),
            title: "term".into(),
            address: Address("0xa".into()),
        }))]
    );
    assert!(s.class.is_empty() && s.title.is_empty() && s.addr.is_empty());
    // A state that is not complete hands nothing on.
    let mut half = ActiveWindowState::new();
    half.class = ActiveWindowValue::Queued("x".into());
    half.execute(&mut ex).unwrap();
    assert_eq!(seen.borrow().len(), 1);
    // A failing handler leaves the state as it was.
    let unseen = std::cell::RefCell::new(vec![]);
    let mut bad = EventExecutor::new(handlers(&unseen, true));
    let mut none = ActiveWindowState {
        class: ActiveWindowValue::NoWindow,
        title: ActiveWindowValue::NoWindow,
        addr: ActiveWindowValue::NoWindow,
    };
    assert!(none.execute(&mut bad).is_err());
    assert!(none.ready());
}
