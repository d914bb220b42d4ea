//! Dispatchers written as the Lua calls of Hyprland's `hl.dsp` table.
use vstd::prelude::*;
use crate::error::{HyprError, HyprErrorView};
use crate::lua::{bool_field, format_bool_field, format_string, format_string_field, lua_bool, lua_string, string_field};
use crate::shared::{Address, MonitorId, WorkspaceId};
use crate::text::{chars_eq_str, chars_of, int_dec, prefix_of, push_i128, push_str};

verus! {

/// This enum is for identifying a window
#[derive(Debug, Clone, PartialEq, Eq)]
pub enum WindowIdentifier {
    /// A Regular Expression to match the window class (handled by Hyprland)
    ClassRegularExpression(String),
    /// A Regular Expression to match the initial window class (handled by Hyprland)
    InitialClassRegularExpression(String),
    /// A Regular Expression to match the window title (handled by Hyprland)
    TitleRegularExpression(String),
    /// A Regular Expression to match the intial window title (handled by Hyprland)
    InitialTitleRegularExpression(String),
    /// A Regular Expression to match a window tag (handled by Hyprland)
    TagRegularExpression(String),
    /// The window's process Id
    ProcessId(u32),
    /// The address of a window
    Address(Address),
    /// The active window
    ActiveWindow,
    /// The first floating window
    Floating,
    /// The first tiled window
    Tiled,
}

/// How a window identifier is written.
pub open spec fn window_ident_text(w: WindowIdentifier) -> Seq<char> {
    match w {
        WindowIdentifier::ClassRegularExpression(s) => "class:"@ + s@,
        WindowIdentifier::InitialClassRegularExpression(s) => "initialclass:"@ + s@,
        WindowIdentifier::TitleRegularExpression(s) => "title:"@ + s@,
        WindowIdentifier::InitialTitleRegularExpression(s) => "initialtitle:"@ + s@,
        WindowIdentifier::TagRegularExpression(s) => "tag:"@ + s@,
        WindowIdentifier::ProcessId(p) => "pid:"@ + int_dec(p as int),
        WindowIdentifier::Address(a) => "address:"@ + a@,
        WindowIdentifier::ActiveWindow => "activewindow"@,
        WindowIdentifier::Floating => "floating"@,
        WindowIdentifier::Tiled => "tiled"@,
    }
}

impl WindowIdentifier {
    /// The identifier as its `Display` writes it.
    pub fn to_string(&self) -> (res: String)
        ensures
            res@ == window_ident_text(*self),
    {
        match self {
            WindowIdentifier::ClassRegularExpression(s) => {
                let mut r = String::from_str("class:");
                push_str(&mut r, s.as_str());
                r
            },
            WindowIdentifier::InitialClassRegularExpression(s) => {
                let mut r = String::from_str("initialclass:");
                push_str(&mut r, s.as_str());
                r
            },
            WindowIdentifier::TitleRegularExpression(s) => {
                let mut r = String::from_str("title:");
                push_str(&mut r, s.as_str());
                r
            },
            WindowIdentifier::InitialTitleRegularExpression(s) => {
                let mut r = String::from_str("initialtitle:");
                push_str(&mut r, s.as_str());
                r
            },
            WindowIdentifier::TagRegularExpression(s) => {
                let mut r = String::from_str("tag:");
                push_str(&mut r, s.as_str());
                r
            },
            WindowIdentifier::ProcessId(p) => {
                let mut r = String::from_str("pid:");
                push_i128(&mut r, *p as i128);
                r
            },
            WindowIdentifier::Address(a) => {
                let mut r = String::from_str("address:");
                push_str(&mut r, a.0.as_str());
                r
            },
            WindowIdentifier::ActiveWindow => String::from_str("activewindow"),
            WindowIdentifier::Floating => String::from_str("floating"),
            WindowIdentifier::Tiled => String::from_str("tiled"),
        }
    }
}

/// This enum holds directions, typically used for moving
#[derive(Debug, Clone, Copy, PartialEq, Eq)]
#[allow(missing_docs)]
pub enum Direction {
    Up,
    Down,
    Right,
    Left,
}

/// How a direction is written.
pub open spec fn direction_text(d: Direction) -> Seq<char> {
    match d {
        Direction::Up => "u"@,
        Direction::Down => "d"@,
        Direction::Right => "r"@,
        Direction::Left => "l"@,
    }
}

impl Direction {
    /// The direction as its `Display` writes it.
    pub fn to_string(&self) -> (res: String)
        ensures
            res@ == direction_text(*self),
    {
        match self {
            Direction::Up => String::from_str("u"),
            Direction::Down => String::from_str("d"),
            Direction::Right => String::from_str("r"),
            Direction::Left => String::from_str("l"),
        }
    }
}

/// How a relative move is written: `+0`, `+` and the number, or `-` and
/// the number's own text (so a negative number shows two minus signs).
pub open spec fn relative_text(i: int) -> Seq<char> {
    if i == 0 {
        "+0"@
    } else if i > 0 {
        "+"@ + int_dec(i)
    } else {
        "-"@ + int_dec(i)
    }
}

fn push_relative(s: &mut String, n: i32)
    ensures
        final(s)@ == old(s)@ + relative_text(n as int),
{
    if n == 0 {
        push_str(s, "+0");
    } else if n > 0 {
        push_str(s, "+");
        push_i128(s, n as i128);
    } else {
        push_str(s, "-");
        push_i128(s, n as i128);
    }
    assert(final(s)@ =~= old(s)@ + relative_text(n as int));
}

/// This enum is used for identifying monitors
#[derive(Debug, Clone, PartialEq, Eq)]
pub enum MonitorIdentifier {
    /// The monitor that is to the specified direction of the active one
    Direction(Direction),
    /// The monitor id
    Id(MonitorId),
    /// The monitor name
    Name(String),
    /// The current monitor
    Current,
    /// The workspace relative to the current workspace
    Relative(i32),
    /// The workspace with this description
    Description(String),
}

/// How a monitor identifier is written.
pub open spec fn monitor_ident_text(m: MonitorIdentifier) -> Seq<char> {
    match m {
        MonitorIdentifier::Direction(d) => direction_text(d),
        MonitorIdentifier::Id(id) => int_dec(id as int),
        MonitorIdentifier::Name(n) => n@,
        MonitorIdentifier::Current => "current"@,
        MonitorIdentifier::Relative(i) => relative_text(i as int),
        MonitorIdentifier::Description(d) => "desc:"@ + d@,
    }
}

impl MonitorIdentifier {
    /// The identifier as its `Display` writes it.
    pub fn to_string(&self) -> (res: String)
        ensures
            res@ == monitor_ident_text(*self),
    {
        let mut s = String::new();
        match self {
            MonitorIdentifier::Direction(d) => {
                let t = d.to_string();
                push_str(&mut s, t.as_str());
            },
            MonitorIdentifier::Id(id) => push_i128(&mut s, *id),
            MonitorIdentifier::Name(n) => push_str(&mut s, n.as_str()),
            MonitorIdentifier::Current => push_str(&mut s, "current"),
            MonitorIdentifier::Relative(i) => push_relative(&mut s, *i),
            MonitorIdentifier::Description(d) => {
                push_str(&mut s, "desc:");
                push_str(&mut s, d.as_str());
            },
        }
        assert(s@ =~= monitor_ident_text(*self));
        s
    }
}

/// This struct holds options for the first empty workspace
#[derive(Debug, Clone, Copy, PartialEq, Eq)]
pub struct FirstEmpty {
    /// If the first empty workspace should be on the monitor
    pub on_monitor: bool,
    /// If the first empty workspace should be next
    pub next: bool,
}

/// How the options for the first empty workspace are written.
pub open spec fn first_empty_text(f: FirstEmpty) -> Seq<char> {
    "{ on_monitor = "@ + lua_bool(f.on_monitor) + ", next = "@ + lua_bool(f.next) + " }"@
}

fn push_bool(s: &mut String, b: bool)
    ensures
        final(s)@ == old(s)@ + lua_bool(b),
{
    if b {
        push_str(s, "true");
    } else {
        push_str(s, "false");
    }
}

impl FirstEmpty {
    /// The options as their `Display` writes them.
    pub fn to_string(&self) -> (res: String)
        ensures
            res@ == first_empty_text(*self),
    {
        let mut s = String::from_str("{ on_monitor = ");
        push_bool(&mut s, self.on_monitor);
        push_str(&mut s, ", next = ");
        push_bool(&mut s, self.next);
        push_str(&mut s, " }");
        s
    }
}

/// This enum is for identifying workspaces that also includes the special workspace
#[derive(Debug, Clone, PartialEq, Eq)]
pub enum WorkspaceIdentifier {
    /// The workspace Id
    Id(WorkspaceId),
    /// The workspace relative to the current workspace
    Relative(i32),
    /// The workspace on the monitor relative to the current workspace
    RelativeOnMonitor(i32),
    /// The workspace on the monitor absolute
    AbsoluteOnMonitor(u32),
    /// The workspace on the monitor relative to the current workspace, including empty workspaces
    RelativeOnMonitorIncludingEmpty(i32),
    /// The workspace on the monitor absolute, including empty workspaces
    AbsoluteOnMonitorIncludingEmpty(u32),
    /// The open workspace relative to the current workspace
    RelativeOpen(i32),
    /// The open workspace absolute
    AbsoluteOpen(u32),
    /// The name of the workspace
    Name(String),
    /// The previous Workspace
    Previous,
    /// The previous Workspace
    PreviousPerMonitor,
    /// The first available empty workspace
    Empty(FirstEmpty),
    /// The special workspace
    Special(Option<String>),
}

/// How a workspace identifier is written.
pub open spec fn workspace_ident_text(w: WorkspaceIdentifier) -> Seq<char> {
    match w {
        WorkspaceIdentifier::Id(id) => int_dec(id as int),
        WorkspaceIdentifier::Relative(i) => relative_text(i as int),
        WorkspaceIdentifier::RelativeOnMonitor(i) => "m"@ + relative_text(i as int),
        WorkspaceIdentifier::AbsoluteOnMonitor(n) => "m~"@ + int_dec(n as int),
        WorkspaceIdentifier::RelativeOnMonitorIncludingEmpty(i) => "r"@ + relative_text(i as int),
        WorkspaceIdentifier::AbsoluteOnMonitorIncludingEmpty(n) => "r~"@ + int_dec(n as int),
        WorkspaceIdentifier::RelativeOpen(i) => "e"@ + relative_text(i as int),
        WorkspaceIdentifier::AbsoluteOpen(n) => "e~"@ + int_dec(n as int),
        WorkspaceIdentifier::Name(s) => "name:"@ + s@,
        WorkspaceIdentifier::Previous => "previous"@,
        WorkspaceIdentifier::PreviousPerMonitor => "previous_per_monitor"@,
        WorkspaceIdentifier::Empty(f) => "empty"@ + first_empty_text(f),
        WorkspaceIdentifier::Special(None) => "special"@,
        WorkspaceIdentifier::Special(Some(s)) => "special"@ + ":"@ + s@,
    }
}

impl WorkspaceIdentifier {
    /// The identifier as its `Display` writes it.
    pub fn to_string(&self) -> (res: String)
        ensures
            res@ == workspace_ident_text(*self),
    {
        let mut s = String::new();
        match self {
            WorkspaceIdentifier::Id(id) => push_i128(&mut s, *id as i128),
            WorkspaceIdentifier::Relative(i) => push_relative(&mut s, *i),
            WorkspaceIdentifier::RelativeOnMonitor(i) => {
                push_str(&mut s, "m");
                push_relative(&mut s, *i);
            },
            WorkspaceIdentifier::AbsoluteOnMonitor(n) => {
                push_str(&mut s, "m~");
                push_i128(&mut s, *n as i128);
            },
            WorkspaceIdentifier::RelativeOnMonitorIncludingEmpty(i) => {
                push_str(&mut s, "r");
                push_relative(&mut s, *i);
            },
            WorkspaceIdentifier::AbsoluteOnMonitorIncludingEmpty(n) => {
                push_str(&mut s, "r~");
                push_i128(&mut s, *n as i128);
            },
            WorkspaceIdentifier::RelativeOpen(i) => {
                push_str(&mut s, "e");
                push_relative(&mut s, *i);
            },
            WorkspaceIdentifier::AbsoluteOpen(n) => {
                push_str(&mut s, "e~");
                push_i128(&mut s, *n as i128);
            },
            WorkspaceIdentifier::Name(n) => {
                push_str(&mut s, "name:");
                push_str(&mut s, n.as_str());
            },
            WorkspaceIdentifier::Previous => push_str(&mut s, "previous"),
            WorkspaceIdentifier::PreviousPerMonitor => push_str(&mut s, "previous_per_monitor"),
            WorkspaceIdentifier::Empty(f) => {
                push_str(&mut s, "empty");
                let t = f.to_string();
                push_str(&mut s, t.as_str());
            },
            WorkspaceIdentifier::Special(None) => push_str(&mut s, "special"),
            WorkspaceIdentifier::Special(Some(n)) => {
                push_str(&mut s, "special");
                push_str(&mut s, ":");
                push_str(&mut s, n.as_str());
            },
        }
        assert(s@ =~= workspace_ident_text(*self));
        s
    }
}

/// Something that can be dispatched: it is written as a Lua call.
pub trait ToDispatch {
    /// The Lua call that dispatches it.
    spec fn dispatch_lua(&self) -> Seq<char>;

    /// Writes the Lua call.
    fn to_string(&self) -> (res: String)
        ensures
            res@ == self.dispatch_lua();
}

/// The dispatchers of Hyprland's Lua interface.
#[derive(Debug, Clone, PartialEq, Eq)]
pub enum Dispatch {
    /// This lets you use dispatchers not supported by this library yet or for custom lua functions.
    /// Raw string will be used as the dispatcher
    Unimplemented(String),
    /// execute a command. Rules can be a table of window rule effects to apply.
    ExecCmd(String, Option<()>),
    /// execute a raw command. While exec_cmd will do bash -c, this won't.
    ExecRaw(String),
    /// move the focus in a direction
    FocusDirection(Direction),
    /// move the focus to a monitor
    FocusMonitor(MonitorIdentifier),
    /// move the focus to a workspace (2. = on_current_monitor)
    FocusWorkspace(WorkspaceIdentifier, bool),
    /// move the focus to a window
    FocusWindow(WindowIdentifier),
    /// move the focus to an urgent, or last window
    FocusUrgentOrLast,
    /// move the focus to the last window
    FocusLast,
    /// quit Hyprland. It's recommended to use hyprshutdown instead of this.
    Exit,
    /// move to a submap
    SubMap(String),
    /// pass the shortcut to a window
    Pass(Option<WindowIdentifier>),
    /// send a layout message as a string
    Layout(String),
    /// send an event to socket2.
    Event(String),
    /// activate a dbus global shortcut.
    Global(String),
    /// sets elapsed time for all idle timers, ignoring idle inhibitors.
    ForceIdle(u64),
    /// does nothing. Useful for conditional binds.
    NoOp(),
}

/// How a dispatcher is written as a Lua call.
pub open spec fn dispatch_lua_text(d: Dispatch) -> Seq<char> {
    match d {
        Dispatch::Unimplemented(s) => s@,
        Dispatch::ExecCmd(s, _) => "hl.dsp.exec_cmd("@ + lua_string(s@) + ")"@,
        Dispatch::ExecRaw(s) => "hl.dsp.exec_raw("@ + lua_string(s@) + ")"@,
        Dispatch::FocusDirection(d) => "hl.dsp.focus({ "@ + string_field("direction"@, direction_text(d)) + "})"@,
        Dispatch::FocusMonitor(m) => "hl.dsp.focus({ "@ + string_field("monitor"@, monitor_ident_text(m)) + "})"@,
        Dispatch::FocusWorkspace(w, b) => "hl.dsp.focus({ "@ + string_field("workspace"@, workspace_ident_text(w))
            + " "@ + bool_field("on_current_monitor"@, b) + "})"@,
        Dispatch::FocusWindow(w) => "hl.dsp.focus({ "@ + string_field("window"@, window_ident_text(w)) + "})"@,
        Dispatch::FocusUrgentOrLast => "hl.dsp.focus({ urgent_or_last })"@,
        Dispatch::FocusLast => "hl.dsp.focus({ last })"@,
        Dispatch::Exit => "hl.dsp.exit()"@,
        Dispatch::SubMap(s) => "hl.dsp.submap("@ + lua_string(s@) + ")"@,
        Dispatch::Pass(None) => "hl.dsp.pass({ "@ + "})"@,
        Dispatch::Pass(Some(w)) => "hl.dsp.pass({ "@ + string_field("window"@, window_ident_text(w)) + "})"@,
        Dispatch::Layout(s) => "hl.dsp.layout("@ + lua_string(s@) + ")"@,
        Dispatch::Event(s) => "hl.dsp.event("@ + lua_string(s@) + ")"@,
        Dispatch::Global(s) => "hl.dsp.global("@ + lua_string(s@) + ")"@,
        Dispatch::ForceIdle(n) => "hl.dsp.force_idle("@ + int_dec(n as int) + ")"@,
        Dispatch::NoOp() => "hl.dsp.no_op()"@,
    }
}

fn call_of(head: &str, arg: &str) -> (res: String)
    ensures
        res@ == head@ + lua_string(arg@) + ")"@,
{
    let mut s = String::from_str(head);
    let q = format_string(arg);
    push_str(&mut s, q.as_str());
    push_str(&mut s, ")");
    s
}

fn focus_of(key: &str, value: &str) -> (res: String)
    ensures
        res@ == "hl.dsp.focus({ "@ + string_field(key@, value@) + "})"@,
{
    let mut s = String::from_str("hl.dsp.focus({ ");
    let f = format_string_field(key, value);
    push_str(&mut s, f.as_str());
    push_str(&mut s, "})");
    s
}

impl ToDispatch for Dispatch {
    open spec fn dispatch_lua(&self) -> Seq<char> {
        dispatch_lua_text(*self)
    }

    fn to_string(&self) -> (res: String) {
        match self {
            Dispatch::Unimplemented(s) => s.clone(),
            Dispatch::ExecCmd(s, _) => call_of("hl.dsp.exec_cmd(", s.as_str()),
            Dispatch::ExecRaw(s) => call_of("hl.dsp.exec_raw(", s.as_str()),
            Dispatch::FocusDirection(d) => {
                let t = d.to_string();
                focus_of("direction", t.as_str())
            },
            Dispatch::FocusMonitor(m) => {
                let t = m.to_string();
                focus_of("monitor", t.as_str())
            },
            Dispatch::FocusWorkspace(w, b) => {
                let mut s = String::from_str("hl.dsp.focus({ ");
                let t = w.to_string();
                let f = format_string_field("workspace", t.as_str());
                push_str(&mut s, f.as_str());
                push_str(&mut s, " ");
                let g = format_bool_field("on_current_monitor", *b);
                push_str(&mut s, g.as_str());
                push_str(&mut s, "})");
                s
            },
            Dispatch::FocusWindow(w) => {
                let t = w.to_string();
                focus_of("window", t.as_str())
            },
            Dispatch::FocusUrgentOrLast => String::from_str("hl.dsp.focus({ urgent_or_last })"),
            Dispatch::FocusLast => String::from_str("hl.dsp.focus({ last })"),
            Dispatch::Exit => String::from_str("hl.dsp.exit()"),
            Dispatch::SubMap(s) => call_of("hl.dsp.submap(", s.as_str()),
            Dispatch::Pass(None) => {
                let mut s = String::from_str("hl.dsp.pass({ ");
                push_str(&mut s, "})");
                s
            },
            Dispatch::Pass(Some(w)) => {
                let mut s = String::from_str("hl.dsp.pass({ ");
                let t = w.to_string();
                let f = format_string_field("window", t.as_str());
                push_str(&mut s, f.as_str());
                push_str(&mut s, "})");
                s
            },
            Dispatch::Layout(s) => call_of("hl.dsp.layout(", s.as_str()),
            Dispatch::Event(s) => call_of("hl.dsp.event(", s.as_str()),
            Dispatch::Global(s) => call_of("hl.dsp.global(", s.as_str()),
            Dispatch::ForceIdle(n) => {
                let mut s = String::from_str("hl.dsp.force_idle(");
                push_i128(&mut s, *n as i128);
                push_str(&mut s, ")");
                s
            },
            Dispatch::NoOp() => String::from_str("hl.dsp.no_op()"),
        }
    }
}

/// What Hyprland's answer to a dispatch means: `ok` is success, anything
/// else fails with the answer.
pub open spec fn dispatch_reply(ret: Seq<char>) -> Result<(), HyprErrorView> {
    if ret == "ok"@ {
        Ok(())
    } else {
        Err(HyprErrorView::NotOkDispatch("Could not dispatch: "@ + ret))
    }
}

impl Dispatch {
    /// The command that runs the dispatcher: `eval hl.dispatch(...)`.
    pub fn command_text(&self) -> (res: String)
        ensures
            res@ == "eval hl.dispatch("@ + dispatch_lua_text(*self) + ")"@,
    {
        let mut s = String::from_str("eval hl.dispatch(");
        let t = self.to_string();
        push_str(&mut s, t.as_str());
        push_str(&mut s, ")");
        s
    }

    /// Reads Hyprland's answer to a dispatch.
    pub fn reply(ret: &str) -> (res: Result<(), HyprError>)
        ensures
            match dispatch_reply(ret@) {
                Ok(()) => res is Ok,
                Err(e) => res matches Err(r) && r@ == e,
            },
    {
        let v = chars_of(ret);
        if chars_eq_str(&v, "ok") {
            Ok(())
        } else {
            let mut m = String::from_str("Could not dispatch: ");
            push_str(&mut m, ret);
            Err(HyprError::NotOkDispatch(m))
        }
    }
}

/// How the Lua call of each dispatcher begins: `hl.dsp.`, the function's
/// name and `(`; where the call takes a table, the table's first key
/// (`window`, `monitor`, `workspace` or `direction`) and ` = `; calls
/// without arguments are given whole. An unimplemented dispatcher is its
/// own text.
pub open spec fn dispatch_lua_head(d: Dispatch) -> Seq<char> {
    match d {
        Dispatch::Unimplemented(s) => s@,
        Dispatch::ExecCmd(_, _) => "hl.dsp.exec_cmd("@,
        Dispatch::ExecRaw(_) => "hl.dsp.exec_raw("@,
        Dispatch::FocusDirection(_) => "hl.dsp.focus({ "@ + "direction"@ + " = "@,
        Dispatch::FocusMonitor(_) => "hl.dsp.focus({ "@ + "monitor"@ + " = "@,
        Dispatch::FocusWorkspace(_, _) => "hl.dsp.focus({ "@ + "workspace"@ + " = "@,
        Dispatch::FocusWindow(_) => "hl.dsp.focus({ "@ + "window"@ + " = "@,
        Dispatch::FocusUrgentOrLast => "hl.dsp.focus({ urgent_or_last })"@,
        Dispatch::FocusLast => "hl.dsp.focus({ last })"@,
        Dispatch::Exit => "hl.dsp.exit()"@,
        Dispatch::SubMap(_) => "hl.dsp.submap("@,
        Dispatch::Pass(None) => "hl.dsp.pass({ "@ + "})"@,
        Dispatch::Pass(Some(_)) => "hl.dsp.pass({ "@ + "window"@ + " = "@,
        Dispatch::Layout(_) => "hl.dsp.layout("@,
        Dispatch::Event(_) => "hl.dsp.event("@,
        Dispatch::Global(_) => "hl.dsp.global("@,
        Dispatch::ForceIdle(_) => "hl.dsp.force_idle("@,
        Dispatch::NoOp() => "hl.dsp.no_op()"@,
    }
}

/// The Lua text of a dispatcher begins with its call's head, and so names
/// the right function and, for a table, the right key.
pub proof fn law_dispatch_lua_text_starts_with_its_head(d: Dispatch)
    ensures
        prefix_of(dispatch_lua_head(d), dispatch_lua_text(d)),
{
    let t = dispatch_lua_text(d);
    let w = dispatch_lua_head(d);
    match d {
        Dispatch::Unimplemented(s) => {},
        Dispatch::ExecCmd(_, _) => {
            assert(t.take(w.len() as int) =~= w);
        },
        Dispatch::ExecRaw(_) => {
            assert(t.take(w.len() as int) =~= w);
        },
        Dispatch::FocusDirection(_) => {
            assert(t.take(w.len() as int) =~= w);
        },
        Dispatch::FocusMonitor(_) => {
            assert(t.take(w.len() as int) =~= w);
        },
        Dispatch::FocusWorkspace(_, _) => {
            assert(t.take(w.len() as int) =~= w);
        },
        Dispatch::FocusWindow(_) => {
            assert(t.take(w.len() as int) =~= w);
        },
        Dispatch::FocusUrgentOrLast => {},
        Dispatch::FocusLast => {},
        Dispatch::Exit => {},
        Dispatch::SubMap(_) => {
            assert(t.take(w.len() as int) =~= w);
        },
        Dispatch::Pass(None) => {},
        Dispatch::Pass(Some(_)) => {
            assert(t.take(w.len() as int) =~= w);
        },
        Dispatch::Layout(_) => {
            assert(t.take(w.len() as int) =~= w);
        },
        Dispatch::Event(_) => {
            assert(t.take(w.len() as int) =~= w);
        },
        Dispatch::Global(_) => {
            assert(t.take(w.len() as int) =~= w);
        },
        Dispatch::ForceIdle(_) => {
            assert(t.take(w.len() as int) =~= w);
        },
        Dispatch::NoOp() => {},
    }
    assert(t.take(t.len() as int) =~= t);
}

/// The four ways of focusing begin differently: each names its target
/// under its own key.
pub proof fn law_focus_heads_differ(w: WindowIdentifier, m: MonitorIdentifier, ws: WorkspaceIdentifier, b: bool, dir: Direction)
    ensures
        ({
            let hw = dispatch_lua_head(Dispatch::FocusWindow(w));
            let hm = dispatch_lua_head(Dispatch::FocusMonitor(m));
            let hs = dispatch_lua_head(Dispatch::FocusWorkspace(ws, b));
            let hd = dispatch_lua_head(Dispatch::FocusDirection(dir));
            hw != hm && hw != hs && hw != hd && hm != hs && hm != hd && hs != hd
        }),
{
    reveal_strlit("hl.dsp.focus({ ");
    reveal_strlit(" = ");
    reveal_strlit("window");
    reveal_strlit("monitor");
    reveal_strlit("workspace");
    reveal_strlit("direction");
    let hw = dispatch_lua_head(Dispatch::FocusWindow(w));
    let hm = dispatch_lua_head(Dispatch::FocusMonitor(m));
    let hs = dispatch_lua_head(Dispatch::FocusWorkspace(ws, b));
    let hd = dispatch_lua_head(Dispatch::FocusDirection(dir));
    assert(hw.len() == 24 && hm.len() == 25 && hs.len() == 27 && hd.len() == 27);
    assert(hs[15] == 'w' && hd[15] == 'd');
}

/// The tag each way of naming a window begins with; the three named
/// windows are given whole.
pub open spec fn window_ident_tag(w: WindowIdentifier) -> Seq<char> {
    match w {
        WindowIdentifier::ClassRegularExpression(_) => "class:"@,
        WindowIdentifier::InitialClassRegularExpression(_) => "initialclass:"@,
        WindowIdentifier::TitleRegularExpression(_) => "title:"@,
        WindowIdentifier::InitialTitleRegularExpression(_) => "initialtitle:"@,
        WindowIdentifier::TagRegularExpression(_) => "tag:"@,
        WindowIdentifier::ProcessId(_) => "pid:"@,
        WindowIdentifier::Address(_) => "address:"@,
        WindowIdentifier::ActiveWindow => "activewindow"@,
        WindowIdentifier::Floating => "floating"@,
        WindowIdentifier::Tiled => "tiled"@,
    }
}

/// The text naming a window begins with the tag of its way of naming it.
pub proof fn law_window_ident_text_starts_with_its_tag(w: WindowIdentifier)
    ensures
        prefix_of(window_ident_tag(w), window_ident_text(w)),
{
    let t = window_ident_text(w);
    let g = window_ident_tag(w);
    assert(t.take(g.len() as int) =~= g);
}

} // verus!
