//! Dispatchers: the commands that make Hyprland act, and the text that
//! asks for each of them on the command socket.
use vstd::prelude::*;
use crate::error::{HyprError, HyprErrorView};
use crate::shared::{Address, CommandContent, CommandFlag, MonitorId, WorkspaceId};
use crate::text::{int_dec, prefix_of, push_i128, push_str};

verus! {

// ---------------------------------------------------------------------
// Parameters
// ---------------------------------------------------------------------

/// This enum is for identifying a window
#[derive(Debug, Clone)]
pub enum WindowIdentifier<'a> {
    /// The address of a window
    Address(Address),
    /// A Regular Expression to match the window class (handled by Hyprland)
    ClassRegularExpression(&'a str),
    /// The window title
    Title(&'a str),
    /// The window's process Id
    ProcessId(u32),
}

/// How a window identifier is written.
pub open spec fn window_text(w: WindowIdentifier) -> Seq<char> {
    match w {
        WindowIdentifier::Address(a) => "address:"@ + a@,
        WindowIdentifier::ClassRegularExpression(r) => r@,
        WindowIdentifier::Title(t) => "title:"@ + t@,
        WindowIdentifier::ProcessId(p) => "pid:"@ + int_dec(p as int),
    }
}

fn push_window(s: &mut String, w: &WindowIdentifier)
    ensures
        final(s)@ == old(s)@ + window_text(*w),
{
    match w {
        WindowIdentifier::Address(a) => {
            push_str(s, "address:");
            push_str(s, a.0.as_str());
        },
        WindowIdentifier::ClassRegularExpression(r) => push_str(s, r),
        WindowIdentifier::Title(t) => {
            push_str(s, "title:");
            push_str(s, t);
        },
        WindowIdentifier::ProcessId(p) => {
            push_str(s, "pid:");
            push_i128(s, *p as i128);
        },
    }
    assert(final(s)@ =~= old(s)@ + window_text(*w));
}

impl<'a> WindowIdentifier<'a> {
    /// The identifier as its `Display` writes it.
    pub fn to_string(&self) -> (res: String)
        ensures
            res@ == window_text(*self),
    {
        let mut s = String::new();
        push_window(&mut s, self);
        assert(s@ =~= window_text(*self));
        s
    }
}

/// This enum holds the fullscreen types
#[derive(Debug, Clone, Copy)]
pub enum FullscreenType {
    /// Fills the whole screen
    Real,
    /// Maximizes the window
    Maximize,
    /// Passes no param
    NoParam,
}

/// How a fullscreen type is written.
pub open spec fn fullscreen_text(f: FullscreenType) -> Seq<char> {
    match f {
        FullscreenType::Real => "0"@,
        FullscreenType::Maximize => "1"@,
        FullscreenType::NoParam => ""@,
    }
}

impl FullscreenType {
    /// The fullscreen type as its `Display` writes it.
    pub fn to_string(&self) -> (res: String)
        ensures
            res@ == fullscreen_text(*self),
    {
        match self {
            FullscreenType::Real => String::from_str("0"),
            FullscreenType::Maximize => String::from_str("1"),
            FullscreenType::NoParam => String::from_str(""),
        }
    }
}

/// This enum holds directions, typically used for moving
#[derive(Debug, Clone, Copy)]
#[allow(missing_docs)]
pub enum Direction {
    Up,
    Down,
    Right,
    Left,
}

/// How a direction is written.
pub open spec fn direction_text(d: Direction) -> Seq<char> {
    match d {
        Direction::Up => "u"@,
        Direction::Down => "d"@,
        Direction::Right => "r"@,
        Direction::Left => "l"@,
    }
}

impl Direction {
    /// The direction as its `Display` writes it.
    pub fn to_string(&self) -> (res: String)
        ensures
            res@ == direction_text(*self),
    {
        match self {
            Direction::Up => String::from_str("u"),
            Direction::Down => String::from_str("d"),
            Direction::Right => String::from_str("r"),
            Direction::Left => String::from_str("l"),
        }
    }
}

/// This enum is used for resizing and moving windows precisely
#[derive(Debug, Clone, Copy)]
pub enum Position {
    /// A delta
    Delta(i16, i16),
    /// The exact size
    Exact(i16, i16),
}

/// How a position is written.
pub open spec fn position_text(p: Position) -> Seq<char> {
    match p {
        Position::Delta(x, y) => int_dec(x as int) + " "@ + int_dec(y as int),
        Position::Exact(w, h) => "exact "@ + int_dec(w as int) + " "@ + int_dec(h as int),
    }
}

fn push_position(s: &mut String, p: &Position)
    ensures
        final(s)@ == old(s)@ + position_text(*p),
{
    match p {
        Position::Delta(x, y) => {
            push_i128(s, *x as i128);
            push_str(s, " ");
            push_i128(s, *y as i128);
        },
        Position::Exact(w, h) => {
            push_str(s, "exact ");
            push_i128(s, *w as i128);
            push_str(s, " ");
            push_i128(s, *h as i128);
        },
    }
    assert(final(s)@ =~= old(s)@ + position_text(*p));
}

impl Position {
    /// The position as its `Display` writes it.
    pub fn to_string(&self) -> (res: String)
        ensures
            res@ == position_text(*self),
    {
        let mut s = String::new();
        push_position(&mut s, self);
        assert(s@ =~= position_text(*self));
        s
    }
}

/// This enum holds a direction for cycling
#[allow(missing_docs)]
#[derive(Debug, Clone, Copy)]
pub enum CycleDirection {
    Next,
    Previous,
}

/// How a cycle direction is written.
pub open spec fn cycle_text(c: CycleDirection) -> Seq<char> {
    match c {
        CycleDirection::Next => ""@,
        CycleDirection::Previous => "prev"@,
    }
}

impl CycleDirection {
    /// The direction as its `Display` writes it.
    pub fn to_string(&self) -> (res: String)
        ensures
            res@ == cycle_text(*self),
    {
        match self {
            CycleDirection::Next => String::from_str(""),
            CycleDirection::Previous => String::from_str("prev"),
        }
    }
}

/// This enum holds a direction for switch windows in a group
#[allow(missing_docs)]
#[derive(Debug, Clone, Copy)]
pub enum WindowSwitchDirection {
    Back,
    Forward,
}

/// How a group switch direction is written.
pub open spec fn switch_text(d: WindowSwitchDirection) -> Seq<char> {
    match d {
        WindowSwitchDirection::Back => "b"@,
        WindowSwitchDirection::Forward => "f"@,
    }
}

impl WindowSwitchDirection {
    /// The direction as its `Display` writes it.
    pub fn to_string(&self) -> (res: String)
        ensures
            res@ == switch_text(*self),
    {
        match self {
            WindowSwitchDirection::Back => String::from_str("b"),
            WindowSwitchDirection::Forward => String::from_str("f"),
        }
    }
}

/// How a relative move is written: the prefix, `+` and the number for a
/// positive one, the prefix, `-` and the magnitude for a negative one, and
/// `+0` (without the prefix) for zero.
pub open spec fn relative_text(i: int, extra: Seq<char>) -> Seq<char> {
    if i > 0 {
        extra + "+"@ + int_dec(i)
    } else if i < 0 {
        extra + "-"@ + int_dec(-i)
    } else {
        "+0"@
    }
}

/// Writes a relative move; the magnitude of the smallest `i32` has no
/// `i32`, so that one value is not accepted.
pub fn format_relative(n: i32, extra: &str) -> (res: String)
    requires
        n != i32::MIN,
    ensures
        res@ == relative_text(n as int, extra@),
{
    let mut s = String::new();
    push_relative(&mut s, n, extra);
    assert(s@ =~= relative_text(n as int, extra@));
    s
}

fn push_relative(s: &mut String, n: i32, extra: &str)
    requires
        n != i32::MIN,
    ensures
        final(s)@ == old(s)@ + relative_text(n as int, extra@),
{
    if n > 0 {
        push_str(s, extra);
        push_str(s, "+");
        push_i128(s, n as i128);
    } else if n < 0 {
        push_str(s, extra);
        push_str(s, "-");
        push_i128(s, (-n) as i128);
    } else {
        push_str(s, "+0");
    }
    assert(final(s)@ =~= old(s)@ + relative_text(n as int, extra@));
}

/// This enum is used for identifying monitors
#[derive(Debug, Clone)]
pub enum MonitorIdentifier<'a> {
    /// The monitor that is to the specified direction of the active one
    Direction(Direction),
    /// The monitor id
    Id(MonitorId),
    /// The monitor name
    Name(&'a str),
    /// The current monitor
    Current,
    /// The workspace relative to the current workspace
    Relative(i32),
}

/// How a monitor identifier is written.
pub open spec fn monitor_text(m: MonitorIdentifier) -> Seq<char> {
    match m {
        MonitorIdentifier::Direction(d) => direction_text(d),
        MonitorIdentifier::Id(id) => int_dec(id as int),
        MonitorIdentifier::Name(n) => n@,
        MonitorIdentifier::Current => "current"@,
        MonitorIdentifier::Relative(i) => relative_text(i as int, ""@),
    }
}

/// Whether a monitor identifier can be written: a relative one may not be
/// the smallest `i32`.
pub open spec fn monitor_ok(m: MonitorIdentifier) -> bool {
    match m {
        MonitorIdentifier::Relative(i) => i != i32::MIN,
        _ => true,
    }
}

fn push_monitor(s: &mut String, m: &MonitorIdentifier)
    requires
        monitor_ok(*m),
    ensures
        final(s)@ == old(s)@ + monitor_text(*m),
{
    match m {
        MonitorIdentifier::Direction(d) => {
            let t = d.to_string();
            push_str(s, t.as_str());
        },
        MonitorIdentifier::Id(id) => push_i128(s, *id),
        MonitorIdentifier::Name(n) => push_str(s, n),
        MonitorIdentifier::Current => push_str(s, "current"),
        MonitorIdentifier::Relative(i) => push_relative(s, *i, ""),
    }
}

impl<'a> MonitorIdentifier<'a> {
    /// The identifier as its `Display` writes it.
    pub fn to_string(&self) -> (res: String)
        requires
            monitor_ok(*self),
        ensures
            res@ == monitor_text(*self),
    {
        let mut s = String::new();
        push_monitor(&mut s, self);
        assert(s@ =~= monitor_text(*self));
        s
    }
}

/// This enum holds corners
#[allow(missing_docs)]
#[derive(Debug, Clone, Copy)]
pub enum Corner {
    BottomLeft,
    BottomRight,
    TopRight,
    TopLeft,
}

/// The number of a corner.
pub open spec fn corner_number(c: Corner) -> u8 {
    match c {
        Corner::BottomLeft => 0,
        Corner::BottomRight => 1,
        Corner::TopRight => 2,
        Corner::TopLeft => 3,
    }
}

impl Corner {
    /// The number of the corner.
    pub fn number(&self) -> (res: u8)
        ensures
            res == corner_number(*self),
    {
        match self {
            Corner::BottomLeft => 0,
            Corner::BottomRight => 1,
            Corner::TopRight => 2,
            Corner::TopLeft => 3,
        }
    }
}

/// This enum holds options that are applied to the current workspace
#[derive(Debug, Clone, Copy)]
pub enum WorkspaceOptions {
    /// Makes all windows pseudo tiled
    AllPseudo,
    /// Makes all windows float
    AllFloat,
}

/// How a workspace option is written: `allpseudo` or `allfloat`.
pub open spec fn workspace_option_text(o: WorkspaceOptions) -> Seq<char> {
    match o {
        WorkspaceOptions::AllPseudo => "allpseudo"@,
        WorkspaceOptions::AllFloat => "allfloat"@,
    }
}

impl WorkspaceOptions {
    /// The option as its `Display` writes it.
    pub fn to_string(&self) -> (res: String)
        ensures
            res@ == workspace_option_text(*self),
    {
        match self {
            WorkspaceOptions::AllPseudo => String::from_str("allpseudo"),
            WorkspaceOptions::AllFloat => String::from_str("allfloat"),
        }
    }
}

/// This enum is for identifying workspaces that also includes the special workspace
#[derive(Debug, Clone, Copy, PartialEq, Eq)]
pub enum WorkspaceIdentifierWithSpecial<'a> {
    /// The workspace Id
    Id(WorkspaceId),
    /// The workspace relative to the current workspace
    Relative(i32),
    /// The workspace on the monitor relative to the current workspace
    RelativeMonitor(i32),
    /// The workspace on the monitor relative to the current workspace, including empty workspaces
    RelativeMonitorIncludingEmpty(i32),
    /// The open workspace relative to the current workspace
    RelativeOpen(i32),
    /// The previous Workspace
    Previous,
    /// The first available empty workspace
    Empty,
    /// The name of the workspace
    Name(&'a str),
    /// The special workspace
    Special(Option<&'a str>),
}

/// How a workspace identifier (special workspace included) is written.
pub open spec fn workspace_special_text(w: WorkspaceIdentifierWithSpecial) -> Seq<char> {
    match w {
        WorkspaceIdentifierWithSpecial::Id(id) => int_dec(id as int),
        WorkspaceIdentifierWithSpecial::Relative(i) => relative_text(i as int, ""@),
        WorkspaceIdentifierWithSpecial::RelativeMonitor(i) => relative_text(i as int, "m"@),
        WorkspaceIdentifierWithSpecial::RelativeMonitorIncludingEmpty(i) => relative_text(i as int, "r"@),
        WorkspaceIdentifierWithSpecial::RelativeOpen(i) => relative_text(i as int, "e"@),
        WorkspaceIdentifierWithSpecial::Previous => "previous"@,
        WorkspaceIdentifierWithSpecial::Empty => "empty"@,
        WorkspaceIdentifierWithSpecial::Name(n) => "name:"@ + n@,
        WorkspaceIdentifierWithSpecial::Special(None) => "special"@,
        WorkspaceIdentifierWithSpecial::Special(Some(n)) => "special"@ + ":"@ + n@,
    }
}

/// Whether a workspace identifier (special workspace included) can be
/// written: a relative one may not be the smallest `i32`.
pub open spec fn workspace_special_ok(w: WorkspaceIdentifierWithSpecial) -> bool {
    match w {
        WorkspaceIdentifierWithSpecial::Relative(i) => i != i32::MIN,
        WorkspaceIdentifierWithSpecial::RelativeMonitor(i) => i != i32::MIN,
        WorkspaceIdentifierWithSpecial::RelativeMonitorIncludingEmpty(i) => i != i32::MIN,
        WorkspaceIdentifierWithSpecial::RelativeOpen(i) => i != i32::MIN,
        _ => true,
    }
}

fn push_workspace_special(s: &mut String, w: &WorkspaceIdentifierWithSpecial)
    requires
        workspace_special_ok(*w),
    ensures
        final(s)@ == old(s)@ + workspace_special_text(*w),
{
    match w {
        WorkspaceIdentifierWithSpecial::Id(id) => push_i128(s, *id as i128),
        WorkspaceIdentifierWithSpecial::Relative(i) => push_relative(s, *i, ""),
        WorkspaceIdentifierWithSpecial::RelativeMonitor(i) => push_relative(s, *i, "m"),
        WorkspaceIdentifierWithSpecial::RelativeMonitorIncludingEmpty(i) => push_relative(s, *i, "r"),
        WorkspaceIdentifierWithSpecial::RelativeOpen(i) => push_relative(s, *i, "e"),
        WorkspaceIdentifierWithSpecial::Previous => push_str(s, "previous"),
        WorkspaceIdentifierWithSpecial::Empty => push_str(s, "empty"),
        WorkspaceIdentifierWithSpecial::Name(n) => {
            push_str(s, "name:");
            push_str(s, n);
        },
        WorkspaceIdentifierWithSpecial::Special(None) => push_str(s, "special"),
        WorkspaceIdentifierWithSpecial::Special(Some(n)) => {
            push_str(s, "special");
            push_str(s, ":");
            push_str(s, n);
        },
    }
    assert(final(s)@ =~= old(s)@ + workspace_special_text(*w));
}

impl<'a> WorkspaceIdentifierWithSpecial<'a> {
    /// The identifier as its `Display` writes it.
    pub fn to_string(&self) -> (res: String)
        requires
            workspace_special_ok(*self),
        ensures
            res@ == workspace_special_text(*self),
    {
        let mut s = String::new();
        push_workspace_special(&mut s, self);
        assert(s@ =~= workspace_special_text(*self));
        s
    }
}

/// This enum is for identifying workspaces
#[derive(Debug, Clone, Copy, PartialEq, Eq)]
pub enum WorkspaceIdentifier<'a> {
    /// The workspace Id
    Id(WorkspaceId),
    /// The workspace relative to the current workspace
    Relative(i32),
    /// The workspace on the monitor relative to the current workspace
    RelativeMonitor(i32),
    /// The workspace on the monitor relative to the current workspace, including empty workspaces
    RelativeMonitorIncludingEmpty(i32),
    /// The open workspace relative to the current workspace
    RelativeOpen(i32),
    /// The previous Workspace
    Previous,
    /// The first available empty workspace
    Empty,
    /// The name of the workspace
    Name(&'a str),
}

/// How a workspace identifier is written.
pub open spec fn workspace_ident_text(w: WorkspaceIdentifier) -> Seq<char> {
    match w {
        WorkspaceIdentifier::Id(id) => int_dec(id as int),
        WorkspaceIdentifier::Name(n) => "name:"@ + n@,
        WorkspaceIdentifier::Relative(i) => relative_text(i as int, ""@),
        WorkspaceIdentifier::RelativeMonitor(i) => relative_text(i as int, "m"@),
        WorkspaceIdentifier::RelativeMonitorIncludingEmpty(i) => relative_text(i as int, "r"@),
        WorkspaceIdentifier::RelativeOpen(i) => relative_text(i as int, "e"@),
        WorkspaceIdentifier::Previous => "previous"@,
        WorkspaceIdentifier::Empty => "empty"@,
    }
}

/// Whether a workspace identifier can be written: a relative one may not
/// be the smallest `i32`.
pub open spec fn workspace_ident_ok(w: WorkspaceIdentifier) -> bool {
    match w {
        WorkspaceIdentifier::Relative(i) => i != i32::MIN,
        WorkspaceIdentifier::RelativeMonitor(i) => i != i32::MIN,
        WorkspaceIdentifier::RelativeMonitorIncludingEmpty(i) => i != i32::MIN,
        WorkspaceIdentifier::RelativeOpen(i) => i != i32::MIN,
        _ => true,
    }
}

fn push_workspace_ident(s: &mut String, w: &WorkspaceIdentifier)
    requires
        workspace_ident_ok(*w),
    ensures
        final(s)@ == old(s)@ + workspace_ident_text(*w),
{
    match w {
        WorkspaceIdentifier::Id(id) => push_i128(s, *id as i128),
        WorkspaceIdentifier::Name(n) => {
            push_str(s, "name:");
            push_str(s, n);
        },
        WorkspaceIdentifier::Relative(i) => push_relative(s, *i, ""),
        WorkspaceIdentifier::RelativeMonitor(i) => push_relative(s, *i, "m"),
        WorkspaceIdentifier::RelativeMonitorIncludingEmpty(i) => push_relative(s, *i, "r"),
        WorkspaceIdentifier::RelativeOpen(i) => push_relative(s, *i, "e"),
        WorkspaceIdentifier::Previous => push_str(s, "previous"),
        WorkspaceIdentifier::Empty => push_str(s, "empty"),
    }
    assert(final(s)@ =~= old(s)@ + workspace_ident_text(*w));
}

impl<'a> WorkspaceIdentifier<'a> {
    /// The identifier as its `Display` writes it.
    pub fn to_string(&self) -> (res: String)
        requires
            workspace_ident_ok(*self),
        ensures
            res@ == workspace_ident_text(*self),
    {
        let mut s = String::new();
        push_workspace_ident(&mut s, self);
        assert(s@ =~= workspace_ident_text(*self));
        s
    }
}

/// This enum is the params to [DispatchType::MoveWindow] dispatcher
#[derive(Debug, Clone)]
pub enum WindowMove<'a> {
    /// Moves the window to a specified monitor
    Monitor(MonitorIdentifier<'a>),
    /// Moves the window in a specified direction
    Direction(Direction),
}

/// Enum used with [DispatchType::LockGroups], to determine how to lock/unlock
#[derive(Debug, Clone, Copy, PartialEq, Eq)]
pub enum LockType {
    /// Lock Group
    Lock,
    /// Unlock Group
    Unlock,
    /// Toggle lock state of Group
    ToggleLock,
}

/// How a lock type is written.
pub open spec fn lock_text(l: LockType) -> Seq<char> {
    match l {
        LockType::Lock => "lock"@,
        LockType::Unlock => "unlock"@,
        LockType::ToggleLock => "toggle"@,
    }
}

impl LockType {
    /// The lock type as its `Display` writes it.
    pub fn to_string(&self) -> (res: String)
        ensures
            res@ == lock_text(*self),
    {
        match self {
            LockType::Lock => String::from_str("lock"),
            LockType::Unlock => String::from_str("unlock"),
            LockType::ToggleLock => String::from_str("toggle"),
        }
    }
}

/// Param for [DispatchType::SwapWithMaster] dispatcher
#[derive(Debug, Clone, Copy, PartialEq, Eq)]
pub enum SwapWithMasterParam {
    /// New focus is the new master window
    Master,
    /// New focus is the new child
    Child,
    /// Keep the focus of the previously focused window
    Auto,
}

/// How a swap-with-master parameter is written.
pub open spec fn swap_master_text(p: SwapWithMasterParam) -> Seq<char> {
    match p {
        SwapWithMasterParam::Master => "master"@,
        SwapWithMasterParam::Child => "child"@,
        SwapWithMasterParam::Auto => "auto"@,
    }
}

impl SwapWithMasterParam {
    /// The parameter as its `Display` writes it.
    pub fn to_string(&self) -> (res: String)
        ensures
            res@ == swap_master_text(*self),
    {
        match self {
            SwapWithMasterParam::Master => String::from_str("master"),
            SwapWithMasterParam::Child => String::from_str("child"),
            SwapWithMasterParam::Auto => String::from_str("auto"),
        }
    }
}

/// Param for [DispatchType::FocusMaster] dispatcher
#[derive(Debug, Clone, Copy, PartialEq, Eq)]
pub enum FocusMasterParam {
    /// Focus stays at master, (even if it was selected before)
    Master,
    /// If the current window is the master, focuses the first child
    Auto,
}

/// How a focus-master parameter is written.
pub open spec fn focus_master_text(p: FocusMasterParam) -> Seq<char> {
    match p {
        FocusMasterParam::Master => "master"@,
        FocusMasterParam::Auto => "auto"@,
    }
}

impl FocusMasterParam {
    /// The parameter as its `Display` writes it.
    pub fn to_string(&self) -> (res: String)
        ensures
            res@ == focus_master_text(*self),
    {
        match self {
            FocusMasterParam::Master => String::from_str("master"),
            FocusMasterParam::Auto => String::from_str("auto"),
        }
    }
}

// ---------------------------------------------------------------------
// Dispatchers
// ---------------------------------------------------------------------

/// This enum holds every dispatcher
#[derive(Debug, Clone)]
pub enum DispatchType<'a> {
    /// This lets you use dispatchers not supported by this library yet, please make issues before
    /// using
    Custom(
        /// Name of event
        &'a str,
        /// Args
        &'a str,
    ),
    /// This dispatcher changes the current cursor
    SetCursor(
        /// The cursor theme
        &'a str,
        /// The size
        u16,
    ),
    /// This dispatcher executes a program
    Exec(&'a str),
    /// This dispatcher passes a keybind to a window when called in a
    /// keybind, its used for global keybinds. And should **ONLY** be used with keybinds
    Pass(WindowIdentifier<'a>),
    /// Executes a Global Shortcut using the GlobalShortcuts portal.
    Global(&'a str),
    /// This dispatcher kills the active window/client
    KillActiveWindow,
    /// This dispatcher closes the specified window
    CloseWindow(WindowIdentifier<'a>),
    /// This dispatcher changes the current workspace
    Workspace(WorkspaceIdentifierWithSpecial<'a>),
    /// This dispatcher moves a window (focused if not specified) to a workspace
    MoveToWorkspace(WorkspaceIdentifierWithSpecial<'a>, Option<WindowIdentifier<'a>>),
    /// This dispatcher moves a window (focused if not specified) to a workspace, without switching to that
    /// workspace
    MoveToWorkspaceSilent(WorkspaceIdentifierWithSpecial<'a>, Option<WindowIdentifier<'a>>),
    /// This dispatcher floats a window (current if not specified)
    ToggleFloating(Option<WindowIdentifier<'a>>),
    /// This dispatcher toggles the current window fullscreen state
    ToggleFullscreen(FullscreenType),
    /// This dispatcher toggles the focused window's internal
    /// fullscreen state without altering the geometry
    ToggleFakeFullscreen,
    /// This dispatcher sets the DPMS status for all monitors
    ToggleDPMS(bool, Option<&'a str>),
    /// This dispatcher toggles pseudo tiling for the current window
    TogglePseudo,
    /// This dispatcher pins the active window to all workspaces
    TogglePin,
    /// This dispatcher moves the window focus in a specified direction
    MoveFocus(Direction),
    /// This dispatcher moves the current window to a monitor or in a specified direction
    MoveWindow(WindowMove<'a>),
    /// This dispatcher centers the active window
    CenterWindow,
    /// This dispatcher resizes the active window using a [Position] enum
    ResizeActive(Position),
    /// This dispatcher moves the active window using a [Position] enum
    MoveActive(Position),
    /// This dispatcher resizes the specified window using a [Position] enum
    ResizeWindowPixel(Position, WindowIdentifier<'a>),
    /// This dispatcher moves the specified window using a [Position] enum
    MoveWindowPixel(Position, WindowIdentifier<'a>),
    /// This dispatcher cycles windows using a specified direction
    CycleWindow(CycleDirection),
    /// This dispatcher swaps the focused window with the window on a workspace using a specified direction
    SwapNext(CycleDirection),
    /// This dispatcher swaps windows using a specified direction
    SwapWindow(Direction),
    /// This dispatcher focuses a specified window
    FocusWindow(WindowIdentifier<'a>),
    /// This dispatcher focuses a specified monitor
    FocusMonitor(MonitorIdentifier<'a>),
    /// This dispatcher changed the split ratio; the ratio is given as the
    /// decimal text Hyprland reads
    ChangeSplitRatio(String),
    /// This dispatcher toggle opacity for the current window/client
    ToggleOpaque,
    /// This dispatcher moves the cursor to a specified corner of a window
    MoveCursorToCorner(Corner),
    /// This dispatcher moves the cursor to a specified position
    /// (x, y) where x starts from left to right, and y starts from top to bottom
    MoveCursor(i64, i64),
    /// This dispatcher applied a option to all windows in a workspace
    WorkspaceOption(WorkspaceOptions),
    /// This dispatcher renames a workspace
    RenameWorkspace(WorkspaceId, Option<&'a str>),
    /// This exits Hyprland **(DANGEROUS)**
    Exit,
    /// This dispatcher forces the renderer to reload
    ForceRendererReload,
    /// This dispatcher moves the current workspace to a specified monitor
    MoveCurrentWorkspaceToMonitor(MonitorIdentifier<'a>),
    /// This dispatcher moves a specified workspace to a specified monitor
    MoveWorkspaceToMonitor(WorkspaceIdentifier<'a>, MonitorIdentifier<'a>),
    /// This dispatcher swaps the active workspaces of two monitors
    SwapActiveWorkspaces(MonitorIdentifier<'a>, MonitorIdentifier<'a>),
    /// This dispatcher brings the active window to the top of the stack
    BringActiveToTop,
    /// This toggles the special workspace (AKA scratchpad)
    ToggleSpecialWorkspace(Option<String>),
    /// This dispatcher jump to urgent or the last window
    FocusUrgentOrLast,
    /// Switch focus from current to previously focused window
    FocusCurrentOrLast,
    /// Toggles the split (top/side) of the current window. `preserve_split` must be enabled for toggling to work.
    ToggleSplit,
    /// Swaps the current window with master.
    /// If the current window is the master,
    /// swaps it with the first child.
    SwapWithMaster(SwapWithMasterParam),
    /// Focuses the master window.
    FocusMaster(FocusMasterParam),
    /// Adds a master to the master side. That will be the active window,
    /// if it's not a master, or the first non-master window.
    AddMaster,
    /// Removes a master from the master side. That will be the
    /// active window, if it's a master, or the last master window.
    RemoveMaster,
    /// Sets the orientation for the current workspace to left
    OrientationLeft,
    /// Sets the orientation for the current workspace to right
    OrientationRight,
    /// Sets the orientation for the current workspace to top
    OrientationTop,
    /// Sets the orientation for the current workspace to bottom
    OrientationBottom,
    /// Sets the orientation for the current workspace to center
    OrientationCenter,
    /// Cycle to the next orientation for the current workspace (clockwise)
    OrientationNext,
    /// Cycle to the previous orientation for the current workspace (counter-clockwise)
    OrientationPrev,
    /// Toggles the current active window into a group
    ToggleGroup,
    /// Switches to the next window in a group.
    ChangeGroupActive(WindowSwitchDirection),
    /// Locks the groups
    LockGroups(LockType),
    /// Moves the active window into a group in a specified direction
    MoveIntoGroup(Direction),
    /// Moves the active window out of a group.
    MoveOutOfGroup,
}

/// An optional name, or nothing.
pub open spec fn opt_text(o: Option<&str>) -> Seq<char> {
    match o {
        Some(t) => t@,
        None => ""@,
    }
}

fn push_opt(s: &mut String, o: &Option<&str>)
    ensures
        final(s)@ == old(s)@ + opt_text(*o),
{
    match o {
        Some(t) => push_str(s, t),
        None => {
            proof {
                reveal_strlit("");
            }
            assert(old(s)@ + ""@ =~= old(s)@);
        },
    }
}

/// The new name a workspace rename gives: the name, or the id's text.
pub open spec fn rename_text(id: WorkspaceId, name: Option<&str>) -> Seq<char> {
    match name {
        Some(n) => n@,
        None => int_dec(id as int),
    }
}

/// Where a window is moved to.
pub open spec fn window_move_text(m: WindowMove) -> Seq<char> {
    match m {
        WindowMove::Direction(d) => direction_text(d),
        WindowMove::Monitor(mon) => "mon:"@ + monitor_text(mon),
    }
}

/// The text of a dispatcher, with `sep` between its name and its
/// arguments.
pub open spec fn dispatch_text(cmd: DispatchType, sep: Seq<char>) -> Seq<char> {
    match cmd {
        DispatchType::Custom(name, args) => name@ + sep + args@,
        DispatchType::Exec(sh) => "exec"@ + sep + sh@,
        DispatchType::Pass(win) => "pass"@ + sep + window_text(win),
        DispatchType::Global(name) => "global"@ + sep + name@,
        DispatchType::KillActiveWindow => "killactive"@,
        DispatchType::CloseWindow(win) => "closewindow"@ + sep + window_text(win),
        DispatchType::Workspace(work) => "workspace"@ + sep + workspace_special_text(work),
        DispatchType::MoveToWorkspace(work, Some(win)) =>
            "movetoworkspace"@ + sep + workspace_special_text(work) + ","@ + window_text(win),
        DispatchType::MoveToWorkspace(work, None) => "movetoworkspace"@ + sep + workspace_special_text(work),
        DispatchType::MoveToWorkspaceSilent(work, Some(win)) =>
            "movetoworkspacesilent"@ + sep + workspace_special_text(work) + ","@ + window_text(win),
        DispatchType::MoveToWorkspaceSilent(work, None) =>
            "movetoworkspacesilent"@ + sep + workspace_special_text(work),
        DispatchType::ToggleFloating(Some(v)) => "togglefloating"@ + sep + window_text(v),
        DispatchType::ToggleFloating(None) => "togglefloating"@,
        DispatchType::ToggleFullscreen(f) => "fullscreen"@ + sep + fullscreen_text(f),
        DispatchType::ToggleFakeFullscreen => "fakefullscreen"@,
        DispatchType::ToggleDPMS(stat, mon) =>
            "dpms"@ + sep + (if stat { "on"@ } else { "off"@ }) + " "@ + opt_text(mon),
        DispatchType::TogglePseudo => "pseudo"@,
        DispatchType::TogglePin => "pin"@,
        DispatchType::MoveFocus(dir) => "movefocus"@ + sep + direction_text(dir),
        DispatchType::MoveWindow(ident) => "movewindow"@ + sep + window_move_text(ident),
        DispatchType::CenterWindow => "centerwindow"@,
        DispatchType::ResizeActive(pos) => "resizeactive"@ + sep + position_text(pos),
        DispatchType::MoveActive(pos) => "moveactive "@ + position_text(pos),
        DispatchType::ResizeWindowPixel(pos, win) =>
            "resizewindowpixel"@ + sep + position_text(pos) + ","@ + window_text(win),
        DispatchType::MoveWindowPixel(pos, win) =>
            "movewindowpixel"@ + sep + position_text(pos) + ","@ + window_text(win),
        DispatchType::CycleWindow(dir) => "cyclenext"@ + sep + cycle_text(dir),
        DispatchType::SwapNext(dir) => "swapnext"@ + sep + cycle_text(dir),
        DispatchType::SwapWindow(dir) => "swapwindow"@ + sep + direction_text(dir),
        DispatchType::FocusWindow(win) => "focuswindow"@ + sep + window_text(win),
        DispatchType::FocusMonitor(mon) => "focusmonitor"@ + sep + monitor_text(mon),
        DispatchType::ChangeSplitRatio(ratio) => "splitratio "@ + ratio@,
        DispatchType::ToggleOpaque => "toggleopaque"@,
        DispatchType::MoveCursorToCorner(corner) =>
            "movecursortocorner"@ + sep + int_dec(corner_number(corner) as int),
        DispatchType::MoveCursor(x, y) => "movecursor"@ + sep + int_dec(x as int) + " "@ + int_dec(y as int),
        DispatchType::WorkspaceOption(opt) => "workspaceopt"@ + sep + workspace_option_text(opt),
        DispatchType::Exit => "exit"@,
        DispatchType::ForceRendererReload => "forcerendererreload"@,
        DispatchType::MoveCurrentWorkspaceToMonitor(mon) =>
            "movecurrentworkspacetomonitor"@ + sep + monitor_text(mon),
        DispatchType::MoveWorkspaceToMonitor(work, mon) =>
            "moveworkspacetomonitor"@ + sep + workspace_ident_text(work) + " "@ + monitor_text(mon),
        DispatchType::ToggleSpecialWorkspace(Some(name)) => "togglespecialworkspace "@ + name@,
        DispatchType::ToggleSpecialWorkspace(None) => "togglespecialworkspace"@,
        DispatchType::RenameWorkspace(id, name) =>
            "renameworkspace"@ + sep + int_dec(id as int) + " "@ + rename_text(id, name),
        DispatchType::SwapActiveWorkspaces(mon, mon2) =>
            "swapactiveworkspaces"@ + sep + monitor_text(mon) + " "@ + monitor_text(mon2),
        DispatchType::BringActiveToTop => "bringactivetotop"@,
        DispatchType::SetCursor(theme, size) => theme@ + " "@ + int_dec(size as int),
        DispatchType::FocusUrgentOrLast => "focusurgentorlast"@,
        DispatchType::FocusCurrentOrLast => "focuscurrentorlast"@,
        DispatchType::ToggleSplit => "layoutmsg togglesplit"@,
        DispatchType::SwapWithMaster(param) => "layoutmsg swapwithmaster"@ + sep + swap_master_text(param),
        DispatchType::FocusMaster(param) => "layoutmsg focusmaster"@ + sep + focus_master_text(param),
        DispatchType::AddMaster => "layoutmsg addmaster"@,
        DispatchType::RemoveMaster => "layoutmsg removemaster"@,
        DispatchType::OrientationLeft => "layoutmsg orientationleft"@,
        DispatchType::OrientationRight => "layoutmsg orientationright"@,
        DispatchType::OrientationTop => "layoutmsg orientationtop"@,
        DispatchType::OrientationBottom => "layoutmsg orientationbottom"@,
        DispatchType::OrientationCenter => "layoutmsg orientationcenter"@,
        DispatchType::OrientationNext => "layoutmsg orientationnext"@,
        DispatchType::OrientationPrev => "layoutmsg orientationprev"@,
        DispatchType::ToggleGroup => "togglegroup"@,
        DispatchType::ChangeGroupActive(dir) => "changegroupactive"@ + sep + switch_text(dir),
        DispatchType::LockGroups(how) => "lockgroups"@ + sep + lock_text(how),
        DispatchType::MoveIntoGroup(dir) => "moveintogroup"@ + sep + direction_text(dir),
        DispatchType::MoveOutOfGroup => "moveoutofgroup"@,
    }
}

/// The name Hyprland knows each dispatcher by; a custom dispatcher is named
/// by its own name, and a cursor change by its theme.
pub open spec fn dispatcher_name(cmd: DispatchType) -> Seq<char> {
    match cmd {
        DispatchType::Custom(name, _) => name@,
        DispatchType::Exec(_) => "exec"@,
        DispatchType::Pass(_) => "pass"@,
        DispatchType::Global(_) => "global"@,
        DispatchType::KillActiveWindow => "killactive"@,
        DispatchType::CloseWindow(_) => "closewindow"@,
        DispatchType::Workspace(_) => "workspace"@,
        DispatchType::MoveToWorkspace(_, _) => "movetoworkspace"@,
        DispatchType::MoveToWorkspaceSilent(_, _) => "movetoworkspacesilent"@,
        DispatchType::ToggleFloating(_) => "togglefloating"@,
        DispatchType::ToggleFullscreen(_) => "fullscreen"@,
        DispatchType::ToggleFakeFullscreen => "fakefullscreen"@,
        DispatchType::ToggleDPMS(_, _) => "dpms"@,
        DispatchType::TogglePseudo => "pseudo"@,
        DispatchType::TogglePin => "pin"@,
        DispatchType::MoveFocus(_) => "movefocus"@,
        DispatchType::MoveWindow(_) => "movewindow"@,
        DispatchType::CenterWindow => "centerwindow"@,
        DispatchType::ResizeActive(_) => "resizeactive"@,
        DispatchType::MoveActive(_) => "moveactive"@,
        DispatchType::ResizeWindowPixel(_, _) => "resizewindowpixel"@,
        DispatchType::MoveWindowPixel(_, _) => "movewindowpixel"@,
        DispatchType::CycleWindow(_) => "cyclenext"@,
        DispatchType::SwapNext(_) => "swapnext"@,
        DispatchType::SwapWindow(_) => "swapwindow"@,
        DispatchType::FocusWindow(_) => "focuswindow"@,
        DispatchType::FocusMonitor(_) => "focusmonitor"@,
        DispatchType::ChangeSplitRatio(_) => "splitratio"@,
        DispatchType::ToggleOpaque => "toggleopaque"@,
        DispatchType::MoveCursorToCorner(_) => "movecursortocorner"@,
        DispatchType::MoveCursor(_, _) => "movecursor"@,
        DispatchType::WorkspaceOption(_) => "workspaceopt"@,
        DispatchType::Exit => "exit"@,
        DispatchType::ForceRendererReload => "forcerendererreload"@,
        DispatchType::MoveCurrentWorkspaceToMonitor(_) => "movecurrentworkspacetomonitor"@,
        DispatchType::MoveWorkspaceToMonitor(_, _) => "moveworkspacetomonitor"@,
        DispatchType::ToggleSpecialWorkspace(_) => "togglespecialworkspace"@,
        DispatchType::RenameWorkspace(_, _) => "renameworkspace"@,
        DispatchType::SwapActiveWorkspaces(_, _) => "swapactiveworkspaces"@,
        DispatchType::BringActiveToTop => "bringactivetotop"@,
        DispatchType::SetCursor(theme, _) => theme@,
        DispatchType::FocusUrgentOrLast => "focusurgentorlast"@,
        DispatchType::FocusCurrentOrLast => "focuscurrentorlast"@,
        DispatchType::ToggleSplit => "layoutmsg togglesplit"@,
        DispatchType::SwapWithMaster(_) => "layoutmsg swapwithmaster"@,
        DispatchType::FocusMaster(_) => "layoutmsg focusmaster"@,
        DispatchType::AddMaster => "layoutmsg addmaster"@,
        DispatchType::RemoveMaster => "layoutmsg removemaster"@,
        DispatchType::OrientationLeft => "layoutmsg orientationleft"@,
        DispatchType::OrientationRight => "layoutmsg orientationright"@,
        DispatchType::OrientationTop => "layoutmsg orientationtop"@,
        DispatchType::OrientationBottom => "layoutmsg orientationbottom"@,
        DispatchType::OrientationCenter => "layoutmsg orientationcenter"@,
        DispatchType::OrientationNext => "layoutmsg orientationnext"@,
        DispatchType::OrientationPrev => "layoutmsg orientationprev"@,
        DispatchType::ToggleGroup => "togglegroup"@,
        DispatchType::ChangeGroupActive(_) => "changegroupactive"@,
        DispatchType::LockGroups(_) => "lockgroups"@,
        DispatchType::MoveIntoGroup(_) => "moveintogroup"@,
        DispatchType::MoveOutOfGroup => "moveoutofgroup"@,
    }
}

/// The text of a dispatcher starts with the dispatcher's name as a whole
/// word: the text is the name alone, or the name is followed by the
/// separator or a space and the arguments.
pub proof fn law_dispatch_text_starts_with_its_name(cmd: DispatchType, sep: Seq<char>)
    ensures
        ({
            let t = dispatch_text(cmd, sep);
            let w = dispatcher_name(cmd);
            t == w || prefix_of(w + sep, t) || prefix_of(w + " "@, t)
        }),
{
    reveal_strlit(" ");
    reveal_strlit("moveactive");
    reveal_strlit("moveactive ");
    reveal_strlit("splitratio");
    reveal_strlit("splitratio ");
    reveal_strlit("togglespecialworkspace");
    reveal_strlit("togglespecialworkspace ");
    let t = dispatch_text(cmd, sep);
    let w = dispatcher_name(cmd);
    match cmd {
        DispatchType::Custom(_, _) => {
            assert(t.take((w + sep).len() as int) =~= w + sep);
        },
        DispatchType::Exec(_) => {
            assert(t.take((w + sep).len() as int) =~= w + sep);
        },
        DispatchType::Pass(_) => {
            assert(t.take((w + sep).len() as int) =~= w + sep);
        },
        DispatchType::Global(_) => {
            assert(t.take((w + sep).len() as int) =~= w + sep);
        },
        DispatchType::KillActiveWindow => {},
        DispatchType::CloseWindow(_) => {
            assert(t.take((w + sep).len() as int) =~= w + sep);
        },
        DispatchType::Workspace(_) => {
            assert(t.take((w + sep).len() as int) =~= w + sep);
        },
        DispatchType::MoveToWorkspace(_, Some(_)) => {
            assert(t.take((w + sep).len() as int) =~= w + sep);
        },
        DispatchType::MoveToWorkspace(_, None) => {
            assert(t.take((w + sep).len() as int) =~= w + sep);
        },
        DispatchType::MoveToWorkspaceSilent(_, Some(_)) => {
            assert(t.take((w + sep).len() as int) =~= w + sep);
        },
        DispatchType::MoveToWorkspaceSilent(_, None) => {
            assert(t.take((w + sep).len() as int) =~= w + sep);
        },
        DispatchType::ToggleFloating(Some(_)) => {
            assert(t.take((w + sep).len() as int) =~= w + sep);
        },
        DispatchType::ToggleFloating(None) => {},
        DispatchType::ToggleFullscreen(_) => {
            assert(t.take((w + sep).len() as int) =~= w + sep);
        },
        DispatchType::ToggleFakeFullscreen => {},
        DispatchType::ToggleDPMS(_, _) => {
            assert(t.take((w + sep).len() as int) =~= w + sep);
        },
        DispatchType::TogglePseudo => {},
        DispatchType::TogglePin => {},
        DispatchType::MoveFocus(_) => {
            assert(t.take((w + sep).len() as int) =~= w + sep);
        },
        DispatchType::MoveWindow(_) => {
            assert(t.take((w + sep).len() as int) =~= w + sep);
        },
        DispatchType::CenterWindow => {},
        DispatchType::ResizeActive(_) => {
            assert(t.take((w + sep).len() as int) =~= w + sep);
        },
        DispatchType::MoveActive(_) => {
            assert(t.take((w + " "@).len() as int) =~= w + " "@);
        },
        DispatchType::ResizeWindowPixel(_, _) => {
            assert(t.take((w + sep).len() as int) =~= w + sep);
        },
        DispatchType::MoveWindowPixel(_, _) => {
            assert(t.take((w + sep).len() as int) =~= w + sep);
        },
        DispatchType::CycleWindow(_) => {
            assert(t.take((w + sep).len() as int) =~= w + sep);
        },
        DispatchType::SwapNext(_) => {
            assert(t.take((w + sep).len() as int) =~= w + sep);
        },
        DispatchType::SwapWindow(_) => {
            assert(t.take((w + sep).len() as int) =~= w + sep);
        },
        DispatchType::FocusWindow(_) => {
            assert(t.take((w + sep).len() as int) =~= w + sep);
        },
        DispatchType::FocusMonitor(_) => {
            assert(t.take((w + sep).len() as int) =~= w + sep);
        },
        DispatchType::ChangeSplitRatio(_) => {
            assert(t.take((w + " "@).len() as int) =~= w + " "@);
        },
        DispatchType::ToggleOpaque => {},
        DispatchType::MoveCursorToCorner(_) => {
            assert(t.take((w + sep).len() as int) =~= w + sep);
        },
        DispatchType::MoveCursor(_, _) => {
            assert(t.take((w + sep).len() as int) =~= w + sep);
        },
        DispatchType::WorkspaceOption(_) => {
            assert(t.take((w + sep).len() as int) =~= w + sep);
        },
        DispatchType::Exit => {},
        DispatchType::ForceRendererReload => {},
        DispatchType::MoveCurrentWorkspaceToMonitor(_) => {
            assert(t.take((w + sep).len() as int) =~= w + sep);
        },
        DispatchType::MoveWorkspaceToMonitor(_, _) => {
            assert(t.take((w + sep).len() as int) =~= w + sep);
        },
        DispatchType::ToggleSpecialWorkspace(Some(_)) => {
            assert(t.take((w + " "@).len() as int) =~= w + " "@);
        },
        DispatchType::ToggleSpecialWorkspace(None) => {},
        DispatchType::RenameWorkspace(_, _) => {
            assert(t.take((w + sep).len() as int) =~= w + sep);
        },
        DispatchType::SwapActiveWorkspaces(_, _) => {
            assert(t.take((w + sep).len() as int) =~= w + sep);
        },
        DispatchType::BringActiveToTop => {},
        DispatchType::SetCursor(_, _) => {
            assert(t.take((w + " "@).len() as int) =~= w + " "@);
        },
        DispatchType::FocusUrgentOrLast => {},
        DispatchType::FocusCurrentOrLast => {},
        DispatchType::ToggleSplit => {},
        DispatchType::SwapWithMaster(_) => {
            assert(t.take((w + sep).len() as int) =~= w + sep);
        },
        DispatchType::FocusMaster(_) => {
            assert(t.take((w + sep).len() as int) =~= w + sep);
        },
        DispatchType::AddMaster => {},
        DispatchType::RemoveMaster => {},
        DispatchType::OrientationLeft => {},
        DispatchType::OrientationRight => {},
        DispatchType::OrientationTop => {},
        DispatchType::OrientationBottom => {},
        DispatchType::OrientationCenter => {},
        DispatchType::OrientationNext => {},
        DispatchType::OrientationPrev => {},
        DispatchType::ToggleGroup => {},
        DispatchType::ChangeGroupActive(_) => {
            assert(t.take((w + sep).len() as int) =~= w + sep);
        },
        DispatchType::LockGroups(_) => {
            assert(t.take((w + sep).len() as int) =~= w + sep);
        },
        DispatchType::MoveIntoGroup(_) => {
            assert(t.take((w + sep).len() as int) =~= w + sep);
        },
        DispatchType::MoveOutOfGroup => {},
    }
}

/// Whether a dispatcher can be written: none of its relative moves is the
/// smallest `i32`.
pub open spec fn dispatch_ok(cmd: DispatchType) -> bool {
    match cmd {
        DispatchType::Workspace(work) => workspace_special_ok(work),
        DispatchType::MoveToWorkspace(work, _) => workspace_special_ok(work),
        DispatchType::MoveToWorkspaceSilent(work, _) => workspace_special_ok(work),
        DispatchType::MoveWindow(WindowMove::Monitor(mon)) => monitor_ok(mon),
        DispatchType::FocusMonitor(mon) => monitor_ok(mon),
        DispatchType::MoveCurrentWorkspaceToMonitor(mon) => monitor_ok(mon),
        DispatchType::MoveWorkspaceToMonitor(work, mon) => workspace_ident_ok(work) && monitor_ok(mon),
        DispatchType::SwapActiveWorkspaces(mon, mon2) => monitor_ok(mon) && monitor_ok(mon2),
        _ => true,
    }
}

/// The separator between a dispatcher's name and its arguments: a space on
/// the dispatch socket, a comma in a key binding.
pub open spec fn dispatch_sep(dispatch: bool) -> Seq<char> {
    if dispatch { " "@ } else { ","@ }
}

/// The command that asks for a dispatcher: `setcursor` and the cursor for
/// a cursor change, `dispatch` and the text on the dispatch socket, the
/// bare text otherwise.
pub open spec fn dispatch_command(cmd: DispatchType, dispatch: bool) -> (CommandFlag, Seq<char>) {
    let text = dispatch_text(cmd, dispatch_sep(dispatch));
    match cmd {
        DispatchType::SetCursor(_, _) => (CommandFlag::JSON, "setcursor "@ + text),
        _ => if dispatch {
            (CommandFlag::JSON, "dispatch "@ + text)
        } else {
            (CommandFlag::Empty, text)
        },
    }
}

/// Writes the text of a dispatcher.
fn dispatch_string(cmd: &DispatchType, sep: &str) -> (res: String)
    requires
        dispatch_ok(*cmd),
    ensures
        res@ == dispatch_text(*cmd, sep@),
{
    match cmd {
        DispatchType::Custom(name, args) => {
            let mut s = String::from_str(name);
            push_str(&mut s, sep);
            push_str(&mut s, args);
            s
        },
        DispatchType::Exec(sh) => {
            let mut s = String::from_str("exec");
            push_str(&mut s, sep);
            push_str(&mut s, sh);
            s
        },
        DispatchType::Pass(win) => {
            let mut s = String::from_str("pass");
            push_str(&mut s, sep);
            push_window(&mut s, win);
            s
        },
        DispatchType::Global(name) => {
            let mut s = String::from_str("global");
            push_str(&mut s, sep);
            push_str(&mut s, name);
            s
        },
        DispatchType::KillActiveWindow => String::from_str("killactive"),
        DispatchType::CloseWindow(win) => {
            let mut s = String::from_str("closewindow");
            push_str(&mut s, sep);
            push_window(&mut s, win);
            s
        },
        DispatchType::Workspace(work) => {
            let mut s = String::from_str("workspace");
            push_str(&mut s, sep);
            push_workspace_special(&mut s, work);
            s
        },
        DispatchType::MoveToWorkspace(work, Some(win)) => {
            let mut s = String::from_str("movetoworkspace");
            push_str(&mut s, sep);
            push_workspace_special(&mut s, work);
            push_str(&mut s, ",");
            push_window(&mut s, win);
            s
        },
        DispatchType::MoveToWorkspace(work, None) => {
            let mut s = String::from_str("movetoworkspace");
            push_str(&mut s, sep);
            push_workspace_special(&mut s, work);
            s
        },
        DispatchType::MoveToWorkspaceSilent(work, Some(win)) => {
            let mut s = String::from_str("movetoworkspacesilent");
            push_str(&mut s, sep);
            push_workspace_special(&mut s, work);
            push_str(&mut s, ",");
            push_window(&mut s, win);
            s
        },
        DispatchType::MoveToWorkspaceSilent(work, None) => {
            let mut s = String::from_str("movetoworkspacesilent");
            push_str(&mut s, sep);
            push_workspace_special(&mut s, work);
            s
        },
        DispatchType::ToggleFloating(Some(v)) => {
            let mut s = String::from_str("togglefloating");
            push_str(&mut s, sep);
            push_window(&mut s, v);
            s
        },
        DispatchType::ToggleFloating(None) => String::from_str("togglefloating"),
        DispatchType::ToggleFullscreen(f) => {
            let mut s = String::from_str("fullscreen");
            push_str(&mut s, sep);
            let t = f.to_string();
            push_str(&mut s, t.as_str());
            s
        },
        DispatchType::ToggleFakeFullscreen => String::from_str("fakefullscreen"),
        DispatchType::ToggleDPMS(stat, mon) => {
            let mut s = String::from_str("dpms");
            push_str(&mut s, sep);
            if *stat {
                push_str(&mut s, "on");
            } else {
                push_str(&mut s, "off");
            }
            push_str(&mut s, " ");
            push_opt(&mut s, mon);
            s
        },
        DispatchType::TogglePseudo => String::from_str("pseudo"),
        DispatchType::TogglePin => String::from_str("pin"),
        DispatchType::MoveFocus(dir) => {
            let mut s = String::from_str("movefocus");
            push_str(&mut s, sep);
            let t = dir.to_string();
            push_str(&mut s, t.as_str());
            s
        },
        DispatchType::MoveWindow(ident) => {
            let mut s = String::from_str("movewindow");
            push_str(&mut s, sep);
            match ident {
                WindowMove::Direction(dir) => {
                    let t = dir.to_string();
                    push_str(&mut s, t.as_str());
                },
                WindowMove::Monitor(mon) => {
                    let ghost before = s@;
                    push_str(&mut s, "mon:");
                    push_monitor(&mut s, mon);
                    assert(s@ =~= before + window_move_text(*ident));
                },
            }
            s
        },
        DispatchType::CenterWindow => String::from_str("centerwindow"),
        DispatchType::ResizeActive(pos) => {
            let mut s = String::from_str("resizeactive");
            push_str(&mut s, sep);
            push_position(&mut s, pos);
            s
        },
        DispatchType::MoveActive(pos) => {
            let mut s = String::from_str("moveactive ");
            push_position(&mut s, pos);
            s
        },
        DispatchType::ResizeWindowPixel(pos, win) => {
            let mut s = String::from_str("resizewindowpixel");
            push_str(&mut s, sep);
            push_position(&mut s, pos);
            push_str(&mut s, ",");
            push_window(&mut s, win);
            s
        },
        DispatchType::MoveWindowPixel(pos, win) => {
            let mut s = String::from_str("movewindowpixel");
            push_str(&mut s, sep);
            push_position(&mut s, pos);
            push_str(&mut s, ",");
            push_window(&mut s, win);
            s
        },
        DispatchType::CycleWindow(dir) => {
            let mut s = String::from_str("cyclenext");
            push_str(&mut s, sep);
            let t = dir.to_string();
            push_str(&mut s, t.as_str());
            s
        },
        DispatchType::SwapNext(dir) => {
            let mut s = String::from_str("swapnext");
            push_str(&mut s, sep);
            let t = dir.to_string();
            push_str(&mut s, t.as_str());
            s
        },
        DispatchType::SwapWindow(dir) => {
            let mut s = String::from_str("swapwindow");
            push_str(&mut s, sep);
            let t = dir.to_string();
            push_str(&mut s, t.as_str());
            s
        },
        DispatchType::FocusWindow(win) => {
            let mut s = String::from_str("focuswindow");
            push_str(&mut s, sep);
            push_window(&mut s, win);
            s
        },
        DispatchType::FocusMonitor(mon) => {
            let mut s = String::from_str("focusmonitor");
            push_str(&mut s, sep);
            push_monitor(&mut s, mon);
            s
        },
        DispatchType::ChangeSplitRatio(ratio) => {
            let mut s = String::from_str("splitratio ");
            push_str(&mut s, ratio.as_str());
            s
        },
        DispatchType::ToggleOpaque => String::from_str("toggleopaque"),
        DispatchType::MoveCursorToCorner(corner) => {
            let mut s = String::from_str("movecursortocorner");
            push_str(&mut s, sep);
            push_i128(&mut s, corner.number() as i128);
            s
        },
        DispatchType::MoveCursor(x, y) => {
            let mut s = String::from_str("movecursor");
            push_str(&mut s, sep);
            push_i128(&mut s, *x as i128);
            push_str(&mut s, " ");
            push_i128(&mut s, *y as i128);
            s
        },
        DispatchType::WorkspaceOption(opt) => {
            let mut s = String::from_str("workspaceopt");
            push_str(&mut s, sep);
            let t = opt.to_string();
            push_str(&mut s, t.as_str());
            s
        },
        DispatchType::Exit => String::from_str("exit"),
        DispatchType::ForceRendererReload => String::from_str("forcerendererreload"),
        DispatchType::MoveCurrentWorkspaceToMonitor(mon) => {
            let mut s = String::from_str("movecurrentworkspacetomonitor");
            push_str(&mut s, sep);
            push_monitor(&mut s, mon);
            s
        },
        DispatchType::MoveWorkspaceToMonitor(work, mon) => {
            let mut s = String::from_str("moveworkspacetomonitor");
            push_str(&mut s, sep);
            push_workspace_ident(&mut s, work);
            push_str(&mut s, " ");
            push_monitor(&mut s, mon);
            s
        },
        DispatchType::ToggleSpecialWorkspace(Some(name)) => {
            let mut s = String::from_str("togglespecialworkspace ");
            push_str(&mut s, name.as_str());
            s
        },
        DispatchType::ToggleSpecialWorkspace(None) => String::from_str("togglespecialworkspace"),
        DispatchType::RenameWorkspace(id, name) => {
            let mut s = String::from_str("renameworkspace");
            push_str(&mut s, sep);
            push_i128(&mut s, *id as i128);
            push_str(&mut s, " ");
            match name {
                Some(n) => push_str(&mut s, n),
                None => push_i128(&mut s, *id as i128),
            }
            s
        },
        DispatchType::SwapActiveWorkspaces(mon, mon2) => {
            let mut s = String::from_str("swapactiveworkspaces");
            push_str(&mut s, sep);
            push_monitor(&mut s, mon);
            push_str(&mut s, " ");
            push_monitor(&mut s, mon2);
            s
        },
        DispatchType::BringActiveToTop => String::from_str("bringactivetotop"),
        DispatchType::SetCursor(theme, size) => {
            let mut s = String::from_str(theme);
            push_str(&mut s, " ");
            push_i128(&mut s, *size as i128);
            s
        },
        DispatchType::FocusUrgentOrLast => String::from_str("focusurgentorlast"),
        DispatchType::FocusCurrentOrLast => String::from_str("focuscurrentorlast"),
        DispatchType::ToggleSplit => String::from_str("layoutmsg togglesplit"),
        DispatchType::SwapWithMaster(param) => {
            let mut s = String::from_str("layoutmsg swapwithmaster");
            push_str(&mut s, sep);
            let t = param.to_string();
            push_str(&mut s, t.as_str());
            s
        },
        DispatchType::FocusMaster(param) => {
            let mut s = String::from_str("layoutmsg focusmaster");
            push_str(&mut s, sep);
            let t = param.to_string();
            push_str(&mut s, t.as_str());
            s
        },
        DispatchType::AddMaster => String::from_str("layoutmsg addmaster"),
        DispatchType::RemoveMaster => String::from_str("layoutmsg removemaster"),
        DispatchType::OrientationLeft => String::from_str("layoutmsg orientationleft"),
        DispatchType::OrientationRight => String::from_str("layoutmsg orientationright"),
        DispatchType::OrientationTop => String::from_str("layoutmsg orientationtop"),
        DispatchType::OrientationBottom => String::from_str("layoutmsg orientationbottom"),
        DispatchType::OrientationCenter => String::from_str("layoutmsg orientationcenter"),
        DispatchType::OrientationNext => String::from_str("layoutmsg orientationnext"),
        DispatchType::OrientationPrev => String::from_str("layoutmsg orientationprev"),
        DispatchType::ToggleGroup => String::from_str("togglegroup"),
        DispatchType::ChangeGroupActive(dir) => {
            let mut s = String::from_str("changegroupactive");
            push_str(&mut s, sep);
            let t = dir.to_string();
            push_str(&mut s, t.as_str());
            s
        },
        DispatchType::LockGroups(how) => {
            let mut s = String::from_str("lockgroups");
            push_str(&mut s, sep);
            let t = how.to_string();
            push_str(&mut s, t.as_str());
            s
        },
        DispatchType::MoveIntoGroup(dir) => {
            let mut s = String::from_str("moveintogroup");
            push_str(&mut s, sep);
            let t = dir.to_string();
            push_str(&mut s, t.as_str());
            s
        },
        DispatchType::MoveOutOfGroup => String::from_str("moveoutofgroup"),
    }
}

/// The command that asks Hyprland for a dispatcher: on the dispatch
/// socket (`dispatch`) its name and arguments are parted by a space, in a
/// key binding by a comma.
pub fn gen_dispatch_str(cmd: DispatchType, dispatch: bool) -> (res: Result<CommandContent, HyprError>)
    requires
        dispatch_ok(cmd),
    ensures
        res matches Ok(c) && (c.flag, c.data@) == dispatch_command(cmd, dispatch),
{
    let sep = if dispatch { " " } else { "," };
    assert(sep@ == dispatch_sep(dispatch));
    let string_to_pass = dispatch_string(&cmd, sep);
    if let DispatchType::SetCursor(_, _) = cmd {
        let mut data = String::from_str("setcursor ");
        push_str(&mut data, string_to_pass.as_str());
        Ok(CommandContent { flag: CommandFlag::JSON, data })
    } else if dispatch {
        let mut data = String::from_str("dispatch ");
        push_str(&mut data, string_to_pass.as_str());
        Ok(CommandContent { flag: CommandFlag::JSON, data })
    } else {
        Ok(CommandContent { flag: CommandFlag::Empty, data: string_to_pass })
    }
}

/// The struct that provides all dispatching methods
pub struct Dispatch;

/// What a dispatcher's reply means: `ok` is success, anything else is
/// the reason it failed.
pub open spec fn dispatch_reply(msg: Seq<char>) -> Result<(), HyprErrorView> {
    if msg == "ok"@ {
        Ok(())
    } else {
        Err(HyprErrorView::NotOkDispatch(msg))
    }
}

impl Dispatch {
    /// Reads Hyprland's reply to a dispatcher.
    pub fn reply(msg: &str) -> (res: Result<(), HyprError>)
        ensures
            match dispatch_reply(msg@) {
                Ok(()) => res is Ok,
                Err(e) => res matches Err(r) && r@ == e,
            },
    {
        let v = crate::text::chars_of(msg);
        if crate::text::chars_eq_str(&v, "ok") {
            Ok(())
        } else {
            Err(HyprError::NotOkDispatch(String::from_str(msg)))
        }
    }
}

} // verus!
