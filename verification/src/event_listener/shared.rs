//! Events read from Hyprland's event socket: their data, the reading of
//! the socket's text into events, and the merging of the two active-window
//! events into one.
use vstd::prelude::*;
use crate::error::{HyprError, HyprErrorView};
use crate::shared::{
    Address, MonitorId, WorkspaceId, WorkspaceType, WorkspaceTypeView, address_text,
};
use crate::text::{
    chars_eq_str, chars_of, find_char_from, find_pair, index_of, index_of_pair, int_dec,
    int_error_message, int_error_text, lemma_index_of_pair, lemma_parse_int_range, lines, lines_of, nat_dec,
    parse_int, parse_int_chars, push_str, push_u128, slice_of, split_all, split_char,
    splitn_all, splitn_char, starts_with_str, string_of, trim, trim_chars, views,
};

verus! {

/// Event data for screencast event
#[derive(Debug, Clone, Copy, PartialEq, Eq)]
pub struct ScreencastEventData {
    /// State/Is it turning on?
    pub turning_on: bool,
    /// Owner type, is it a monitor?
    pub monitor: bool,
}

/// The data for the event executed when moving a window to a new workspace
#[derive(Debug, Clone, PartialEq, Eq)]
pub struct WindowMoveEvent {
    /// Window address
    pub window_address: Address,
    /// the workspace id
    pub workspace_id: WorkspaceId,
    /// The workspace name
    pub workspace_name: WorkspaceType,
}

/// The data for the event executed when opening a new window
#[derive(Debug, Clone, PartialEq, Eq)]
pub struct WindowOpenEvent {
    /// Window address
    pub window_address: Address,
    /// The workspace name
    pub workspace_name: String,
    /// Window class
    pub window_class: String,
    /// Window title
    pub window_title: String,
}

/// The data for the event executed when changing keyboard layouts
#[derive(Debug, Clone, PartialEq, Eq)]
pub struct LayoutEvent {
    /// Keyboard name
    pub keyboard_name: String,
    /// Layout name
    pub layout_name: String,
}

/// This struct holds workspace event data
#[derive(Debug, Clone, PartialEq, Eq)]
pub struct WorkspaceEventData {
    /// The workspace name
    pub name: WorkspaceType,
    /// The window id
    pub id: WorkspaceId,
}

/// This struct holds workspace event data
/// when the workspace cannot be special
#[derive(Debug, Clone, PartialEq, Eq)]
pub struct NonSpecialWorkspaceEventData {
    /// The workspace name
    pub name: String,
    /// The window id
    pub id: WorkspaceId,
}

/// This struct holds workspace moved event data
#[derive(Debug, Clone, PartialEq, Eq)]
pub struct WorkspaceMovedEventData {
    /// The workspace name
    pub name: WorkspaceType,
    /// The window id
    pub id: WorkspaceId,
    /// The monitor name
    pub monitor: String,
}

/// This struct holds window event data
#[derive(Debug, Clone, PartialEq, Eq)]
pub struct WindowEventData {
    /// The window class
    pub class: String,
    /// The window title
    pub title: String,
    /// The window address
    pub address: Address,
}

/// This struct holds monitor event data
#[derive(Debug, Clone, PartialEq, Eq)]
pub struct MonitorEventData {
    /// The monitor name
    pub monitor_name: String,
    /// The workspace name
    pub workspace_name: Option<WorkspaceType>,
}

/// This struct holds changed special event data
#[derive(Debug, Clone, PartialEq, Eq)]
pub struct ChangedSpecialEventData {
    /// The monitor name
    pub monitor_name: String,
    /// The workspace name
    pub workspace_name: String,
}

/// This struct holds monitor event data
#[derive(Debug, Clone, PartialEq, Eq)]
pub struct MonitorAddedEventData {
    /// The monitor's id
    pub id: MonitorId,
    /// The monitor's name
    pub name: String,
    /// the monitor's description
    pub description: String,
}

/// This struct holds window float event data
#[derive(Debug, Clone, PartialEq, Eq)]
pub struct WindowFloatEventData {
    /// The window address
    pub address: Address,
    /// The float state
    pub floating: bool,
}

/// This struct holds window pin event data
#[derive(Debug, Clone, PartialEq, Eq)]
pub struct WindowPinEventData {
    /// The window address
    pub address: Address,
    /// The pin state
    pub pinned: bool,
}

/// This struct holds the event data for the windowtitle changed event
#[derive(Debug, Clone, PartialEq, Eq)]
pub struct WindowTitleEventData {
    /// The window address
    pub address: Address,
    /// The window title
    pub title: String,
}

/// This struct represents an event this library does not know
/// this allows you to use events that this library does not implement.
#[derive(Debug, Clone, PartialEq, Eq)]
pub struct UnknownEventData {
    /// The event's name
    pub name: String,
    /// The args as a string
    pub args: String,
}

/// The texts of a sequence of strings.
pub open spec fn string_views(v: Seq<String>) -> Seq<Seq<char>> {
    v.map_values(|x: String| x@)
}

impl UnknownEventData {
    /// Takes the amount of args, and splits the string correctly: at most
    /// `count` pieces parted by commas, the last holding the rest.
    pub fn parse_args(self, count: usize) -> (res: Vec<String>)
        ensures
            string_views(res@) == splitn_char(self.args@, count as nat, ','),
    {
        let v = chars_of(self.args.as_str());
        let pieces = splitn_all(&v, count, ',');
        let mut out: Vec<String> = Vec::new();
        let mut i: usize = 0;
        while i < pieces.len()
            invariant
                i <= pieces.len(),
                views(pieces@) == splitn_char(self.args@, count as nat, ','),
                out.len() == i,
                forall|j: int| 0 <= j < i ==> #[trigger] out@[j]@ == pieces@[j]@,
            decreases pieces.len() - i,
        {
            out.push(string_of(&pieces[i]));
            i = i + 1;
        }
        assert(string_views(out@) =~= views(pieces@));
        out
    }
}

/// This struct holds the data for the `GroupToggled` event
#[derive(Debug, Clone, PartialEq, Eq)]
pub struct GroupToggledEventData {
    /// The toggle status, `false` means the group was destroyed
    pub toggled: bool,
    /// The window addresses associated with the group
    pub window_addresses: Vec<Address>,
}

/// This enum holds every event type
#[derive(Debug, Clone, PartialEq, Eq)]
pub enum Event {
    /// An unknown event
    Unknown(UnknownEventData),
    /// The current workspace changed (`workspacev2`)
    WorkspaceChanged(WorkspaceEventData),
    /// A workspace was destroyed (`destroyworkspacev2`)
    WorkspaceDeleted(WorkspaceEventData),
    /// A workspace was created (`createworkspacev2`)
    WorkspaceAdded(WorkspaceEventData),
    /// A workspace moved to another monitor (`moveworkspacev2`)
    WorkspaceMoved(WorkspaceMovedEventData),
    /// A workspace was renamed (`renameworkspace`)
    WorkspaceRenamed(NonSpecialWorkspaceEventData),
    /// Internal intermediary event (`activewindow`)
    ActiveWindowChangedV1(Option<(String, String)>),
    /// Internal intermediary event (`activewindowv2`)
    ActiveWindowChangedV2(Option<Address>),
    /// The active window changed; the merge of `activewindow` and `activewindowv2`
    ActiveWindowChanged(Option<WindowEventData>),
    /// The active monitor changed (`focusedmon`)
    ActiveMonitorChanged(MonitorEventData),
    /// The fullscreen state changed (`fullscreen`)
    FullscreenStateChanged(bool),
    /// A monitor was added (`monitoraddedv2`)
    MonitorAdded(MonitorAddedEventData),
    /// A monitor was removed (`monitorremoved`)
    MonitorRemoved(String),
    /// A window was opened (`openwindow`)
    WindowOpened(WindowOpenEvent),
    /// A window was closed (`closewindow`)
    WindowClosed(Address),
    /// A window moved to another workspace (`movewindowv2`)
    WindowMoved(WindowMoveEvent),
    /// A special workspace was closed on a monitor (`activespecial`)
    SpecialRemoved(String),
    /// The special workspace of a monitor changed (`activespecial`)
    ChangedSpecial(ChangedSpecialEventData),
    /// A keyboard layout changed (`activelayout`)
    LayoutChanged(LayoutEvent),
    /// The keybind submap changed (`submap`)
    SubMapChanged(String),
    /// A layer surface was opened (`openlayer`)
    LayerOpened(String),
    /// A layer surface was closed (`closelayer`)
    LayerClosed(String),
    /// The floating state of a window changed (`changefloatingmode`)
    FloatStateChanged(WindowFloatEventData),
    /// A window asked for attention (`urgent`)
    UrgentStateChanged(Address),
    /// A window title changed (`windowtitlev2`)
    WindowTitleChanged(WindowTitleEventData),
    /// The screencopy state changed (`screencast`)
    Screencast(ScreencastEventData),
    /// Hyprland reloaded its configuration (`configreloaded`)
    ConfigReloaded,
    /// `ignoregrouplock` was toggled
    IgnoreGroupLockStateChanged(bool),
    /// `lockgroups` was toggled
    LockGroupsStateChanged(bool),
    /// A window was pinned or unpinned (`pin`)
    WindowPinned(WindowPinEventData),
    /// A group was toggled (`togglegroup`)
    GroupToggled(GroupToggledEventData),
    /// A window moved into a group (`moveintogroup`)
    WindowMovedIntoGroup(Address),
    /// A window moved out of a group (`moveoutofgroup`)
    WindowMovedOutOfGroup(Address),
}

/// The model of an event: each variant holds the texts and numbers of its
/// data, in the order of the data's fields.
pub enum EventView {
    Unknown(Seq<char>, Seq<char>),
    WorkspaceChanged(int, WorkspaceTypeView),
    WorkspaceDeleted(int, WorkspaceTypeView),
    WorkspaceAdded(int, WorkspaceTypeView),
    WorkspaceMoved(int, WorkspaceTypeView, Seq<char>),
    WorkspaceRenamed(int, Seq<char>),
    ActiveWindowChangedV1(Option<(Seq<char>, Seq<char>)>),
    ActiveWindowChangedV2(Option<Seq<char>>),
    /// class, title, address
    ActiveWindowChanged(Option<(Seq<char>, Seq<char>, Seq<char>)>),
    ActiveMonitorChanged(Seq<char>, Option<WorkspaceTypeView>),
    FullscreenStateChanged(bool),
    MonitorAdded(int, Seq<char>, Seq<char>),
    MonitorRemoved(Seq<char>),
    /// address, workspace, class, title
    WindowOpened(Seq<char>, Seq<char>, Seq<char>, Seq<char>),
    WindowClosed(Seq<char>),
    WindowMoved(Seq<char>, int, WorkspaceTypeView),
    SpecialRemoved(Seq<char>),
    /// monitor, workspace
    ChangedSpecial(Seq<char>, Seq<char>),
    LayoutChanged(Seq<char>, Seq<char>),
    SubMapChanged(Seq<char>),
    LayerOpened(Seq<char>),
    LayerClosed(Seq<char>),
    FloatStateChanged(Seq<char>, bool),
    UrgentStateChanged(Seq<char>),
    WindowTitleChanged(Seq<char>, Seq<char>),
    Screencast(bool, bool),
    ConfigReloaded,
    IgnoreGroupLockStateChanged(bool),
    LockGroupsStateChanged(bool),
    WindowPinned(Seq<char>, bool),
    GroupToggled(bool, Seq<Seq<char>>),
    WindowMovedIntoGroup(Seq<char>),
    WindowMovedOutOfGroup(Seq<char>),
}

/// The texts of a sequence of addresses.
pub open spec fn address_views(a: Seq<Address>) -> Seq<Seq<char>> {
    a.map_values(|x: Address| x@)
}

impl View for Event {
    type V = EventView;

    open spec fn view(&self) -> EventView {
        match self {
            Event::Unknown(d) => EventView::Unknown(d.name@, d.args@),
            Event::WorkspaceChanged(d) => EventView::WorkspaceChanged(d.id as int, d.name@),
            Event::WorkspaceDeleted(d) => EventView::WorkspaceDeleted(d.id as int, d.name@),
            Event::WorkspaceAdded(d) => EventView::WorkspaceAdded(d.id as int, d.name@),
            Event::WorkspaceMoved(d) => EventView::WorkspaceMoved(d.id as int, d.name@, d.monitor@),
            Event::WorkspaceRenamed(d) => EventView::WorkspaceRenamed(d.id as int, d.name@),
            Event::ActiveWindowChangedV1(o) => EventView::ActiveWindowChangedV1(
                match o {
                    Some((c, t)) => Some((c@, t@)),
                    None => None,
                },
            ),
            Event::ActiveWindowChangedV2(o) => EventView::ActiveWindowChangedV2(
                match o {
                    Some(a) => Some(a@),
                    None => None,
                },
            ),
            Event::ActiveWindowChanged(o) => EventView::ActiveWindowChanged(
                match o {
                    Some(d) => Some((d.class@, d.title@, d.address@)),
                    None => None,
                },
            ),
            Event::ActiveMonitorChanged(d) => EventView::ActiveMonitorChanged(
                d.monitor_name@,
                match d.workspace_name {
                    Some(w) => Some(w@),
                    None => None,
                },
            ),
            Event::FullscreenStateChanged(b) => EventView::FullscreenStateChanged(*b),
            Event::MonitorAdded(d) => EventView::MonitorAdded(d.id as int, d.name@, d.description@),
            Event::MonitorRemoved(s) => EventView::MonitorRemoved(s@),
            Event::WindowOpened(d) => EventView::WindowOpened(
                d.window_address@,
                d.workspace_name@,
                d.window_class@,
                d.window_title@,
            ),
            Event::WindowClosed(a) => EventView::WindowClosed(a@),
            Event::WindowMoved(d) => EventView::WindowMoved(
                d.window_address@,
                d.workspace_id as int,
                d.workspace_name@,
            ),
            Event::SpecialRemoved(s) => EventView::SpecialRemoved(s@),
            Event::ChangedSpecial(d) => EventView::ChangedSpecial(d.monitor_name@, d.workspace_name@),
            Event::LayoutChanged(d) => EventView::LayoutChanged(d.keyboard_name@, d.layout_name@),
            Event::SubMapChanged(s) => EventView::SubMapChanged(s@),
            Event::LayerOpened(s) => EventView::LayerOpened(s@),
            Event::LayerClosed(s) => EventView::LayerClosed(s@),
            Event::FloatStateChanged(d) => EventView::FloatStateChanged(d.address@, d.floating),
            Event::UrgentStateChanged(a) => EventView::UrgentStateChanged(a@),
            Event::WindowTitleChanged(d) => EventView::WindowTitleChanged(d.address@, d.title@),
            Event::Screencast(d) => EventView::Screencast(d.turning_on, d.monitor),
            Event::ConfigReloaded => EventView::ConfigReloaded,
            Event::IgnoreGroupLockStateChanged(b) => EventView::IgnoreGroupLockStateChanged(*b),
            Event::LockGroupsStateChanged(b) => EventView::LockGroupsStateChanged(*b),
            Event::WindowPinned(d) => EventView::WindowPinned(d.address@, d.pinned),
            Event::GroupToggled(d) => EventView::GroupToggled(
                d.toggled,
                address_views(d.window_addresses@),
            ),
            Event::WindowMovedIntoGroup(a) => EventView::WindowMovedIntoGroup(a@),
            Event::WindowMovedOutOfGroup(a) => EventView::WindowMovedOutOfGroup(a@),
        }
    }
}

// ---------------------------------------------------------------------
// Reading events
// ---------------------------------------------------------------------

/// The events this library knows by name.
#[derive(Debug, Clone, Copy, PartialEq, Eq)]
pub enum ParsedEventType {
    WorkspaceChangedV2,
    WorkspaceDeletedV2,
    WorkspaceAddedV2,
    WorkspaceMovedV2,
    WorkspaceRename,
    ActiveWindowChangedV1,
    ActiveWindowChangedV2,
    ActiveMonitorChanged,
    FullscreenStateChanged,
    MonitorAddedV2,
    MonitorRemoved,
    WindowOpened,
    WindowClosed,
    WindowMovedV2,
    ActiveSpecial,
    LayoutChanged,
    SubMapChanged,
    LayerOpened,
    LayerClosed,
    FloatStateChanged,
    UrgentStateChanged,
    WindowTitleChangedV2,
    Screencast,
    ConfigReloaded,
    IgnoreGroupLock,
    LockGroups,
    Pin,
    ToggleGroup,
    MoveIntoGroup,
    MoveOutOfGroup,
}

/// The table of known events: for an event name, the number of pieces
/// its data is split into at commas (the last piece keeps the rest) and
/// its kind.
pub open spec fn event_kind_spec(name: Seq<char>) -> Option<(nat, ParsedEventType)> {
    if name == "workspacev2"@ { Some((2, ParsedEventType::WorkspaceChangedV2)) }
    else if name == "destroyworkspacev2"@ { Some((2, ParsedEventType::WorkspaceDeletedV2)) }
    else if name == "createworkspacev2"@ { Some((2, ParsedEventType::WorkspaceAddedV2)) }
    else if name == "moveworkspacev2"@ { Some((3, ParsedEventType::WorkspaceMovedV2)) }
    else if name == "renameworkspace"@ { Some((2, ParsedEventType::WorkspaceRename)) }
    else if name == "focusedmon"@ { Some((2, ParsedEventType::ActiveMonitorChanged)) }
    else if name == "activewindow"@ { Some((2, ParsedEventType::ActiveWindowChangedV1)) }
    else if name == "activewindowv2"@ { Some((1, ParsedEventType::ActiveWindowChangedV2)) }
    else if name == "fullscreen"@ { Some((1, ParsedEventType::FullscreenStateChanged)) }
    else if name == "monitorremoved"@ { Some((1, ParsedEventType::MonitorRemoved)) }
    else if name == "monitoraddedv2"@ { Some((3, ParsedEventType::MonitorAddedV2)) }
    else if name == "openwindow"@ { Some((4, ParsedEventType::WindowOpened)) }
    else if name == "closewindow"@ { Some((1, ParsedEventType::WindowClosed)) }
    else if name == "movewindowv2"@ { Some((3, ParsedEventType::WindowMovedV2)) }
    else if name == "activelayout"@ { Some((2, ParsedEventType::LayoutChanged)) }
    else if name == "activespecial"@ { Some((2, ParsedEventType::ActiveSpecial)) }
    else if name == "submap"@ { Some((1, ParsedEventType::SubMapChanged)) }
    else if name == "openlayer"@ { Some((1, ParsedEventType::LayerOpened)) }
    else if name == "closelayer"@ { Some((1, ParsedEventType::LayerClosed)) }
    else if name == "changefloatingmode"@ { Some((2, ParsedEventType::FloatStateChanged)) }
    else if name == "screencast"@ { Some((2, ParsedEventType::Screencast)) }
    else if name == "urgent"@ { Some((1, ParsedEventType::UrgentStateChanged)) }
    else if name == "windowtitlev2"@ { Some((2, ParsedEventType::WindowTitleChangedV2)) }
    else if name == "configreloaded"@ { Some((0, ParsedEventType::ConfigReloaded)) }
    else if name == "ignoregrouplock"@ { Some((1, ParsedEventType::IgnoreGroupLock)) }
    else if name == "lockgroups"@ { Some((1, ParsedEventType::LockGroups)) }
    else if name == "pin"@ { Some((2, ParsedEventType::Pin)) }
    else if name == "togglegroup"@ { Some((2, ParsedEventType::ToggleGroup)) }
    else if name == "moveintogroup"@ { Some((1, ParsedEventType::MoveIntoGroup)) }
    else if name == "moveoutofgroup"@ { Some((1, ParsedEventType::MoveOutOfGroup)) }
    else { None }
}

/// Looks an event name up in the table of known events.
pub fn event_kind(name: &Vec<char>) -> (res: Option<(usize, ParsedEventType)>)
    ensures
        match event_kind_spec(name@) {
            Some((n, t)) => res == Some((n as usize, t)),
            None => res.is_none(),
        },
{
    if chars_eq_str(name, "workspacev2") { Some((2, ParsedEventType::WorkspaceChangedV2)) }
    else if chars_eq_str(name, "destroyworkspacev2") { Some((2, ParsedEventType::WorkspaceDeletedV2)) }
    else if chars_eq_str(name, "createworkspacev2") { Some((2, ParsedEventType::WorkspaceAddedV2)) }
    else if chars_eq_str(name, "moveworkspacev2") { Some((3, ParsedEventType::WorkspaceMovedV2)) }
    else if chars_eq_str(name, "renameworkspace") { Some((2, ParsedEventType::WorkspaceRename)) }
    else if chars_eq_str(name, "focusedmon") { Some((2, ParsedEventType::ActiveMonitorChanged)) }
    else if chars_eq_str(name, "activewindow") { Some((2, ParsedEventType::ActiveWindowChangedV1)) }
    else if chars_eq_str(name, "activewindowv2") { Some((1, ParsedEventType::ActiveWindowChangedV2)) }
    else if chars_eq_str(name, "fullscreen") { Some((1, ParsedEventType::FullscreenStateChanged)) }
    else if chars_eq_str(name, "monitorremoved") { Some((1, ParsedEventType::MonitorRemoved)) }
    else if chars_eq_str(name, "monitoraddedv2") { Some((3, ParsedEventType::MonitorAddedV2)) }
    else if chars_eq_str(name, "openwindow") { Some((4, ParsedEventType::WindowOpened)) }
    else if chars_eq_str(name, "closewindow") { Some((1, ParsedEventType::WindowClosed)) }
    else if chars_eq_str(name, "movewindowv2") { Some((3, ParsedEventType::WindowMovedV2)) }
    else if chars_eq_str(name, "activelayout") { Some((2, ParsedEventType::LayoutChanged)) }
    else if chars_eq_str(name, "activespecial") { Some((2, ParsedEventType::ActiveSpecial)) }
    else if chars_eq_str(name, "submap") { Some((1, ParsedEventType::SubMapChanged)) }
    else if chars_eq_str(name, "openlayer") { Some((1, ParsedEventType::LayerOpened)) }
    else if chars_eq_str(name, "closelayer") { Some((1, ParsedEventType::LayerClosed)) }
    else if chars_eq_str(name, "changefloatingmode") { Some((2, ParsedEventType::FloatStateChanged)) }
    else if chars_eq_str(name, "screencast") { Some((2, ParsedEventType::Screencast)) }
    else if chars_eq_str(name, "urgent") { Some((1, ParsedEventType::UrgentStateChanged)) }
    else if chars_eq_str(name, "windowtitlev2") { Some((2, ParsedEventType::WindowTitleChangedV2)) }
    else if chars_eq_str(name, "configreloaded") { Some((0, ParsedEventType::ConfigReloaded)) }
    else if chars_eq_str(name, "ignoregrouplock") { Some((1, ParsedEventType::IgnoreGroupLock)) }
    else if chars_eq_str(name, "lockgroups") { Some((1, ParsedEventType::LockGroups)) }
    else if chars_eq_str(name, "pin") { Some((2, ParsedEventType::Pin)) }
    else if chars_eq_str(name, "togglegroup") { Some((2, ParsedEventType::ToggleGroup)) }
    else if chars_eq_str(name, "moveintogroup") { Some((1, ParsedEventType::MoveIntoGroup)) }
    else if chars_eq_str(name, "moveoutofgroup") { Some((1, ParsedEventType::MoveOutOfGroup)) }
    else { None }
}

/// The workspace that a workspace text names: `special` is the unnamed
/// special workspace, `special:` followed by a name is the special
/// workspace with the name up to the next colon, and anything else is a
/// regular workspace of that name.
pub open spec fn workspace_of_text(s: Seq<char>) -> WorkspaceTypeView {
    if s == "special"@ {
        WorkspaceTypeView::Special(None)
    } else if s.len() >= 8 && s.take(8) == "special:"@ {
        WorkspaceTypeView::Special(Some(s.skip(8).take(index_of(s.skip(8), ':'))))
    } else {
        WorkspaceTypeView::Regular(s)
    }
}

/// Reads a workspace text.
pub fn parse_string_as_work(s: &Vec<char>) -> (res: WorkspaceType)
    ensures
        res@ == workspace_of_text(s@),
{
    proof {
        reveal_strlit("special:");
    }
    if chars_eq_str(s, "special") {
        WorkspaceType::Special(None)
    } else if starts_with_str(s, "special:") {
        let k = find_char_from(s, 8, ':');
        let name = slice_of(s, 8, k);
        assert(name@ =~= s@.skip(8).take(index_of(s@.skip(8), ':')));
        WorkspaceType::Special(Some(string_of(&name)))
    } else {
        WorkspaceType::Regular(string_of(s))
    }
}

/// Whether the text of a workspace names that workspace again: a regular
/// name must not look like the special workspace, and the name of a special
/// workspace must hold no colon.
pub open spec fn workspace_text_readable(w: WorkspaceTypeView) -> bool {
    match w {
        WorkspaceTypeView::Regular(n) => n != "special"@ && !(n.len() >= 8 && n.take(8) == "special:"@),
        WorkspaceTypeView::Special(None) => true,
        WorkspaceTypeView::Special(Some(n)) => !crate::text::has_char(n, ':'),
    }
}

/// Reading back the text that `WorkspaceType::to_string` writes gives the
/// workspace again, for every workspace whose text is readable.
pub proof fn law_workspace_text_reads_back(w: WorkspaceTypeView)
    requires
        workspace_text_readable(w),
    ensures
        workspace_of_text(crate::shared::workspace_text(w)) == w,
{
    reveal_strlit("special");
    reveal_strlit("special:");
    match w {
        WorkspaceTypeView::Regular(n) => {},
        WorkspaceTypeView::Special(None) => {},
        WorkspaceTypeView::Special(Some(n)) => {
            let t = "special:"@ + n;
            assert(t != "special"@) by {
                assert(t.len() != "special"@.len());
            }
            assert(t.take(8) =~= "special:"@);
            assert(t.skip(8) =~= n);
            crate::text::lemma_index_of(n, ':');
            assert(n.take(n.len() as int) =~= n);
        },
    }
}

/// The error for a missing argument of an event.
pub open spec fn missing_arg(k: nat) -> HyprErrorView {
    HyprErrorView::Internal("could not get the event arg of index "@ + nat_dec(k))
}

/// The `k`-th argument of an event.
pub open spec fn arg_spec(a: Seq<Seq<char>>, k: nat) -> Result<Seq<char>, HyprErrorView> {
    if k < a.len() {
        Ok(a[k as int])
    } else {
        Err(missing_arg(k))
    }
}

/// An integer argument, read as the type with range `min..=max`; the
/// error names the event by `label`.
pub open spec fn int_arg_spec(label: Seq<char>, t: Seq<char>, min: int, max: int) -> Result<int, HyprErrorView> {
    match parse_int(t, 10, true, min, max) {
        Ok(v) => Ok(v),
        Err(e) => Err(HyprErrorView::Internal(label + ": invalid integer error: "@ + int_error_message(e))),
    }
}

/// Whether an argument is the text `1`.
pub open spec fn is_one(t: Seq<char>) -> bool {
    t == "1"@
}

/// The id and workspace of the workspace events: the id in the first
/// argument, the workspace in the second.
pub open spec fn workspace_data_spec(label: Seq<char>, a: Seq<Seq<char>>) -> Result<(int, WorkspaceTypeView), HyprErrorView> {
    match arg_spec(a, 0) {
        Err(e) => Err(e),
        Ok(t0) => match int_arg_spec(label, t0, i32::MIN as int, i32::MAX as int) {
            Err(e) => Err(e),
            Ok(id) => match arg_spec(a, 1) {
                Err(e) => Err(e),
                Ok(t1) => Ok((id, workspace_of_text(t1))),
            },
        },
    }
}

/// The event that a known event kind makes of its arguments.
pub open spec fn data_event_spec(t: ParsedEventType, a: Seq<Seq<char>>) -> Result<EventView, HyprErrorView> {
    match t {
        ParsedEventType::WorkspaceChangedV2 => match workspace_data_spec("WorkspaceChangedV2"@, a) {
            Ok((id, w)) => Ok(EventView::WorkspaceChanged(id, w)),
            Err(e) => Err(e),
        },
        ParsedEventType::WorkspaceDeletedV2 => match workspace_data_spec("WorkspaceDeletedV2"@, a) {
            Ok((id, w)) => Ok(EventView::WorkspaceDeleted(id, w)),
            Err(e) => Err(e),
        },
        ParsedEventType::WorkspaceAddedV2 => match workspace_data_spec("WorkspaceAddedV2"@, a) {
            Ok((id, w)) => Ok(EventView::WorkspaceAdded(id, w)),
            Err(e) => Err(e),
        },
        ParsedEventType::WorkspaceMovedV2 => match workspace_data_spec("WorkspaceMovedV2"@, a) {
            Err(e) => Err(e),
            Ok((id, w)) => match arg_spec(a, 2) {
                Err(e) => Err(e),
                Ok(m) => Ok(EventView::WorkspaceMoved(id, w, m)),
            },
        },
        ParsedEventType::WorkspaceRename => match arg_spec(a, 0) {
            Err(e) => Err(e),
            Ok(t0) => match int_arg_spec("WorkspaceRenamed"@, t0, i32::MIN as int, i32::MAX as int) {
                Err(e) => Err(e),
                Ok(id) => match arg_spec(a, 1) {
                    Err(e) => Err(e),
                    Ok(n) => Ok(EventView::WorkspaceRenamed(id, n)),
                },
            },
        },
        ParsedEventType::ActiveMonitorChanged => match arg_spec(a, 0) {
            Err(e) => Err(e),
            Ok(m) => match arg_spec(a, 1) {
                Err(e) => Err(e),
                Ok(w) => Ok(EventView::ActiveMonitorChanged(
                    m,
                    if w == "?"@ { None } else { Some(workspace_of_text(w)) },
                )),
            },
        },
        ParsedEventType::ActiveWindowChangedV1 => match arg_spec(a, 0) {
            Err(e) => Err(e),
            Ok(c) => match arg_spec(a, 1) {
                Err(e) => Err(e),
                Ok(ti) => Ok(EventView::ActiveWindowChangedV1(
                    if c.len() > 0 && ti.len() > 0 { Some((c, ti)) } else { None },
                )),
            },
        },
        ParsedEventType::ActiveWindowChangedV2 => match arg_spec(a, 0) {
            Err(e) => Err(e),
            Ok(x) => Ok(EventView::ActiveWindowChangedV2(
                if x != ","@ { Some(address_text(x)) } else { None },
            )),
        },
        ParsedEventType::FullscreenStateChanged => match arg_spec(a, 0) {
            Err(e) => Err(e),
            Ok(x) => Ok(EventView::FullscreenStateChanged(x != "0"@)),
        },
        ParsedEventType::MonitorRemoved => match arg_spec(a, 0) {
            Err(e) => Err(e),
            Ok(x) => Ok(EventView::MonitorRemoved(x)),
        },
        ParsedEventType::MonitorAddedV2 => match arg_spec(a, 0) {
            Err(e) => Err(e),
            Ok(t0) => match int_arg_spec("MonitorAddedV2"@, t0, i128::MIN as int, i128::MAX as int) {
                Err(e) => Err(e),
                Ok(id) => match arg_spec(a, 1) {
                    Err(e) => Err(e),
                    Ok(n) => match arg_spec(a, 2) {
                        Err(e) => Err(e),
                        Ok(d) => Ok(EventView::MonitorAdded(id, n, d)),
                    },
                },
            },
        },
        ParsedEventType::WindowOpened => match arg_spec(a, 0) {
            Err(e) => Err(e),
            Ok(x0) => match arg_spec(a, 1) {
                Err(e) => Err(e),
                Ok(x1) => match arg_spec(a, 2) {
                    Err(e) => Err(e),
                    Ok(x2) => match arg_spec(a, 3) {
                        Err(e) => Err(e),
                        Ok(x3) => Ok(EventView::WindowOpened(address_text(x0), x1, x2, x3)),
                    },
                },
            },
        },
        ParsedEventType::WindowClosed => match arg_spec(a, 0) {
            Err(e) => Err(e),
            Ok(x) => Ok(EventView::WindowClosed(address_text(x))),
        },
        ParsedEventType::WindowMovedV2 => match arg_spec(a, 0) {
            Err(e) => Err(e),
            Ok(x0) => match arg_spec(a, 1) {
                Err(e) => Err(e),
                Ok(x1) => match int_arg_spec("WindowMoved"@, x1, i32::MIN as int, i32::MAX as int) {
                    Err(e) => Err(e),
                    Ok(id) => match arg_spec(a, 2) {
                        Err(e) => Err(e),
                        Ok(x2) => Ok(EventView::WindowMoved("0x"@ + x0, id, workspace_of_text(x2))),
                    },
                },
            },
        },
        ParsedEventType::ActiveSpecial => match arg_spec(a, 0) {
            Err(e) => Err(e),
            Ok(w) => match arg_spec(a, 1) {
                Err(e) => Err(e),
                Ok(m) => Ok(if w.len() == 0 {
                    EventView::SpecialRemoved(m)
                } else {
                    EventView::ChangedSpecial(m, w)
                }),
            },
        },
        ParsedEventType::LayoutChanged => match arg_spec(a, 0) {
            Err(e) => Err(e),
            Ok(k) => match arg_spec(a, 1) {
                Err(e) => Err(e),
                Ok(l) => Ok(EventView::LayoutChanged(k, l)),
            },
        },
        ParsedEventType::SubMapChanged => match arg_spec(a, 0) {
            Err(e) => Err(e),
            Ok(x) => Ok(EventView::SubMapChanged(x)),
        },
        ParsedEventType::LayerOpened => match arg_spec(a, 0) {
            Err(e) => Err(e),
            Ok(x) => Ok(EventView::LayerOpened(x)),
        },
        ParsedEventType::LayerClosed => match arg_spec(a, 0) {
            Err(e) => Err(e),
            Ok(x) => Ok(EventView::LayerClosed(x)),
        },
        ParsedEventType::FloatStateChanged => match arg_spec(a, 1) {
            Err(e) => Err(e),
            Ok(st) => match arg_spec(a, 0) {
                Err(e) => Err(e),
                Ok(x) => Ok(EventView::FloatStateChanged(address_text(x), st == "0"@)),
            },
        },
        ParsedEventType::Screencast => match arg_spec(a, 0) {
            Err(e) => Err(e),
            Ok(x0) => match arg_spec(a, 1) {
                Err(e) => Err(e),
                Ok(x1) => Ok(EventView::Screencast(is_one(x0), is_one(x1))),
            },
        },
        ParsedEventType::UrgentStateChanged => match arg_spec(a, 0) {
            Err(e) => Err(e),
            Ok(x) => Ok(EventView::UrgentStateChanged(address_text(x))),
        },
        ParsedEventType::WindowTitleChangedV2 => match arg_spec(a, 0) {
            Err(e) => Err(e),
            Ok(x0) => match arg_spec(a, 1) {
                Err(e) => Err(e),
                Ok(x1) => Ok(EventView::WindowTitleChanged(address_text(x0), x1)),
            },
        },
        ParsedEventType::ConfigReloaded => Ok(EventView::ConfigReloaded),
        ParsedEventType::IgnoreGroupLock => match arg_spec(a, 0) {
            Err(e) => Err(e),
            Ok(x) => Ok(EventView::IgnoreGroupLockStateChanged(is_one(x))),
        },
        ParsedEventType::LockGroups => match arg_spec(a, 0) {
            Err(e) => Err(e),
            Ok(x) => Ok(EventView::LockGroupsStateChanged(is_one(x))),
        },
        ParsedEventType::Pin => match arg_spec(a, 0) {
            Err(e) => Err(e),
            Ok(x0) => match arg_spec(a, 1) {
                Err(e) => Err(e),
                Ok(x1) => Ok(EventView::WindowPinned(address_text(x0), is_one(x1))),
            },
        },
        ParsedEventType::ToggleGroup => match arg_spec(a, 0) {
            Err(e) => Err(e),
            Ok(x0) => match arg_spec(a, 1) {
                Err(e) => Err(e),
                Ok(x1) => Ok(EventView::GroupToggled(
                    is_one(x0),
                    split_char(x1, ',').map_values(|p: Seq<char>| address_text(p)),
                )),
            },
        },
        ParsedEventType::MoveIntoGroup => match arg_spec(a, 0) {
            Err(e) => Err(e),
            Ok(x) => Ok(EventView::WindowMovedIntoGroup(address_text(x))),
        },
        ParsedEventType::MoveOutOfGroup => match arg_spec(a, 0) {
            Err(e) => Err(e),
            Ok(x) => Ok(EventView::WindowMovedOutOfGroup(address_text(x))),
        },
    }
}

/// The message for a line that has no `>>`.
pub open spec fn no_event_name_message() -> Seq<char> {
    "could not get event name from Hyprland IPC data (not hyprland-rs)"@
}

/// The event of one line of the event socket: the name before the first
/// `>>` and the data after it; a known name makes its event of the data's
/// pieces, an unknown name makes an unknown event of the name and the data.
pub open spec fn line_event_spec(l: Seq<char>) -> Result<EventView, HyprErrorView> {
    let i = index_of_pair(l, '>', '>');
    if i >= l.len() {
        Err(HyprErrorView::Other(no_event_name_message()))
    } else {
        let name = l.take(i);
        let data = l.skip(i + 2);
        match event_kind_spec(name) {
            Some((n, t)) => data_event_spec(t, splitn_char(data, n, ',')),
            None => Ok(EventView::Unknown(name, data)),
        }
    }
}

/// The events of a sequence of lines, skipping empty lines; the first line
/// that cannot be read gives the error.
pub open spec fn lines_events_spec(ls: Seq<Seq<char>>) -> Result<Seq<EventView>, HyprErrorView>
    decreases ls.len(),
{
    if ls.len() == 0 {
        Ok(Seq::empty())
    } else {
        match lines_events_spec(ls.drop_last()) {
            Err(e) => Err(e),
            Ok(evs) => if ls.last().len() == 0 {
                Ok(evs)
            } else {
                match line_event_spec(ls.last()) {
                    Ok(ev) => Ok(evs.push(ev)),
                    Err(e) => Err(e),
                }
            },
        }
    }
}

/// The events of a text read from the event socket: its lines after
/// trimming surrounding whitespace.
pub open spec fn event_text_spec(text: Seq<char>) -> Result<Seq<EventView>, HyprErrorView> {
    lines_events_spec(lines(trim(text)))
}

/// The model of a parse result.
pub open spec fn event_result_view(r: Result<Event, HyprError>) -> Result<EventView, HyprErrorView> {
    match r {
        Ok(e) => Ok(e@),
        Err(e) => Err(e@),
    }
}

/// The model of the result of reading many events.
pub open spec fn events_result_view(r: Result<Vec<Event>, HyprError>) -> Result<Seq<EventView>, HyprErrorView> {
    match r {
        Ok(v) => Ok(v@.map_values(|e: Event| e@)),
        Err(e) => Err(e@),
    }
}

fn get_arg(a: &Vec<Vec<char>>, k: usize) -> (res: Result<Vec<char>, HyprError>)
    ensures
        match arg_spec(views(a@), k as nat) {
            Ok(x) => res matches Ok(r) && r@ == x,
            Err(e) => res matches Err(r) && r@ == e,
        },
{
    if k < a.len() {
        Ok(a[k].clone())
    } else {
        let mut msg = String::from_str("could not get the event arg of index ");
        push_u128(&mut msg, k as u128);
        Err(HyprError::Internal(msg))
    }
}

fn int_arg(label: &str, t: &Vec<char>, min: i128, max: i128) -> (res: Result<i128, HyprError>)
    requires
        min <= -15,
        15 <= max,
    ensures
        match int_arg_spec(label@, t@, min as int, max as int) {
            Ok(x) => res == Ok::<i128, HyprError>(x as i128) && min <= x <= max,
            Err(e) => res matches Err(r) && r@ == e,
        },
{
    match parse_int_chars(t, 10, true, min, max) {
        Ok(v) => {
            proof {
                lemma_parse_int_range(t@, 10, true, min as int, max as int);
            }
            Ok(v)
        },
        Err(k) => {
            let mut msg = String::from_str(label);
            push_str(&mut msg, ": invalid integer error: ");
            let m = int_error_text(k);
            push_str(&mut msg, m.as_str());
            Err(HyprError::Internal(msg))
        },
    }
}

fn workspace_data(label: &str, a: &Vec<Vec<char>>) -> (res: Result<(i32, WorkspaceType), HyprError>)
    ensures
        match workspace_data_spec(label@, views(a@)) {
            Ok((id, w)) => res matches Ok((rid, rw)) && rid as int == id && rw@ == w,
            Err(e) => res matches Err(r) && r@ == e,
        },
{
    let t0 = get_arg(a, 0)?;
    let id = int_arg(label, &t0, i32::MIN as i128, i32::MAX as i128)?;
    let t1 = get_arg(a, 1)?;
    Ok((id as i32, parse_string_as_work(&t1)))
}

/// Builds the event of a known kind from its argument pieces.
pub fn data_event(t: ParsedEventType, a: &Vec<Vec<char>>) -> (res: Result<Event, HyprError>)
    ensures
        event_result_view(res) == data_event_spec(t, views(a@)),
{
    match t {
        ParsedEventType::WorkspaceChangedV2 => {
            let (id, name) = workspace_data("WorkspaceChangedV2", a)?;
            Ok(Event::WorkspaceChanged(WorkspaceEventData { id, name }))
        },
        ParsedEventType::WorkspaceDeletedV2 => {
            let (id, name) = workspace_data("WorkspaceDeletedV2", a)?;
            Ok(Event::WorkspaceDeleted(WorkspaceEventData { id, name }))
        },
        ParsedEventType::WorkspaceAddedV2 => {
            let (id, name) = workspace_data("WorkspaceAddedV2", a)?;
            Ok(Event::WorkspaceAdded(WorkspaceEventData { id, name }))
        },
        ParsedEventType::WorkspaceMovedV2 => {
            let (id, name) = workspace_data("WorkspaceMovedV2", a)?;
            let m = get_arg(a, 2)?;
            Ok(Event::WorkspaceMoved(WorkspaceMovedEventData { id, name, monitor: string_of(&m) }))
        },
        ParsedEventType::WorkspaceRename => {
            let t0 = get_arg(a, 0)?;
            let id = int_arg("WorkspaceRenamed", &t0, i32::MIN as i128, i32::MAX as i128)?;
            let n = get_arg(a, 1)?;
            Ok(Event::WorkspaceRenamed(NonSpecialWorkspaceEventData { id: id as i32, name: string_of(&n) }))
        },
        ParsedEventType::ActiveMonitorChanged => {
            let m = get_arg(a, 0)?;
            let w = get_arg(a, 1)?;
            let workspace_name = if chars_eq_str(&w, "?") { None } else { Some(parse_string_as_work(&w)) };
            Ok(Event::ActiveMonitorChanged(MonitorEventData { monitor_name: string_of(&m), workspace_name }))
        },
        ParsedEventType::ActiveWindowChangedV1 => {
            let c = get_arg(a, 0)?;
            let ti = get_arg(a, 1)?;
            if c.len() > 0 && ti.len() > 0 {
                Ok(Event::ActiveWindowChangedV1(Some((string_of(&c), string_of(&ti)))))
            } else {
                Ok(Event::ActiveWindowChangedV1(None))
            }
        },
        ParsedEventType::ActiveWindowChangedV2 => {
            let x = get_arg(a, 0)?;
            if !chars_eq_str(&x, ",") {
                let s = string_of(&x);
                Ok(Event::ActiveWindowChangedV2(Some(Address::new(s.as_str()))))
            } else {
                Ok(Event::ActiveWindowChangedV2(None))
            }
        },
        ParsedEventType::FullscreenStateChanged => {
            let x = get_arg(a, 0)?;
            Ok(Event::FullscreenStateChanged(!chars_eq_str(&x, "0")))
        },
        ParsedEventType::MonitorRemoved => {
            let x = get_arg(a, 0)?;
            Ok(Event::MonitorRemoved(string_of(&x)))
        },
        ParsedEventType::MonitorAddedV2 => {
            let t0 = get_arg(a, 0)?;
            let id = int_arg("MonitorAddedV2", &t0, i128::MIN, i128::MAX)?;
            let n = get_arg(a, 1)?;
            let d = get_arg(a, 2)?;
            Ok(Event::MonitorAdded(MonitorAddedEventData { id, name: string_of(&n), description: string_of(&d) }))
        },
        ParsedEventType::WindowOpened => {
            let x0 = get_arg(a, 0)?;
            let x1 = get_arg(a, 1)?;
            let x2 = get_arg(a, 2)?;
            let x3 = get_arg(a, 3)?;
            let s0 = string_of(&x0);
            Ok(Event::WindowOpened(WindowOpenEvent {
                window_address: Address::new(s0.as_str()),
                workspace_name: string_of(&x1),
                window_class: string_of(&x2),
                window_title: string_of(&x3),
            }))
        },
        ParsedEventType::WindowClosed => {
            let x = get_arg(a, 0)?;
            let s0 = string_of(&x);
            Ok(Event::WindowClosed(Address::new(s0.as_str())))
        },
        ParsedEventType::WindowMovedV2 => {
            let x0 = get_arg(a, 0)?;
            let s0 = string_of(&x0);
            let window_address = Address::fmt_new(s0.as_str());
            let x1 = get_arg(a, 1)?;
            let id = int_arg("WindowMoved", &x1, i32::MIN as i128, i32::MAX as i128)?;
            let x2 = get_arg(a, 2)?;
            Ok(Event::WindowMoved(WindowMoveEvent {
                window_address,
                workspace_id: id as i32,
                workspace_name: parse_string_as_work(&x2),
            }))
        },
        ParsedEventType::ActiveSpecial => {
            let w = get_arg(a, 0)?;
            let m = get_arg(a, 1)?;
            if w.len() == 0 {
                Ok(Event::SpecialRemoved(string_of(&m)))
            } else {
                Ok(Event::ChangedSpecial(ChangedSpecialEventData { monitor_name: string_of(&m), workspace_name: string_of(&w) }))
            }
        },
        ParsedEventType::LayoutChanged => {
            let k = get_arg(a, 0)?;
            let l = get_arg(a, 1)?;
            Ok(Event::LayoutChanged(LayoutEvent { keyboard_name: string_of(&k), layout_name: string_of(&l) }))
        },
        ParsedEventType::SubMapChanged => {
            let x = get_arg(a, 0)?;
            Ok(Event::SubMapChanged(string_of(&x)))
        },
        ParsedEventType::LayerOpened => {
            let x = get_arg(a, 0)?;
            Ok(Event::LayerOpened(string_of(&x)))
        },
        ParsedEventType::LayerClosed => {
            let x = get_arg(a, 0)?;
            Ok(Event::LayerClosed(string_of(&x)))
        },
        ParsedEventType::FloatStateChanged => {
            let st = get_arg(a, 1)?;
            let floating = chars_eq_str(&st, "0");
            let x = get_arg(a, 0)?;
            let s0 = string_of(&x);
            Ok(Event::FloatStateChanged(WindowFloatEventData { address: Address::new(s0.as_str()), floating }))
        },
        ParsedEventType::Screencast => {
            let x0 = get_arg(a, 0)?;
            let turning_on = chars_eq_str(&x0, "1");
            let x1 = get_arg(a, 1)?;
            let monitor = chars_eq_str(&x1, "1");
            Ok(Event::Screencast(ScreencastEventData { turning_on, monitor }))
        },
        ParsedEventType::UrgentStateChanged => {
            let x = get_arg(a, 0)?;
            let s0 = string_of(&x);
            Ok(Event::UrgentStateChanged(Address::new(s0.as_str())))
        },
        ParsedEventType::WindowTitleChangedV2 => {
            let x0 = get_arg(a, 0)?;
            let s0 = string_of(&x0);
            let address = Address::new(s0.as_str());
            let x1 = get_arg(a, 1)?;
            Ok(Event::WindowTitleChanged(WindowTitleEventData { address, title: string_of(&x1) }))
        },
        ParsedEventType::ConfigReloaded => Ok(Event::ConfigReloaded),
        ParsedEventType::IgnoreGroupLock => {
            let x = get_arg(a, 0)?;
            Ok(Event::IgnoreGroupLockStateChanged(chars_eq_str(&x, "1")))
        },
        ParsedEventType::LockGroups => {
            let x = get_arg(a, 0)?;
            Ok(Event::LockGroupsStateChanged(chars_eq_str(&x, "1")))
        },
        ParsedEventType::Pin => {
            let x0 = get_arg(a, 0)?;
            let s0 = string_of(&x0);
            let address = Address::new(s0.as_str());
            let x1 = get_arg(a, 1)?;
            Ok(Event::WindowPinned(WindowPinEventData { address, pinned: chars_eq_str(&x1, "1") }))
        },
        ParsedEventType::ToggleGroup => {
            let x0 = get_arg(a, 0)?;
            let toggled = chars_eq_str(&x0, "1");
            let x1 = get_arg(a, 1)?;
            let window_addresses = addresses_of(&x1);
            Ok(Event::GroupToggled(GroupToggledEventData { toggled, window_addresses }))
        },
        ParsedEventType::MoveIntoGroup => {
            let x = get_arg(a, 0)?;
            let s0 = string_of(&x);
            Ok(Event::WindowMovedIntoGroup(Address::new(s0.as_str())))
        },
        ParsedEventType::MoveOutOfGroup => {
            let x = get_arg(a, 0)?;
            let s0 = string_of(&x);
            Ok(Event::WindowMovedOutOfGroup(Address::new(s0.as_str())))
        },
    }
}

/// Reads one line of the event socket into its event.
pub fn parse_event_line(l: &Vec<char>) -> (res: Result<Event, HyprError>)
    ensures
        event_result_view(res) == line_event_spec(l@),
{
    let i = find_pair(l, '>', '>');
    proof {
        lemma_index_of_pair(l@, '>', '>');
    }
    if i >= l.len() {
        let msg = String::from_str("could not get event name from Hyprland IPC data (not hyprland-rs)");
        proof {
            reveal_strlit("could not get event name from Hyprland IPC data (not hyprland-rs)");
        }
        return Err(HyprError::Other(msg));
    }
    let name = slice_of(l, 0, i);
    let data = slice_of(l, i + 2, l.len());
    assert(name@ =~= l@.take(i as int));
    assert(data@ =~= l@.skip(i as int + 2));
    match event_kind(&name) {
        Some((n, t)) => {
            let a = splitn_all(&data, n, ',');
            data_event(t, &a)
        },
        None => Ok(Event::Unknown(UnknownEventData { name: string_of(&name), args: string_of(&data) })),
    }
}

/// Once a prefix of the lines fails, the whole text fails with the same
/// error.
proof fn lemma_lines_error_persists(ls: Seq<Seq<char>>, k: int)
    requires
        0 <= k <= ls.len(),
        lines_events_spec(ls.take(k)) is Err,
    ensures
        lines_events_spec(ls) == lines_events_spec(ls.take(k)),
    decreases ls.len(),
{
    if k == ls.len() {
        assert(ls.take(k) =~= ls);
    } else {
        assert(ls.drop_last().take(k) =~= ls.take(k));
        lemma_lines_error_persists(ls.drop_last(), k);
    }
}

/// Reads a text from the event socket into its events: the lines of the
/// trimmed text, empty lines skipped, each line one event; the first line
/// that cannot be read gives the error.
pub fn event_parser(event: &str) -> (res: Result<Vec<Event>, HyprError>)
    ensures
        events_result_view(res) == event_text_spec(event@),
{
    let v = chars_of(event);
    let t = trim_chars(&v);
    let ls = lines_of(&t);
    let ghost lv = views(ls@);
    let mut out: Vec<Event> = Vec::new();
    let mut i: usize = 0;
    assert(lv.take(0) =~= Seq::<Seq<char>>::empty());
    assert(out@.map_values(|e: Event| e@) =~= Seq::<EventView>::empty());
    while i < ls.len()
        invariant
            i <= ls.len(),
            lv == views(ls@),
            lv == lines(trim(event@)),
            lines_events_spec(lv.take(i as int)) == Ok::<Seq<EventView>, HyprErrorView>(out@.map_values(|e: Event| e@)),
        decreases ls.len() - i,
    {
        let ghost prev = out@;
        assert(lv.take(i as int + 1).drop_last() =~= lv.take(i as int));
        assert(lv.take(i as int + 1).last() == ls@[i as int]@);
        if ls[i].len() == 0 {
        } else {
            match parse_event_line(&ls[i]) {
                Ok(e) => {
                    out.push(e);
                    assert(out@.map_values(|e: Event| e@) =~= prev.map_values(|e: Event| e@).push(e@));
                },
                Err(e) => {
                    proof {
                        lemma_lines_error_persists(lv, i as int + 1);
                    }
                    return Err(e);
                },
            }
        }
        i = i + 1;
    }
    assert(lv.take(ls.len() as int) =~= lv);
    Ok(out)
}

/// The addresses of a comma-separated list of window addresses.
fn addresses_of(x: &Vec<char>) -> (res: Vec<Address>)
    ensures
        address_views(res@) == split_char(x@, ',').map_values(|p: Seq<char>| address_text(p)),
{
    let pieces = split_all(x, ',');
    let mut out: Vec<Address> = Vec::new();
    let mut i: usize = 0;
    while i < pieces.len()
        invariant
            i <= pieces.len(),
            views(pieces@) == split_char(x@, ','),
            out.len() == i,
            forall|j: int| 0 <= j < i ==> #[trigger] out@[j]@ == address_text(pieces@[j]@),
        decreases pieces.len() - i,
    {
        let s = string_of(&pieces[i]);
        out.push(Address::new(s.as_str()));
        i = i + 1;
    }
    assert(address_views(out@) =~= split_char(x@, ',').map_values(|p: Seq<char>| address_text(p))) by {
        assert forall|j: int| 0 <= j < out.len() implies #[trigger] address_views(out@)[j] == split_char(x@, ',').map_values(|p: Seq<char>| address_text(p))[j] by {
            assert(views(pieces@)[j] == pieces@[j]@);
        }
    }
    out
}

/// The first `a b` pair of a text is found where it stands when no pair
/// comes before it.
proof fn lemma_index_of_pair_at(s: Seq<char>, a: char, b: char, k: int)
    requires
        0 <= k,
        k + 1 < s.len(),
        s[k] == a,
        s[k + 1] == b,
        forall|j: int| 0 <= j < k ==> !(s[j] == a && #[trigger] s[j + 1] == b),
    ensures
        index_of_pair(s, a, b) == k,
    decreases k,
{
    if k > 0 {
        assert(!(s[0] == a && s[0int + 1] == b));
        assert forall|j: int| 0 <= j < k - 1 implies !(s.drop_first()[j] == a && #[trigger] s.drop_first()[j + 1] == b) by {
            assert(s.drop_first()[j] == s[j + 1]);
            assert(s.drop_first()[j + 1] == s[j + 1 + 1]);
        }
        lemma_index_of_pair_at(s.drop_first(), a, b, k - 1);
    }
}

/// A line made of an event name without `>`, `>>` and the data is read as
/// that name and data.
proof fn lemma_line_parts(name: Seq<char>, data: Seq<char>)
    requires
        !crate::text::has_char(name, '>'),
    ensures
        line_event_spec(name + ">>"@ + data) == match event_kind_spec(name) {
            Some((n, t)) => data_event_spec(t, splitn_char(data, n, ',')),
            None => Ok(EventView::Unknown(name, data)),
        },
{
    reveal_strlit(">>");
    let l = name + ">>"@ + data;
    let k = name.len() as int;
    assert forall|j: int| 0 <= j < k implies !(l[j] == '>' && #[trigger] l[j + 1] == '>') by {
        assert(l[j] == name[j]);
    }
    lemma_index_of_pair_at(l, '>', '>', k);
    assert(l.take(k) =~= name);
    assert(l.skip(k + 2) =~= data);
}

/// `activelayout` is the name of the keyboard layout event, which is split
/// into two pieces.
proof fn lemma_activelayout_kind()
    ensures
        event_kind_spec("activelayout"@) == Some((2nat, ParsedEventType::LayoutChanged)),
{
    let n = "activelayout"@;
    reveal_strlit("activelayout");
    reveal_strlit("workspacev2");
    reveal_strlit("destroyworkspacev2");
    reveal_strlit("createworkspacev2");
    reveal_strlit("moveworkspacev2");
    reveal_strlit("renameworkspace");
    reveal_strlit("focusedmon");
    reveal_strlit("activewindow");
    reveal_strlit("activewindowv2");
    reveal_strlit("fullscreen");
    reveal_strlit("monitorremoved");
    reveal_strlit("monitoraddedv2");
    reveal_strlit("openwindow");
    reveal_strlit("closewindow");
    reveal_strlit("movewindowv2");
    assert(n.len() == 12);
    assert(n != "activewindow"@) by { assert(n[6] != "activewindow"@[6]); }
    assert(n != "movewindowv2"@) by { assert(n[0] != "movewindowv2"@[0]); }
    assert(n != "workspacev2"@ && n != "destroyworkspacev2"@ && n != "createworkspacev2"@
        && n != "moveworkspacev2"@ && n != "renameworkspace"@ && n != "focusedmon"@
        && n != "activewindowv2"@ && n != "fullscreen"@ && n != "monitorremoved"@
        && n != "monitoraddedv2"@ && n != "openwindow"@ && n != "closewindow"@);
}

/// An `activelayout` line gives the keyboard layout event with the
/// keyboard's name (the first piece of the data, up to the first comma)
/// and the layout's name (all that follows).
pub proof fn law_activelayout_line(keyboard: Seq<char>, layout: Seq<char>)
    requires
        !crate::text::has_char(keyboard, ','),
    ensures
        line_event_spec("activelayout"@ + ">>"@ + keyboard + ","@ + layout)
            == Ok::<EventView, HyprErrorView>(EventView::LayoutChanged(keyboard, layout)),
{
    reveal_strlit("activelayout");
    reveal_strlit(",");
    let data = keyboard + ","@ + layout;
    assert(!crate::text::has_char("activelayout"@, '>')) by {
        if crate::text::has_char("activelayout"@, '>') {
            let i = choose|i: int| 0 <= i < "activelayout"@.len() && "activelayout"@[i] == '>';
            assert("activelayout"@[i] == '>');
        }
    }
    assert("activelayout"@ + ">>"@ + keyboard + ","@ + layout =~= "activelayout"@ + ">>"@ + data);
    lemma_line_parts("activelayout"@, data);
    lemma_activelayout_kind();
    assert forall|j: int| 0 <= j < keyboard.len() implies data[j] != ',' by {
        assert(data[j] == keyboard[j]);
    }
    crate::text::lemma_index_of_at(data, ',', keyboard.len() as int);
    assert(data.take(keyboard.len() as int) =~= keyboard);
    assert(data.skip(keyboard.len() as int + 1) =~= layout);
    reveal_with_fuel(splitn_char, 2);
}

/// Read from the event socket, a single `activelayout` line gives exactly
/// one event: the keyboard layout event with the keyboard's name and the
/// layout's name, in this order.
pub proof fn law_activelayout_event(keyboard: Seq<char>, layout: Seq<char>)
    requires
        !crate::text::has_char(keyboard, ','),
        !crate::text::has_char(keyboard, '\n'),
        !crate::text::has_char(layout, '\n'),
        layout.len() > 0 ==> !crate::text::is_ws(layout.last()),
    ensures
        event_text_spec("activelayout"@ + ">>"@ + keyboard + ","@ + layout)
            == Ok::<Seq<EventView>, HyprErrorView>(seq![EventView::LayoutChanged(keyboard, layout)]),
{
    reveal_strlit("activelayout");
    reveal_strlit(">>");
    reveal_strlit(",");
    law_activelayout_line(keyboard, layout);
    let t = "activelayout"@ + ">>"@ + keyboard + ","@ + layout;
    assert(t[0] == 'a');
    if layout.len() > 0 {
        assert(t.last() == layout.last());
    } else {
        assert(t.last() == ',');
    }
    crate::text::lemma_trim_unchanged(t);
    assert(!crate::text::has_char(t, '\n')) by {
        if crate::text::has_char(t, '\n') {
            let i = choose|i: int| 0 <= i < t.len() && t[i] == '\n';
            let kb = 14 + keyboard.len();
            if i < 14 {
                assert(t[i] == ("activelayout"@ + ">>"@)[i]);
            } else if i < kb {
                assert(t[i] == keyboard[i - 14]);
            } else if i > kb {
                assert(t[i] == layout[i - kb - 1]);
            }
        }
    }
    crate::text::lemma_index_of(t, '\n');
    assert(crate::text::lines(t) == seq![t]);
    assert(seq![t].drop_last() =~= Seq::<Seq<char>>::empty());
    reveal_with_fuel(lines_events_spec, 2);
    let ev = EventView::LayoutChanged(keyboard, layout);
    assert(lines_events_spec(seq![t].drop_last()) == Ok::<Seq<EventView>, HyprErrorView>(Seq::empty()));
    assert(Seq::<EventView>::empty().push(ev) =~= seq![ev]);
}

/// The events whose data are texts take them in the order Hyprland sends
/// them: the first piece of the data fills the first field named in the
/// event's description, and so on.
pub proof fn law_event_texts_keep_their_order(a: Seq<Seq<char>>)
    requires
        a.len() >= 4,
    ensures
        data_event_spec(ParsedEventType::LayoutChanged, a)
            == Ok::<EventView, HyprErrorView>(EventView::LayoutChanged(a[0], a[1])),
        data_event_spec(ParsedEventType::WindowTitleChangedV2, a)
            == Ok::<EventView, HyprErrorView>(EventView::WindowTitleChanged(address_text(a[0]), a[1])),
        data_event_spec(ParsedEventType::WindowOpened, a)
            == Ok::<EventView, HyprErrorView>(EventView::WindowOpened(address_text(a[0]), a[1], a[2], a[3])),
        a[0].len() > 0 ==> data_event_spec(ParsedEventType::ActiveSpecial, a)
            == Ok::<EventView, HyprErrorView>(EventView::ChangedSpecial(a[1], a[0])),
        a[0].len() == 0 ==> data_event_spec(ParsedEventType::ActiveSpecial, a)
            == Ok::<EventView, HyprErrorView>(EventView::SpecialRemoved(a[1])),
        a[0].len() > 0 && a[1].len() > 0 ==> data_event_spec(ParsedEventType::ActiveWindowChangedV1, a)
            == Ok::<EventView, HyprErrorView>(EventView::ActiveWindowChangedV1(Some((a[0], a[1])))),
        data_event_spec(ParsedEventType::MonitorRemoved, a)
            == Ok::<EventView, HyprErrorView>(EventView::MonitorRemoved(a[0])),
        data_event_spec(ParsedEventType::SubMapChanged, a)
            == Ok::<EventView, HyprErrorView>(EventView::SubMapChanged(a[0])),
        data_event_spec(ParsedEventType::LayerOpened, a)
            == Ok::<EventView, HyprErrorView>(EventView::LayerOpened(a[0])),
        data_event_spec(ParsedEventType::LayerClosed, a)
            == Ok::<EventView, HyprErrorView>(EventView::LayerClosed(a[0])),
        data_event_spec(ParsedEventType::UrgentStateChanged, a)
            == Ok::<EventView, HyprErrorView>(EventView::UrgentStateChanged(address_text(a[0]))),
        data_event_spec(ParsedEventType::WindowClosed, a)
            == Ok::<EventView, HyprErrorView>(EventView::WindowClosed(address_text(a[0]))),
        data_event_spec(ParsedEventType::MoveIntoGroup, a)
            == Ok::<EventView, HyprErrorView>(EventView::WindowMovedIntoGroup(address_text(a[0]))),
        data_event_spec(ParsedEventType::MoveOutOfGroup, a)
            == Ok::<EventView, HyprErrorView>(EventView::WindowMovedOutOfGroup(address_text(a[0]))),
{
}

} // verus!
