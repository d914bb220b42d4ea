//! The information Hyprland gives about its workspaces, windows, layers,
//! devices, binds and animations, and the reading of the few values that
//! arrive as text.
use vstd::prelude::*;
use crate::shared::{Address, MonitorId, WorkspaceId};
use crate::text::{chars_eq_str, chars_of, parse_int, parse_int_chars, slice_of, split_all, split_char, starts_with_str, string_of, views};
use std::collections::HashMap;

verus! {

/// This struct holds a basic identifier for a workspace often used in other structs
#[derive(Debug, Clone, PartialEq, Eq)]
pub struct WorkspaceBasic {
    /// The workspace Id
    pub id: WorkspaceId,
    /// The workspace's name
    pub name: String,
}

/// This enum provides the different monitor transforms
#[derive(Debug, Clone, PartialEq, Eq, Copy)]
pub enum Transforms {
    /// No transform
    Normal,
    /// Rotated 90 degrees
    Normal90,
    /// Rotated 180 degrees
    Normal180,
    /// Rotated 270 degrees
    Normal270,
    /// Flipped
    Flipped,
    /// Flipped and rotated 90 degrees
    Flipped90,
    /// Flipped and rotated 180 degrees
    Flipped180,
    /// Flipped and rotated 270 degrees
    Flipped270,
}

/// The number Hyprland gives each transform.
pub open spec fn transform_number(t: Transforms) -> u8 {
    match t {
        Transforms::Normal => 0,
        Transforms::Normal90 => 1,
        Transforms::Normal180 => 2,
        Transforms::Normal270 => 3,
        Transforms::Flipped => 4,
        Transforms::Flipped90 => 5,
        Transforms::Flipped180 => 6,
        Transforms::Flipped270 => 7,
    }
}

impl Transforms {
    /// The number Hyprland gives the transform.
    pub fn number(&self) -> (res: u8)
        ensures
            res == transform_number(*self),
    {
        match self {
            Transforms::Normal => 0,
            Transforms::Normal90 => 1,
            Transforms::Normal180 => 2,
            Transforms::Normal270 => 3,
            Transforms::Flipped => 4,
            Transforms::Flipped90 => 5,
            Transforms::Flipped180 => 6,
            Transforms::Flipped270 => 7,
        }
    }

    /// The transform of a number, if it names one.
    pub fn from_number(n: u8) -> (res: Option<Self>)
        ensures
            match res {
                Some(t) => transform_number(t) == n,
                None => n > 7,
            },
    {
        match n {
            0 => Some(Transforms::Normal),
            1 => Some(Transforms::Normal90),
            2 => Some(Transforms::Normal180),
            3 => Some(Transforms::Normal270),
            4 => Some(Transforms::Flipped),
            5 => Some(Transforms::Flipped90),
            6 => Some(Transforms::Flipped180),
            7 => Some(Transforms::Flipped270),
            _ => None,
        }
    }
}

/// This struct holds information for a workspace
#[derive(Debug, Clone, PartialEq, Eq)]
pub struct Workspace {
    /// The workspace Id
    pub id: WorkspaceId,
    /// The workspace's name
    pub name: String,
    /// The monitor the workspace is on
    pub monitor: String,
    /// The monitor id the workspace is on
    pub monitor_id: MonitorId,
    /// The amount of windows in the workspace
    pub windows: u16,
    /// A bool that shows if there is a fullscreen window in the workspace
    pub fullscreen: bool,
    /// The last window's [Address]
    pub last_window: Address,
    /// The last window's title
    pub last_window_title: String,
}

/// This struct holds information for a client/window fullscreen mode
#[derive(Debug, Clone, PartialEq, Eq, Copy)]
pub enum FullscreenMode {
    /// Normal window
    NoFullscreen,
    /// Maximized window
    Maximized,
    /// Fullscreen window
    Fullscreen,
    /// Maximized and fullscreen window
    MaximizedFullscreen,
}

/// The number Hyprland gives each fullscreen mode.
pub open spec fn fullscreen_mode_number(m: FullscreenMode) -> u8 {
    match m {
        FullscreenMode::NoFullscreen => 0,
        FullscreenMode::Maximized => 1,
        FullscreenMode::Fullscreen => 2,
        FullscreenMode::MaximizedFullscreen => 3,
    }
}

impl FullscreenMode {
    /// The number Hyprland gives the mode.
    pub fn number(&self) -> (res: u8)
        ensures
            res == fullscreen_mode_number(*self),
    {
        match self {
            FullscreenMode::NoFullscreen => 0,
            FullscreenMode::Maximized => 1,
            FullscreenMode::Fullscreen => 2,
            FullscreenMode::MaximizedFullscreen => 3,
        }
    }

    /// The mode of a number, if it names one.
    pub fn from_number(n: u8) -> (res: Option<Self>)
        ensures
            match res {
                Some(m) => fullscreen_mode_number(m) == n,
                None => n > 3,
            },
    {
        match n {
            0 => Some(FullscreenMode::NoFullscreen),
            1 => Some(FullscreenMode::Maximized),
            2 => Some(FullscreenMode::Fullscreen),
            3 => Some(FullscreenMode::MaximizedFullscreen),
            _ => None,
        }
    }
}

/// This struct holds information for a client/window
#[derive(Debug, PartialEq, Eq)]
pub struct Client {
    /// The client's [`Address`][crate::shared::Address]
    pub address: Address,
    /// The window location
    pub at: (i16, i16),
    /// The window size
    pub size: (i16, i16),
    /// The workspace its on
    pub workspace: WorkspaceBasic,
    /// Is this window floating?
    pub floating: bool,
    /// The internal fullscreen mode
    pub fullscreen: FullscreenMode,
    /// The client fullscreen mode
    pub fullscreen_client: FullscreenMode,
    /// The monitor id the window is on
    pub monitor: MonitorId,
    /// The initial window class
    pub initial_class: String,
    /// The window class
    pub class: String,
    /// The initial window title
    pub initial_title: String,
    /// The window title
    pub title: String,
    /// The process Id of the client
    pub pid: i32,
    /// Is this window running under XWayland?
    pub xwayland: bool,
    /// Is this window pinned?
    pub pinned: bool,
    /// Group members
    pub grouped: Vec<Box<Address>>,
    /// Is this window print on screen
    pub mapped: bool,
    /// The swallowed window
    pub swallowing: Option<Box<Address>>,
    /// When was this window last focused relatively to other windows? 0 for current, 1 previous, 2 previous before that, etc
    pub focus_history_id: i8,
}

/// This struct holds information about a layer surface/client
#[derive(Debug, Clone, PartialEq, Eq)]
pub struct LayerClient {
    /// The layer's [`Address`][crate::shared::Address]
    pub address: Address,
    /// The layer's x position
    pub x: i32,
    /// The layer's y position
    pub y: i32,
    /// The layer's width
    pub w: i16,
    /// The layer's height
    pub h: i16,
    /// The layer's namespace
    pub namespace: String,
}

/// This struct holds all the layer surfaces for a display
#[derive(Debug, Clone)]
pub struct LayerDisplay {
    /// The different levels of layers
    pub levels: HashMap<String, Vec<LayerClient>>,
}

/// This struct holds information about a mouse device
#[derive(Debug, Clone, PartialEq, Eq)]
pub struct Mouse {
    /// The mouse's address
    pub address: Address,
    /// The mouse's name
    pub name: String,
}

/// This struct holds information about a keyboard device
#[derive(Debug, Clone, PartialEq, Eq)]
pub struct Keyboard {
    /// The keyboard's address
    pub address: Address,
    /// The keyboard's name
    pub name: String,
    /// The keyboard rules
    pub rules: String,
    /// The keyboard model
    pub model: String,
    /// The layout of the keyboard
    pub layout: String,
    /// The keyboard variant
    pub variant: String,
    /// The keyboard options
    pub options: String,
    /// The keyboard's active keymap
    pub active_keymap: String,
    /// The keyboard's primary status
    pub main: bool,
}

/// A enum that holds the types of tablets
#[derive(Debug, Clone, Copy, PartialEq, Eq)]
pub enum TabletType {
    /// The TabletPad type of tablet
    TabletPad,
    /// The TabletTool type of tablet
    TabletTool,
}

/// A enum to match what the tablet belongs to
#[derive(Debug, Clone, PartialEq, Eq)]
pub enum TabletBelongsTo {
    /// The belongsTo data if the tablet is of type TabletPad
    TabletPad {
        /// The name of the parent
        name: String,
        /// The address of the parent
        address: Address,
    },
    /// The belongsTo data if the tablet is of type TabletTool
    Address(Address),
}

/// This struct holds information about a tablet device
#[derive(Debug, Clone, PartialEq, Eq)]
pub struct Tablet {
    /// The tablet's address
    pub address: Address,
    /// The tablet type
    pub tablet_type: Option<TabletType>,
    /// What the tablet belongs to
    pub belongs_to: Option<TabletBelongsTo>,
    /// The name of the tablet
    pub name: Option<String>,
}

/// This struct holds all current devices
#[derive(Debug, Clone, PartialEq, Eq)]
pub struct Devices {
    /// All the mice
    pub mice: Vec<Mouse>,
    /// All the keyboards
    pub keyboards: Vec<Keyboard>,
    /// All the tablets
    pub tablets: Vec<Tablet>,
}

/// This struct holds version information
#[derive(Debug, Clone, PartialEq, Eq)]
pub struct Version {
    /// The git branch Hyprland was built on
    pub branch: String,
    /// The git commit Hyprland was built on
    pub commit: String,
    /// This is true if there were unstaged changed when Hyprland was built
    pub dirty: bool,
    /// The git commit message
    pub commit_message: String,
    /// The git commit date
    pub commit_date: String,
    /// The git tag hyprland was built on
    pub tag: String,
    /// The amount of commits to Hyprland at buildtime
    pub commits: String,
    /// Aquamarine version
    pub build_aquamarine: String,
    /// The flags that Hyprland was built with
    pub flags: Vec<String>,
}

/// This struct holds information on the cursor position
#[derive(Debug, Clone, Copy, PartialEq, Eq)]
pub struct CursorPosition {
    /// The x position of the cursor
    pub x: i64,
    /// The y position of the cursor
    pub y: i64,
}

/// A keybinding returned from the binds command
#[derive(Debug, Clone, PartialEq, Eq)]
pub struct Bind {
    /// Is it locked?
    pub locked: bool,
    /// Is it a mouse bind?
    pub mouse: bool,
    /// Does it execute on release?
    pub release: bool,
    /// Can it be held?
    pub repeat: bool,
    /// It's modmask
    pub modmask: u16,
    /// The submap its apart of
    pub submap: String,
    /// The key
    pub key: String,
    /// The keycode
    pub keycode: i16,
    /// The dispatcher to be executed
    pub dispatcher: String,
    /// The dispatcher arg
    pub arg: String,
}

/// A helper struct that provides the current fullscreen state
#[derive(Debug, Clone, Copy, PartialEq, Eq)]
pub struct FullscreenState(
    /// State
    pub bool,
);

impl FullscreenState {
    /// This method returns a bool of the current fullscreen state
    pub fn bool(self) -> (res: bool)
        ensures
            res == self.0,
    {
        self.0
    }
}

/// Animation styles
#[derive(Debug, Clone, PartialEq, Eq)]
pub enum AnimationStyle {
    /// Slide animation
    Slide,
    /// Vertical slide animation
    SlideVert,
    /// Fading slide animation
    SlideFade,
    /// Fading slide animation in a vertical direction
    SlideFadeVert,
    /// Popin animation (with percentage)
    PopIn(u8),
    /// Fade animation
    Fade,
    /// Once animation used for gradient animation
    Once,
    /// Loop animation used for gradient animation
    Loop,
    /// No animation style
    NoStyle,
    /// Unknown style
    Unknown(String),
}

/// The model of an animation style.
pub enum AnimationStyleView {
    Slide,
    SlideVert,
    SlideFade,
    SlideFadeVert,
    PopIn(u8),
    Fade,
    Once,
    Loop,
    NoStyle,
    Unknown(Seq<char>),
}

impl View for AnimationStyle {
    type V = AnimationStyleView;

    open spec fn view(&self) -> AnimationStyleView {
        match self {
            AnimationStyle::Slide => AnimationStyleView::Slide,
            AnimationStyle::SlideVert => AnimationStyleView::SlideVert,
            AnimationStyle::SlideFade => AnimationStyleView::SlideFade,
            AnimationStyle::SlideFadeVert => AnimationStyleView::SlideFadeVert,
            AnimationStyle::PopIn(p) => AnimationStyleView::PopIn(*p),
            AnimationStyle::Fade => AnimationStyleView::Fade,
            AnimationStyle::Once => AnimationStyleView::Once,
            AnimationStyle::Loop => AnimationStyleView::Loop,
            AnimationStyle::NoStyle => AnimationStyleView::NoStyle,
            AnimationStyle::Unknown(s) => AnimationStyleView::Unknown(s@),
        }
    }
}

/// The percentage text of a `popin` style: the second space-parted piece,
/// or `100%` when there is none.
pub open spec fn popin_piece(v: Seq<char>) -> Seq<char> {
    let parts = split_char(v, ' ');
    if parts.len() >= 2 { parts[1] } else { "100%"@ }
}

/// Whether a style text can be read: the percentage of a `popin` style
/// must end in a one-byte character, which is dropped.
pub open spec fn animation_style_readable(v: Seq<char>) -> bool {
    v.len() >= 5 && v.take(5) == "popin"@ ==> {
        let p = popin_piece(v);
        p.len() > 0 && (p.last() as u32) < 128
    }
}

/// The style a text names: `popin` with a percentage (100 when it cannot
/// be read), one of the named styles, none for the empty text, and
/// unknown otherwise.
pub open spec fn animation_style_of(v: Seq<char>) -> AnimationStyleView {
    if v.len() >= 5 && v.take(5) == "popin"@ {
        let p = popin_piece(v);
        AnimationStyleView::PopIn(
            match parse_int(p.drop_last(), 10, false, 0, 255) {
                Ok(n) => n as u8,
                Err(_) => 100,
            },
        )
    } else if v == "slide"@ {
        AnimationStyleView::Slide
    } else if v == "slidevert"@ {
        AnimationStyleView::SlideVert
    } else if v == "fade"@ {
        AnimationStyleView::Fade
    } else if v == "slidefade"@ {
        AnimationStyleView::SlideFade
    } else if v == "slidefadevert"@ {
        AnimationStyleView::SlideFadeVert
    } else if v == "once"@ {
        AnimationStyleView::Once
    } else if v == "loop"@ {
        AnimationStyleView::Loop
    } else if v == ""@ {
        AnimationStyleView::NoStyle
    } else {
        AnimationStyleView::Unknown(v)
    }
}

impl AnimationStyle {
    /// Reads a style as Hyprland writes it.
    pub fn from(value: String) -> (res: Self)
        requires
            animation_style_readable(value@),
        ensures
            res@ == animation_style_of(value@),
    {
        let v = chars_of(value.as_str());
        proof {
            reveal_strlit("popin");
            reveal_strlit("100%");
        }
        if starts_with_str(&v, "popin") {
            let parts = split_all(&v, ' ');
            assert(views(parts@).len() == parts.len());
            let piece = if parts.len() >= 2 {
                assert(views(parts@)[1] == parts@[1]@);
                slice_of(&parts[1], 0, parts[1].len())
            } else {
                chars_of("100%")
            };
            assert(piece@ =~= popin_piece(value@));
            let digits = slice_of(&piece, 0, piece.len() - 1);
            assert(digits@ =~= piece@.drop_last());
            let n = match parse_int_chars(&digits, 10, false, 0, 255) {
                Ok(n) => {
                    proof {
                        crate::text::lemma_parse_int_range(digits@, 10, false, 0, 255);
                    }
                    n as u8
                },
                Err(_) => 100u8,
            };
            AnimationStyle::PopIn(n)
        } else if chars_eq_str(&v, "slide") {
            AnimationStyle::Slide
        } else if chars_eq_str(&v, "slidevert") {
            AnimationStyle::SlideVert
        } else if chars_eq_str(&v, "fade") {
            AnimationStyle::Fade
        } else if chars_eq_str(&v, "slidefade") {
            AnimationStyle::SlideFade
        } else if chars_eq_str(&v, "slidefadevert") {
            AnimationStyle::SlideFadeVert
        } else if chars_eq_str(&v, "once") {
            AnimationStyle::Once
        } else if chars_eq_str(&v, "loop") {
            AnimationStyle::Loop
        } else if chars_eq_str(&v, "") {
            AnimationStyle::NoStyle
        } else {
            AnimationStyle::Unknown(value)
        }
    }
}

/// Bezier identifier
#[derive(Debug, Clone, PartialEq, Eq)]
pub enum BezierIdent {
    /// No bezier specified
    NoBezier,
    /// The default bezier
    Default,
    /// A specified bezier
    Specified(String),
}

/// The model of a bezier identifier.
pub enum BezierIdentView {
    NoBezier,
    Default,
    Specified(Seq<char>),
}

impl View for BezierIdent {
    type V = BezierIdentView;

    open spec fn view(&self) -> BezierIdentView {
        match self {
            BezierIdent::NoBezier => BezierIdentView::NoBezier,
            BezierIdent::Default => BezierIdentView::Default,
            BezierIdent::Specified(s) => BezierIdentView::Specified(s@),
        }
    }
}

/// The bezier a name gives: none for the empty name, the default for
/// `default`, the named one otherwise.
pub open spec fn bezier_of(v: Seq<char>) -> BezierIdentView {
    if v == ""@ {
        BezierIdentView::NoBezier
    } else if v == "default"@ {
        BezierIdentView::Default
    } else {
        BezierIdentView::Specified(v)
    }
}

impl BezierIdent {
    /// Reads a bezier name as Hyprland writes it.
    pub fn from(value: String) -> (res: Self)
        ensures
            res@ == bezier_of(value@),
    {
        let v = chars_of(value.as_str());
        if chars_eq_str(&v, "") {
            BezierIdent::NoBezier
        } else if chars_eq_str(&v, "default") {
            BezierIdent::Default
        } else {
            BezierIdent::Specified(value)
        }
    }
}

/// The rules of an individual workspace, as returned by hyprctl json.
#[derive(Debug, Clone, PartialEq, Eq)]
pub struct WorkspaceRuleset {
    /// The name of the workspace
    pub workspace_string: String,
    /// The monitor the workspace is on
    pub monitor: Option<String>,
    /// Is it default?
    pub default: Option<bool>,
    /// The gaps between windows
    pub gaps_in: Option<Vec<i64>>,
    /// The gaps between windows and monitor edges
    pub gaps_out: Option<Vec<i64>>,
    /// The size of window borders
    pub border_size: Option<i64>,
    /// Are borders enabled?
    pub border: Option<bool>,
    /// Are shadows enabled?
    pub shadow: Option<bool>,
    /// Is rounding enabled?
    pub rounding: Option<bool>,
    /// Are window decorations enabled?
    pub decorate: Option<bool>,
    /// Is it persistent?
    pub persistent: Option<bool>,
}

} // verus!
