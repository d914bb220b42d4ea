//! The keywords sent to hyprpaper and how each is written.
use vstd::prelude::*;
use crate::text::push_str;

verus! {

/// A monitor on which to apply a wallpaper, see [`Wallpaper`].
#[derive(Debug, Clone)]
pub enum Monitor {
    /// A monitor port, such as "DP-1".
    Port(String),
    /// A monitor description, such as "Dell Inc. DELL P2419HC GNJJJ73".
    Description(String),
}

/// How a monitor is written: its port, or `desc:` and its description.
pub open spec fn monitor_text(m: Monitor) -> Seq<char> {
    match m {
        Monitor::Port(p) => p@,
        Monitor::Description(d) => "desc:"@ + d@,
    }
}

impl Monitor {
    /// The monitor as its `Display` writes it.
    pub fn to_string(&self) -> (res: String)
        ensures
            res@ == monitor_text(*self),
    {
        match self {
            Monitor::Port(p) => p.clone(),
            Monitor::Description(d) => {
                let mut s = String::from_str("desc:");
                push_str(&mut s, d.as_str());
                s
            },
        }
    }
}

/// The desired fill mode of the wallpaper.
#[derive(Debug, Clone, Copy)]
pub enum WallpaperMode {
    /// Contain the wallpaper in the screen, potentially changing aspect ratio.
    Contain,
    /// Tile the wallpaper to fill the entire screen.
    Tile,
}

/// How a fill mode is written, as a prefix of the path.
pub open spec fn mode_text(m: WallpaperMode) -> Seq<char> {
    match m {
        WallpaperMode::Contain => "contain:"@,
        WallpaperMode::Tile => "tile:"@,
    }
}

impl WallpaperMode {
    /// The mode as its `Display` writes it.
    pub fn to_string(&self) -> (res: String)
        ensures
            res@ == mode_text(*self),
    {
        match self {
            WallpaperMode::Contain => String::from_str("contain:"),
            WallpaperMode::Tile => String::from_str("tile:"),
        }
    }
}

/// Preload a wallpaper into memory.
#[derive(Debug, Clone)]
pub struct Preload {
    /// Path of the wallpaper to preload.
    pub path: String,
}

/// How a preload is written.
pub open spec fn preload_text(p: Preload) -> Seq<char> {
    "preload "@ + p.path@
}

impl Preload {
    /// The keyword as its `Display` writes it.
    pub fn to_string(&self) -> (res: String)
        ensures
            res@ == preload_text(*self),
    {
        let mut s = String::from_str("preload ");
        push_str(&mut s, self.path.as_str());
        s
    }
}

/// The monitor, the mode and the path of a wallpaper setting:
/// `monitor,modepath`, with an absent monitor or mode left out.
pub open spec fn target_text(monitor: Option<Monitor>, mode: Option<WallpaperMode>, path: Seq<char>) -> Seq<char> {
    let m = match monitor {
        Some(x) => monitor_text(x),
        None => ""@,
    };
    let f = match mode {
        Some(x) => mode_text(x),
        None => ""@,
    };
    m + ","@ + f + path
}

fn push_target(s: &mut String, monitor: &Option<Monitor>, mode: &Option<WallpaperMode>, path: &String)
    ensures
        final(s)@ == old(s)@ + target_text(*monitor, *mode, path@),
{
    proof {
        reveal_strlit("");
    }
    if let Some(m) = monitor {
        let t = m.to_string();
        push_str(s, t.as_str());
    }
    push_str(s, ",");
    if let Some(m) = mode {
        let t = m.to_string();
        push_str(s, t.as_str());
    }
    push_str(s, path.as_str());
    assert(final(s)@ =~= old(s)@ + target_text(*monitor, *mode, path@));
}

/// Reload hyprpaper with the given wallpaper configuration, effectively swap
/// the wallpaper with this new one.
///
/// This is equivalent to the "preload, set new, unload old" process.
#[derive(Debug, Clone)]
pub struct Reload {
    /// The monitor on which to apply the new wallpaper.
    ///
    /// All monitors, if `None`.
    pub monitor: Option<Monitor>,
    /// The wallpaper mode (how it will fill the screen).
    pub mode: Option<WallpaperMode>,
    /// Path to the wallpaper.
    pub path: String,
}

/// How a reload is written.
pub open spec fn reload_text(r: Reload) -> Seq<char> {
    "reload "@ + target_text(r.monitor, r.mode, r.path@)
}

impl Reload {
    /// The keyword as its `Display` writes it.
    pub fn to_string(&self) -> (res: String)
        ensures
            res@ == reload_text(*self),
    {
        let mut s = String::from_str("reload ");
        push_target(&mut s, &self.monitor, &self.mode, &self.path);
        s
    }
}

/// Unload a wallpaper from memory.
#[derive(Debug, Clone)]
pub enum Unload {
    /// Unload the wallpaper at this path.
    Path(String),
    /// Unload all wallpapers.
    All,
}

/// How an unload is written.
pub open spec fn unload_text(u: Unload) -> Seq<char> {
    match u {
        Unload::Path(p) => "unload "@ + p@,
        Unload::All => "unload "@ + "all"@,
    }
}

impl Unload {
    /// The keyword as its `Display` writes it.
    pub fn to_string(&self) -> (res: String)
        ensures
            res@ == unload_text(*self),
    {
        let mut s = String::from_str("unload ");
        match self {
            Unload::Path(p) => push_str(&mut s, p.as_str()),
            Unload::All => push_str(&mut s, "all"),
        }
        s
    }
}

/// Set a wallpaper, optionally on a specific monitor.
#[derive(Debug, Clone)]
pub struct Wallpaper {
    /// The monitor on which to apply the wallpaper.
    ///
    /// All monitors, if `None`.
    pub monitor: Option<Monitor>,
    /// The wallpaper mode (how it will fill the screen).
    pub mode: Option<WallpaperMode>,
    /// Path to the wallpaper.
    pub path: String,
}

/// How a wallpaper setting is written.
pub open spec fn wallpaper_text(w: Wallpaper) -> Seq<char> {
    "wallpaper "@ + target_text(w.monitor, w.mode, w.path@)
}

impl Wallpaper {
    /// The keyword as its `Display` writes it.
    pub fn to_string(&self) -> (res: String)
        ensures
            res@ == wallpaper_text(*self),
    {
        let mut s = String::from_str("wallpaper ");
        push_target(&mut s, &self.monitor, &self.mode, &self.path);
        s
    }
}

/// The hyprpaper keyword, used to interact with hyprpaper.
#[derive(Debug, Clone)]
pub enum Keyword {
    /// Preload a wallpaper into memory.
    Preload(Preload),
    /// Reload hyprpaper with another wallpaper.
    Reload(Reload),
    /// Unload a wallpaper from memory.
    Unload(Unload),
    /// Set an already preloaded wallpaper.
    Wallpaper(Wallpaper),
    /// Request a list of active wallpapers.
    ListActive,
    /// Request a list of loaded wallpapers.
    ListLoaded,
}

/// How a keyword is written.
pub open spec fn keyword_text(k: Keyword) -> Seq<char> {
    match k {
        Keyword::Preload(p) => preload_text(p),
        Keyword::Reload(r) => reload_text(r),
        Keyword::Unload(u) => unload_text(u),
        Keyword::Wallpaper(w) => wallpaper_text(w),
        Keyword::ListActive => "listactive"@,
        Keyword::ListLoaded => "listloaded"@,
    }
}

/// The kind of answer a keyword gets.
#[derive(Debug, Clone, Copy, PartialEq, Eq)]
pub enum ExpectedResponse {
    /// `ok`
    Accepted,
    /// The active wallpapers
    Active,
    /// The loaded wallpapers
    Loaded,
}

/// The kind of answer each keyword gets.
pub open spec fn expected_response_of(k: Keyword) -> ExpectedResponse {
    match k {
        Keyword::ListActive => ExpectedResponse::Active,
        Keyword::ListLoaded => ExpectedResponse::Loaded,
        _ => ExpectedResponse::Accepted,
    }
}

impl Keyword {
    /// The keyword as its `Display` writes it.
    pub fn to_string(&self) -> (res: String)
        ensures
            res@ == keyword_text(*self),
    {
        match self {
            Keyword::Preload(p) => p.to_string(),
            Keyword::Reload(r) => r.to_string(),
            Keyword::Unload(u) => u.to_string(),
            Keyword::Wallpaper(w) => w.to_string(),
            Keyword::ListActive => String::from_str("listactive"),
            Keyword::ListLoaded => String::from_str("listloaded"),
        }
    }

    /// The kind of answer this keyword gets.
    pub fn expected_response(&self) -> (res: ExpectedResponse)
        ensures
            res == expected_response_of(*self),
    {
        match self {
            Keyword::Preload(_) | Keyword::Reload(_) | Keyword::Unload(_) | Keyword::Wallpaper(_) => ExpectedResponse::Accepted,
            Keyword::ListActive => ExpectedResponse::Active,
            Keyword::ListLoaded => ExpectedResponse::Loaded,
        }
    }
}

/// The word each hyprpaper keyword begins with, with the space that
/// follows it when arguments come after.
pub open spec fn keyword_head(k: Keyword) -> Seq<char> {
    match k {
        Keyword::Preload(_) => "preload "@,
        Keyword::Reload(_) => "reload "@,
        Keyword::Unload(_) => "unload "@,
        Keyword::Wallpaper(_) => "wallpaper "@,
        Keyword::ListActive => "listactive"@,
        Keyword::ListLoaded => "listloaded"@,
    }
}

/// The text of a hyprpaper keyword begins with its own word.
pub proof fn law_keyword_text_starts_with_its_word(k: Keyword)
    ensures
        crate::text::prefix_of(keyword_head(k), keyword_text(k)),
{
    let t = keyword_text(k);
    let w = keyword_head(k);
    match k {
        Keyword::Unload(Unload::All) => {
            assert(t.take(w.len() as int) =~= w);
        },
        Keyword::ListActive => {},
        Keyword::ListLoaded => {},
        _ => {
            assert(t.take(w.len() as int) =~= w);
        },
    }
    assert(t.take(t.len() as int) =~= t);
}

} // verus!
