//! Stuff related to managing virtual outputs/displays
use vstd::prelude::*;
use crate::shared::{CommandContent, CommandFlag};
use crate::text::push_str;

verus! {

/// Output backend types
#[derive(Debug, Clone, Copy, PartialEq, Eq)]
pub enum OutputBackends {
    /// The wayland output backend
    Wayland,
    /// The x11 output backend
    X11,
    /// The headless output backend
    Headless,
    /// Let Hyprland decide the backend type
    Auto,
}

/// How a backend is written.
pub open spec fn backend_text(b: OutputBackends) -> Seq<char> {
    match b {
        OutputBackends::Wayland => "wayland"@,
        OutputBackends::X11 => "x11"@,
        OutputBackends::Headless => "headless"@,
        OutputBackends::Auto => "auto"@,
    }
}

impl OutputBackends {
    /// The backend as its `Display` writes it.
    pub fn to_string(&self) -> (res: String)
        ensures
            res@ == backend_text(*self),
    {
        match self {
            OutputBackends::Wayland => String::from_str("wayland"),
            OutputBackends::X11 => String::from_str("x11"),
            OutputBackends::Headless => String::from_str("headless"),
            OutputBackends::Auto => String::from_str("auto"),
        }
    }
}

/// The command that creates a virtual display.
pub fn create_command(backend: OutputBackends) -> (res: CommandContent)
    ensures
        res.flag == CommandFlag::Empty,
        res.data@ == "output create "@ + backend_text(backend),
{
    let mut s = String::from_str("output create ");
    let t = backend.to_string();
    push_str(&mut s, t.as_str());
    CommandContent { flag: CommandFlag::Empty, data: s }
}

/// The command that removes a virtual display.
pub fn remove_command(name: &str) -> (res: CommandContent)
    ensures
        res.flag == CommandFlag::Empty,
        res.data@ == "output remove "@ + name@,
{
    let mut s = String::from_str("output remove ");
    push_str(&mut s, name);
    CommandContent { flag: CommandFlag::Empty, data: s }
}

} // verus!
