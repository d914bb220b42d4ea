//! Creates a notification with Hyprland
use vstd::prelude::*;
use crate::ctl::{color_text, Color};
use crate::shared::{CommandContent, CommandFlag};
use crate::text::{int_dec, push_i128, push_str, push_u128, nat_dec};

verus! {

/// The icons of a notification.
#[allow(missing_docs)]
#[derive(Debug, Copy, Clone, PartialEq, Eq)]
pub enum Icon {
    NoIcon,
    Warning,
    Info,
    Hint,
    Error,
    Confused,
    Okay,
}

/// The number Hyprland gives each icon.
pub open spec fn icon_number(i: Icon) -> int {
    match i {
        Icon::NoIcon => -1,
        Icon::Warning => 0,
        Icon::Info => 1,
        Icon::Hint => 2,
        Icon::Error => 3,
        Icon::Confused => 4,
        Icon::Okay => 5,
    }
}

impl Icon {
    /// The number Hyprland gives the icon.
    pub fn number(&self) -> (res: i8)
        ensures
            res as int == icon_number(*self),
    {
        match self {
            Icon::NoIcon => -1,
            Icon::Warning => 0,
            Icon::Info => 1,
            Icon::Hint => 2,
            Icon::Error => 3,
            Icon::Confused => 4,
            Icon::Okay => 5,
        }
    }
}

/// The command that shows a notification for `time_ms` milliseconds.
pub fn command(icon: Icon, time_ms: u128, color: Color, msg: &str) -> (res: CommandContent)
    ensures
        res.flag == CommandFlag::Empty,
        res.data@ == "notify "@ + int_dec(icon_number(icon)) + " "@ + nat_dec(time_ms as nat) + " "@
            + color_text(color) + " "@ + msg@,
{
    let mut s = String::from_str("notify ");
    push_i128(&mut s, icon.number() as i128);
    push_str(&mut s, " ");
    push_u128(&mut s, time_ms);
    push_str(&mut s, " ");
    let c = color.to_string();
    push_str(&mut s, c.as_str());
    push_str(&mut s, " ");
    push_str(&mut s, msg);
    CommandContent { flag: CommandFlag::Empty, data: s }
}

} // verus!
