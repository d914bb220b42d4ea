//! Creates a error that Hyprland will display
use vstd::prelude::*;
use crate::ctl::{color_text, Color};
use crate::shared::{CommandContent, CommandFlag};
use crate::text::push_str;

verus! {

/// The command that shows an error in the given color.
pub fn command(color: Color, msg: &str) -> (res: CommandContent)
    ensures
        res.flag == CommandFlag::Empty,
        res.data@ == "seterror "@ + color_text(color) + " "@ + msg@,
{
    let mut s = String::from_str("seterror ");
    let c = color.to_string();
    push_str(&mut s, c.as_str());
    push_str(&mut s, " ");
    push_str(&mut s, msg);
    CommandContent { flag: CommandFlag::Empty, data: s }
}

} // verus!
