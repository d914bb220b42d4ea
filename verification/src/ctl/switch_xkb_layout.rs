//! Switch the xkb layout index for a keyboard
use vstd::prelude::*;
use crate::shared::{CommandContent, CommandFlag};
use crate::text::{int_dec, push_i128, push_str};

verus! {

/// The types of Cmds used by the layout switch
#[derive(Debug, Clone, Copy, PartialEq, Eq)]
pub enum SwitchXKBLayoutCmdTypes {
    /// Next input
    Next,
    /// Previous inout
    Previous,
    /// Set to a specific input id
    Id(u8),
}

/// How a layout switch is written.
pub open spec fn cmd_text(c: SwitchXKBLayoutCmdTypes) -> Seq<char> {
    match c {
        SwitchXKBLayoutCmdTypes::Next => "next"@,
        SwitchXKBLayoutCmdTypes::Previous => "prev"@,
        SwitchXKBLayoutCmdTypes::Id(i) => int_dec(i as int),
    }
}

impl SwitchXKBLayoutCmdTypes {
    /// The switch as its `Display` writes it.
    pub fn to_string(&self) -> (res: String)
        ensures
            res@ == cmd_text(*self),
    {
        match self {
            SwitchXKBLayoutCmdTypes::Next => String::from_str("next"),
            SwitchXKBLayoutCmdTypes::Previous => String::from_str("prev"),
            SwitchXKBLayoutCmdTypes::Id(i) => crate::text::i128_text(*i as i128),
        }
    }
}

/// The command that switches the layout of a keyboard.
pub fn command(device: &str, cmd: SwitchXKBLayoutCmdTypes) -> (res: CommandContent)
    ensures
        res.flag == CommandFlag::Empty,
        res.data@ == "switchxkblayout "@ + device@ + " "@ + cmd_text(cmd),
{
    let mut s = String::from_str("switchxkblayout ");
    push_str(&mut s, device);
    push_str(&mut s, " ");
    let t = cmd.to_string();
    push_str(&mut s, t.as_str());
    CommandContent { flag: CommandFlag::Empty, data: s }
}

} // verus!
