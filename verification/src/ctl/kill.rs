//! Enter kill mode (similar to xkill)
use vstd::prelude::*;
use crate::shared::{CommandContent, CommandFlag};

verus! {

/// The command that enters kill mode.
pub fn command() -> (res: CommandContent)
    ensures
        res.flag == CommandFlag::Empty,
        res.data@ == "kill"@,
{
    CommandContent { flag: CommandFlag::Empty, data: String::from_str("kill") }
}

} // verus!
