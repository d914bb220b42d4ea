//! Reload hyprland config
use vstd::prelude::*;
use crate::shared::{CommandContent, CommandFlag};

verus! {

/// The command that reloads the configuration.
pub fn command() -> (res: CommandContent)
    ensures
        res.flag == CommandFlag::Empty,
        res.data@ == "reload"@,
{
    CommandContent { flag: CommandFlag::Empty, data: String::from_str("reload") }
}

} // verus!
