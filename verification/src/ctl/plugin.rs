//! Provides functions for communication with plugin system
use vstd::prelude::*;
use crate::shared::{CommandContent, CommandFlag};
use crate::text::push_str;

verus! {

/// The command that loads the plugin at a path.
pub fn load_command(path: &str) -> (res: CommandContent)
    ensures
        res.flag == CommandFlag::Empty,
        res.data@ == "plugin load "@ + path@,
{
    let mut s = String::from_str("plugin load ");
    push_str(&mut s, path);
    CommandContent { flag: CommandFlag::Empty, data: s }
}

/// The command that lists the plugins.
pub fn list_command() -> (res: CommandContent)
    ensures
        res.flag == CommandFlag::Empty,
        res.data@ == "plugin list"@,
{
    CommandContent { flag: CommandFlag::Empty, data: String::from_str("plugin list") }
}

} // verus!
