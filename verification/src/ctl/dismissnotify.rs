//! Dismisses all or up to a specified amount of notifications with Hyprland
use vstd::prelude::*;
use crate::shared::{CommandContent, CommandFlag};
use crate::text::{int_dec, push_i128};

verus! {

/// The command that dismisses `amount` notifications, or all of them
/// (`-1`) when there is no amount.
pub fn command(amount: Option<u8>) -> (res: CommandContent)
    requires
        amount != Some(0u8),
    ensures
        res.flag == CommandFlag::Empty,
        res.data@ == "dismissnotify "@ + match amount {
            Some(n) => int_dec(n as int),
            None => int_dec(-1),
        },
{
    let mut s = String::from_str("dismissnotify ");
    match amount {
        Some(n) => push_i128(&mut s, n as i128),
        None => push_i128(&mut s, -1),
    }
    CommandContent { flag: CommandFlag::Empty, data: s }
}

} // verus!
