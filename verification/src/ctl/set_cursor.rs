//! Set the cursor theme
use vstd::prelude::*;
use crate::shared::{CommandContent, CommandFlag};
use crate::text::{int_dec, push_i128, push_str};

verus! {

/// The command that sets the cursor theme and size.
pub fn command(theme: &str, size: u16) -> (res: CommandContent)
    ensures
        res.flag == CommandFlag::Empty,
        res.data@ == "setcursor "@ + theme@ + " "@ + int_dec(size as int),
{
    let mut s = String::from_str("setcursor ");
    push_str(&mut s, theme);
    push_str(&mut s, " ");
    push_i128(&mut s, size as i128);
    CommandContent { flag: CommandFlag::Empty, data: s }
}

} // verus!
