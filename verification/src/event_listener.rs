//! Listening to Hyprland's event socket.
use vstd::prelude::*;

pub mod shared;
pub mod active_window;
pub mod state;
pub mod calls;

verus! {

} // verus!
