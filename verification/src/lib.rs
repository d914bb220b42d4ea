//! Verified core of a client library for the Hyprland compositor's IPC.
use vstd::prelude::*;

pub mod text;
pub mod lua;
pub mod error;
pub mod shared;
pub mod hyprpaper;
pub mod event_listener;
pub mod dispatch;
pub mod keyword;
pub mod data;
pub mod window_rule;
pub mod dispatch_new;
pub mod bind_new;
pub mod config;
pub mod ctl;
pub mod instance;

verus! {

} // verus!
