//! Helpers to configure Hyprland: key bindings.
pub mod binds;
