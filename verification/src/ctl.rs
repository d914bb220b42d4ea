//! Commands for `hyprctl`: each module writes the command it sends.
use vstd::prelude::*;
use crate::text::{byte_hex, push_byte_hex, push_str};

pub mod dismissnotify;
pub mod kill;
pub mod notify;
pub mod output;
pub mod plugin;
pub mod reload;
pub mod set_cursor;
pub mod set_error;
pub mod set_prop;
pub mod switch_xkb_layout;

verus! {

/// A 8-bit color with a alpha channel
#[derive(Debug, Copy, Clone, PartialEq, Eq)]
pub struct Color(pub u8, pub u8, pub u8, pub u8);

/// How a color is written: `rgba(` and the four channels in two lowercase
/// hexadecimal digits each, then `)`.
pub open spec fn color_text(c: Color) -> Seq<char> {
    "rgba("@ + byte_hex(c.0) + byte_hex(c.1) + byte_hex(c.2) + byte_hex(c.3) + ")"@
}

impl Color {
    /// A color of its four channels.
    pub fn new(r: u8, g: u8, b: u8, a: u8) -> (res: Self)
        ensures
            res == Color(r, g, b, a),
    {
        Color(r, g, b, a)
    }

    /// The color as its `Display` writes it.
    pub fn to_string(&self) -> (res: String)
        ensures
            res@ == color_text(*self),
    {
        let mut s = String::from_str("rgba(");
        push_byte_hex(&mut s, self.0);
        push_byte_hex(&mut s, self.1);
        push_byte_hex(&mut s, self.2);
        push_byte_hex(&mut s, self.3);
        push_str(&mut s, ")");
        s
    }
}

} // verus!
