//! Key bindings written as calls of Hyprland's Lua `hl.bind`.
use vstd::prelude::*;
use crate::dispatch_new::ToDispatch;
use crate::error::{HyprError, HyprErrorView};
use crate::lua::{bool_field, format_bool_field, format_string_field, string_field};
use crate::text::{chars_eq_str, chars_of, push_str};
use crate::window_rule::fields_text;

verus! {

/// Enum for mod keys
#[derive(Debug, Clone, Copy, PartialEq, Eq)]
#[allow(missing_docs)]
pub enum Mod {
    Super,
    Shift,
    Alt,
    Ctrl,
}

/// How a mod key is written.
pub open spec fn mod_text(m: Mod) -> Seq<char> {
    match m {
        Mod::Super => "SUPER"@,
        Mod::Shift => "SHIFT"@,
        Mod::Alt => "ALT"@,
        Mod::Ctrl => "CTRL"@,
    }
}

impl Mod {
    /// The mod key as its `Display` writes it.
    pub fn to_string(&self) -> (res: String)
        ensures
            res@ == mod_text(*self),
    {
        match self {
            Mod::Super => String::from_str("SUPER"),
            Mod::Shift => String::from_str("SHIFT"),
            Mod::Alt => String::from_str("ALT"),
            Mod::Ctrl => String::from_str("CTRL"),
        }
    }
}

/// Enum for bind flags
#[derive(Debug, Clone, PartialEq, Eq)]
#[allow(missing_docs)]
pub enum Flag {
    Locked,
    Release,
    Click,
    Drag,
    LongPress,
    Repeating,
    NonConsuming,
    AutoConsuming,
    Mouse,
    Transparent,
    IgnoreMods,
    Separate,
    Description(String),
    Bypass,
    SubmapUniversal,
}

/// How a bind flag is written: a field set to `true`, or the description.
pub open spec fn flag_text(f: Flag) -> Seq<char> {
    match f {
        Flag::Locked => bool_field("locked"@, true),
        Flag::Release => bool_field("release"@, true),
        Flag::Click => bool_field("click"@, true),
        Flag::Drag => bool_field("drag"@, true),
        Flag::LongPress => bool_field("long_press"@, true),
        Flag::Repeating => bool_field("repeating"@, true),
        Flag::NonConsuming => bool_field("non_consuming"@, true),
        Flag::AutoConsuming => bool_field("auto_consuming"@, true),
        Flag::Mouse => bool_field("mouse"@, true),
        Flag::Transparent => bool_field("transparent"@, true),
        Flag::IgnoreMods => bool_field("ignore_mods"@, true),
        Flag::Separate => bool_field("separate"@, true),
        Flag::Description(d) => string_field("description"@, d@),
        Flag::Bypass => bool_field("bypass"@, true),
        Flag::SubmapUniversal => bool_field("submap_universal"@, true),
    }
}

impl Flag {
    /// The flag as its `Display` writes it.
    pub fn to_string(&self) -> (res: String)
        ensures
            res@ == flag_text(*self),
    {
        match self {
            Flag::Locked => format_bool_field("locked", true),
            Flag::Release => format_bool_field("release", true),
            Flag::Click => format_bool_field("click", true),
            Flag::Drag => format_bool_field("drag", true),
            Flag::LongPress => format_bool_field("long_press", true),
            Flag::Repeating => format_bool_field("repeating", true),
            Flag::NonConsuming => format_bool_field("non_consuming", true),
            Flag::AutoConsuming => format_bool_field("auto_consuming", true),
            Flag::Mouse => format_bool_field("mouse", true),
            Flag::Transparent => format_bool_field("transparent", true),
            Flag::IgnoreMods => format_bool_field("ignore_mods", true),
            Flag::Separate => format_bool_field("separate", true),
            Flag::Description(d) => format_string_field("description", d.as_str()),
            Flag::Bypass => format_bool_field("bypass", true),
            Flag::SubmapUniversal => format_bool_field("submap_universal", true),
        }
    }
}

/// A struct providing a key bind
#[derive(Debug, Clone)]
pub struct Binding<D: ToDispatch> {
    /// All the mods
    pub mods: Vec<Mod>,
    /// The key
    pub key: String,
    /// Dispatcher
    pub dispatcher: D,
    /// Bind flags
    pub flags: Vec<Flag>,
}

/// The mods of a key combination, each followed by ` + `.
pub open spec fn mods_text(ms: Seq<Mod>) -> Seq<char>
    decreases ms.len(),
{
    if ms.len() == 0 {
        Seq::empty()
    } else {
        mods_text(ms.drop_last()) + mod_text(ms.last()) + " + "@
    }
}

/// How a binding is written: `hl.bind("MODS + KEY"), DISPATCHER, { FLAGS})`.
pub open spec fn binding_text<D: ToDispatch>(b: Binding<D>) -> Seq<char> {
    "hl.bind("@ + "\""@ + mods_text(b.mods@) + b.key@ + "\""@ + ")"@ + ", "@ + b.dispatcher.dispatch_lua()
        + ", { "@ + fields_text(b.flags@.map_values(|f: Flag| flag_text(f))) + "})"@
}

/// What Hyprland's answer to a binding means: `ok` is success, anything
/// else fails with the answer.
pub open spec fn bind_reply(ret: Seq<char>) -> Result<(), HyprErrorView> {
    if ret == "ok"@ {
        Ok(())
    } else {
        Err(HyprErrorView::NotOkDispatch("Could not bind key: "@ + ret))
    }
}

fn push_mods(s: &mut String, ms: &Vec<Mod>)
    ensures
        final(s)@ == old(s)@ + mods_text(ms@),
{
    let ghost start = s@;
    let mut i: usize = 0;
    assert(ms@.take(0) =~= Seq::<Mod>::empty());
    assert(start + mods_text(ms@.take(0)) =~= start);
    while i < ms.len()
        invariant
            i <= ms.len(),
            s@ == start + mods_text(ms@.take(i as int)),
        decreases ms.len() - i,
    {
        let t = ms[i].to_string();
        push_str(s, t.as_str());
        push_str(s, " + ");
        assert(ms@.take(i as int + 1).drop_last() =~= ms@.take(i as int));
        assert(s@ =~= start + mods_text(ms@.take(i as int + 1)));
        i = i + 1;
    }
    assert(ms@.take(ms.len() as int) =~= ms@);
}

fn push_flags(s: &mut String, fs: &Vec<Flag>)
    ensures
        final(s)@ == old(s)@ + fields_text(fs@.map_values(|f: Flag| flag_text(f))),
{
    let ghost start = s@;
    let ghost all = fs@.map_values(|f: Flag| flag_text(f));
    let mut i: usize = 0;
    assert(all.take(0) =~= Seq::<Seq<char>>::empty());
    assert(start + fields_text(all.take(0)) =~= start);
    while i < fs.len()
        invariant
            i <= fs.len(),
            all == fs@.map_values(|f: Flag| flag_text(f)),
            s@ == start + fields_text(all.take(i as int)),
        decreases fs.len() - i,
    {
        let t = fs[i].to_string();
        push_str(s, t.as_str());
        assert(all.take(i as int + 1).drop_last() =~= all.take(i as int));
        assert(s@ =~= start + fields_text(all.take(i as int + 1)));
        i = i + 1;
    }
    assert(all.take(fs.len() as int) =~= all);
}

impl<D: ToDispatch> Binding<D> {
    /// The binding as its `Display` writes it.
    pub fn to_string(&self) -> (res: String)
        ensures
            res@ == binding_text(*self),
    {
        let mut s = String::from_str("hl.bind(");
        push_str(&mut s, "\"");
        push_mods(&mut s, &self.mods);
        push_str(&mut s, self.key.as_str());
        push_str(&mut s, "\"");
        push_str(&mut s, ")");
        push_str(&mut s, ", ");
        let d = self.dispatcher.to_string();
        push_str(&mut s, d.as_str());
        push_str(&mut s, ", { ");
        push_flags(&mut s, &self.flags);
        push_str(&mut s, "})");
        s
    }

    /// The command that makes the binding: `eval` and the binding.
    pub fn command_text(&self) -> (res: String)
        ensures
            res@ == "eval "@ + binding_text(*self),
    {
        let mut s = String::from_str("eval ");
        let t = self.to_string();
        push_str(&mut s, t.as_str());
        s
    }

    /// Reads Hyprland's answer to a binding.
    pub fn reply(ret: &str) -> (res: Result<(), HyprError>)
        ensures
            match bind_reply(ret@) {
                Ok(()) => res is Ok,
                Err(e) => res matches Err(r) && r@ == e,
            },
    {
        let v = chars_of(ret);
        if chars_eq_str(&v, "ok") {
            Ok(())
        } else {
            let mut m = String::from_str("Could not bind key: ");
            push_str(&mut m, ret);
            Err(HyprError::NotOkDispatch(m))
        }
    }
}

} // verus!
