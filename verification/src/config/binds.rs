//! Adding and removing key bindings: the texts of the `bind` and `unbind`
//! keywords.
use vstd::prelude::*;
use crate::dispatch::{dispatch_command, dispatch_ok, gen_dispatch_str, DispatchType};
use crate::error::HyprError;
use crate::text::push_str;

verus! {

/// Enum for mod keys used in bind combinations
#[derive(Debug, Clone, Copy, PartialEq, Eq)]
#[allow(missing_docs)]
pub enum Mod {
    SUPER,
    SHIFT,
    ALT,
    CTRL,
    NONE,
}

/// How a mod key is written.
pub open spec fn mod_text(m: Mod) -> Seq<char> {
    match m {
        Mod::SUPER => "SUPER"@,
        Mod::SHIFT => "SHIFT"@,
        Mod::ALT => "ALT"@,
        Mod::CTRL => "CTRL"@,
        Mod::NONE => ""@,
    }
}

impl Mod {
    /// The mod key as its `Display` writes it.
    pub fn to_string(&self) -> (res: String)
        ensures
            res@ == mod_text(*self),
    {
        match self {
            Mod::SUPER => String::from_str("SUPER"),
            Mod::SHIFT => String::from_str("SHIFT"),
            Mod::ALT => String::from_str("ALT"),
            Mod::CTRL => String::from_str("CTRL"),
            Mod::NONE => String::from_str(""),
        }
    }
}

/// The mod keys written one after another.
pub open spec fn mods_joined(ms: Seq<Mod>) -> Seq<char>
    decreases ms.len(),
{
    if ms.len() == 0 {
        Seq::empty()
    } else {
        mods_joined(ms.drop_last()) + mod_text(ms.last())
    }
}

fn push_mods(s: &mut String, ms: &[Mod])
    ensures
        final(s)@ == old(s)@ + mods_joined(ms@),
{
    let ghost start = s@;
    let mut i: usize = 0;
    assert(ms@.take(0) =~= Seq::<Mod>::empty());
    assert(start + mods_joined(ms@.take(0)) =~= start);
    while i < ms.len()
        invariant
            i <= ms.len(),
            s@ == start + mods_joined(ms@.take(i as int)),
        decreases ms.len() - i,
    {
        let t = ms[i].to_string();
        push_str(s, t.as_str());
        assert(ms@.take(i as int + 1).drop_last() =~= ms@.take(i as int));
        assert(s@ =~= start + mods_joined(ms@.take(i as int + 1)));
        i = i + 1;
    }
    assert(ms@.take(ms.len() as int) =~= ms@);
}

/// Type for a key held by a bind
#[derive(Debug, Clone, PartialEq, Eq)]
pub enum Key<'a> {
    /// Variant for if the bind holds a modded key
    Mod(
        /// Mods
        &'a [Mod],
        /// Key
        &'a str,
    ),
    /// Variant for a regular key
    Key(&'a str),
}

/// How a key is written: a modded key as its mods, `_` and the key.
pub open spec fn key_text(k: Key) -> Seq<char> {
    match k {
        Key::Mod(m, s) => mods_joined(m@) + "_"@ + s@,
        Key::Key(s) => s@,
    }
}

fn push_key(s: &mut String, k: &Key)
    ensures
        final(s)@ == old(s)@ + key_text(*k),
{
    match k {
        Key::Mod(m, t) => {
            push_mods(s, m);
            push_str(s, "_");
            push_str(s, t);
        },
        Key::Key(t) => push_str(s, t),
    }
    assert(final(s)@ =~= old(s)@ + key_text(*k));
}

impl<'a> Key<'a> {
    /// The key as its `Display` writes it.
    pub fn to_string(&self) -> (res: String)
        ensures
            res@ == key_text(*self),
    {
        let mut s = String::new();
        push_key(&mut s, self);
        assert(s@ =~= key_text(*self));
        s
    }
}

/// Enum for bind flags
#[derive(Debug, Clone, Copy, PartialEq, Eq)]
#[allow(non_camel_case_types)]
pub enum Flag {
    /// Works when screen is locked
    l,
    /// Activates on release
    r,
    /// Repeats when held
    e,
    /// Non-consuming, key/mouse events will be passed to the active window in addition to triggering the dispatcher.
    n,
    /// Used for mouse binds
    m,
    /// Transparent, cannot be shadowed by other binds.
    t,
    /// Ignore mods, will ignore modifiers.
    i,
    /// Separate, will arbitrarily combine keys between each mod/key
    s,
    /// Has description, will allow you to write a description for your bind.
    d,
    /// Bypasses the app's requests to inhibit keybinds.
    p,
}

/// The letter of a bind flag.
pub open spec fn flag_char(f: Flag) -> char {
    match f {
        Flag::l => 'l',
        Flag::r => 'r',
        Flag::e => 'e',
        Flag::n => 'n',
        Flag::m => 'm',
        Flag::t => 't',
        Flag::i => 'i',
        Flag::s => 's',
        Flag::d => 'd',
        Flag::p => 'p',
    }
}

/// The letters of the flags, one after another.
pub open spec fn flags_joined(fs: Seq<Flag>) -> Seq<char> {
    fs.map_values(|f: Flag| flag_char(f))
}

impl Flag {
    /// The letter of the flag.
    pub fn letter(&self) -> (res: char)
        ensures
            res == flag_char(*self),
    {
        match self {
            Flag::l => 'l',
            Flag::r => 'r',
            Flag::e => 'e',
            Flag::n => 'n',
            Flag::m => 'm',
            Flag::t => 't',
            Flag::i => 'i',
            Flag::s => 's',
            Flag::d => 'd',
            Flag::p => 'p',
        }
    }
}

/// A struct used for indentifying bindings
#[derive(Debug, Clone)]
pub struct PartialBind<'a> {
    /// The modifiers used
    pub mods: &'a [Mod],
    /// The main key used
    pub key: Key<'a>,
}

/// A struct providing a key bind
#[derive(Debug, Clone)]
pub struct Binding<'a> {
    /// All the mods
    pub mods: &'a [Mod],
    /// The key
    pub key: Key<'a>,
    /// Bind flags
    pub flags: &'a [Flag],
    /// The dispatcher to be called once complete
    pub dispatcher: DispatchType<'a>,
}

/// Struct to hold methods for adding and removing binds
pub struct Binder;

/// The text naming a bind by its mods and key: `MODS,KEY`.
pub open spec fn partial_text(p: PartialBind) -> Seq<char> {
    mods_joined(p.mods@) + ","@ + key_text(p.key)
}

/// The text of a bind: `MODS,KEY,` and the dispatcher in its key binding
/// form.
pub open spec fn bind_text(b: Binding) -> Seq<char> {
    mods_joined(b.mods@) + ","@ + key_text(b.key) + ","@ + dispatch_command(b.dispatcher, false).1
}

impl Binder {
    /// The text naming a bind by its mods and key.
    pub fn gen_str_partial(p: PartialBind) -> (res: String)
        ensures
            res@ == partial_text(p),
    {
        let mut s = String::new();
        push_mods(&mut s, p.mods);
        push_str(&mut s, ",");
        push_key(&mut s, &p.key);
        assert(s@ =~= partial_text(p));
        s
    }

    /// The text of a bind, as the `bind` keyword takes it.
    pub fn gen_str(b: Binding) -> (res: Result<String, HyprError>)
        requires
            dispatch_ok(b.dispatcher),
        ensures
            res matches Ok(s) && s@ == bind_text(b),
    {
        let ghost bv = b;
        let Binding { mods, key, dispatcher, .. } = b;
        let mut s = Self::gen_str_partial(PartialBind { mods, key });
        let c = gen_dispatch_str(dispatcher, false)?;
        push_str(&mut s, ",");
        push_str(&mut s, c.data.as_str());
        Ok(s)
    }

    /// The name of the keyword that makes a bind with these flags: `bind`
    /// and the flags' letters.
    pub fn bind_keyword(flags: &[Flag]) -> (res: String)
        ensures
            res@ == "bind"@ + flags_joined(flags@),
    {
        let mut s = String::from_str("bind");
        let ghost start = s@;
        let mut i: usize = 0;
        while i < flags.len()
            invariant
                i <= flags.len(),
                start == "bind"@,
                s@ == start + flags_joined(flags@.take(i as int)),
            decreases flags.len() - i,
        {
            crate::text::push_char(&mut s, flags[i].letter());
            assert(flags_joined(flags@.take(i as int + 1)) =~= flags_joined(flags@.take(i as int)).push(flag_char(flags@[i as int])));
            assert(s@ =~= start + flags_joined(flags@.take(i as int + 1)));
            i = i + 1;
        }
        assert(flags@.take(flags.len() as int) =~= flags@);
        s
    }
}

} // verus!
