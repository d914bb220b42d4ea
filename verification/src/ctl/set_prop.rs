//! Provides things to setting props
use vstd::prelude::*;
use crate::ctl::{color_text, Color};
use crate::shared::{CommandContent, CommandFlag};
use crate::text::{int_dec, prefix_of, push_i128, push_str};

verus! {

/// `lock` for a locked prop, nothing otherwise.
pub open spec fn lock_text(b: bool) -> Seq<char> {
    if b { "lock"@ } else { ""@ }
}

/// `1` for true, `0` for false.
pub open spec fn bit_text(b: bool) -> Seq<char> {
    if b { "1"@ } else { "0"@ }
}

fn push_lock(s: &mut String, b: bool)
    ensures
        final(s)@ == old(s)@ + lock_text(b),
{
    if b {
        push_str(s, "lock");
    } else {
        push_str(s, "");
    }
}

fn push_bit(s: &mut String, b: bool)
    ensures
        final(s)@ == old(s)@ + bit_text(b),
{
    if b {
        push_str(s, "1");
    } else {
        push_str(s, "0");
    }
}

/// Type that represents a prop; the alphas are held as the decimal texts
/// Hyprland reads.
#[derive(Clone, PartialEq, Debug)]
#[allow(missing_docs)]
pub enum PropType {
    AnimationStyle(String),
    Rounding(i64, bool),
    ForceNoBlur(bool, bool),
    ForceOpaque(bool, bool),
    ForceOpaqueOverriden(bool, bool),
    ForceAllowsInput(bool, bool),
    ForceNoAnims(bool, bool),
    ForceNoBorder(bool, bool),
    ForceNoShadow(bool, bool),
    WindowDanceCompat(bool, bool),
    NoMaxSize(bool, bool),
    DimAround(bool, bool),
    AlphaOverride(bool, bool),
    Alpha(String, bool),
    AlphaInactiveOverride(bool, bool),
    AlphaInactive(String, bool),
    ActiveBorderColor(Color, bool),
    InactiveBorderColor(Color, bool),
}

/// A switch prop: its name, `1` or `0`, and the lock.
pub open spec fn switch_text(name: Seq<char>, on: bool, locked: bool) -> Seq<char> {
    name + " "@ + bit_text(on) + " "@ + lock_text(locked)
}

/// How a prop is written.
pub open spec fn prop_text(p: PropType) -> Seq<char> {
    match p {
        PropType::AnimationStyle(s) => "animationstyle "@ + s@,
        PropType::Rounding(n, l) => "rounding "@ + int_dec(n as int) + " "@ + lock_text(l),
        PropType::ForceNoBlur(b, l) => switch_text("forcenoblur"@, b, l),
        PropType::ForceOpaque(b, l) => switch_text("forceopaque"@, b, l),
        PropType::ForceOpaqueOverriden(b, l) => switch_text("forceopaqueoverriden"@, b, l),
        PropType::ForceAllowsInput(b, l) => switch_text("forceallowsinput"@, b, l),
        PropType::ForceNoAnims(b, l) => switch_text("forcenoanims"@, b, l),
        PropType::ForceNoBorder(b, l) => switch_text("forcenoborder"@, b, l),
        PropType::ForceNoShadow(b, l) => switch_text("forcenoshadow"@, b, l),
        PropType::WindowDanceCompat(b, l) => switch_text("windowdancecompat"@, b, l),
        PropType::NoMaxSize(b, l) => switch_text("nomaxsize"@, b, l),
        PropType::DimAround(b, l) => switch_text("dimaround"@, b, l),
        PropType::AlphaOverride(b, l) => switch_text("alphaoverride"@, b, l),
        PropType::Alpha(a, l) => "alpha "@ + a@ + " "@ + lock_text(l),
        PropType::AlphaInactiveOverride(b, l) => switch_text("alphainactiveoverride"@, b, l),
        PropType::AlphaInactive(a, l) => "alphainactive "@ + a@ + " "@ + lock_text(l),
        PropType::ActiveBorderColor(c, l) => "alphabordercolor "@ + color_text(c) + " "@ + lock_text(l),
        PropType::InactiveBorderColor(c, l) => "inalphabordercolor "@ + color_text(c) + " "@ + lock_text(l),
    }
}

fn switch_string(name: &str, on: bool, locked: bool) -> (res: String)
    ensures
        res@ == switch_text(name@, on, locked),
{
    let mut s = String::from_str(name);
    push_str(&mut s, " ");
    push_bit(&mut s, on);
    push_str(&mut s, " ");
    push_lock(&mut s, locked);
    s
}

impl PropType {
    /// The prop as its `Display` writes it.
    pub fn to_string(&self) -> (res: String)
        ensures
            res@ == prop_text(*self),
    {
        match self {
            PropType::AnimationStyle(st) => {
                let mut s = String::from_str("animationstyle ");
                push_str(&mut s, st.as_str());
                s
            },
            PropType::Rounding(n, l) => {
                let mut s = String::from_str("rounding ");
                push_i128(&mut s, *n as i128);
                push_str(&mut s, " ");
                push_lock(&mut s, *l);
                s
            },
            PropType::ForceNoBlur(b, l) => switch_string("forcenoblur", *b, *l),
            PropType::ForceOpaque(b, l) => switch_string("forceopaque", *b, *l),
            PropType::ForceOpaqueOverriden(b, l) => switch_string("forceopaqueoverriden", *b, *l),
            PropType::ForceAllowsInput(b, l) => switch_string("forceallowsinput", *b, *l),
            PropType::ForceNoAnims(b, l) => switch_string("forcenoanims", *b, *l),
            PropType::ForceNoBorder(b, l) => switch_string("forcenoborder", *b, *l),
            PropType::ForceNoShadow(b, l) => switch_string("forcenoshadow", *b, *l),
            PropType::WindowDanceCompat(b, l) => switch_string("windowdancecompat", *b, *l),
            PropType::NoMaxSize(b, l) => switch_string("nomaxsize", *b, *l),
            PropType::DimAround(b, l) => switch_string("dimaround", *b, *l),
            PropType::AlphaOverride(b, l) => switch_string("alphaoverride", *b, *l),
            PropType::Alpha(a, l) => {
                let mut s = String::from_str("alpha ");
                push_str(&mut s, a.as_str());
                push_str(&mut s, " ");
                push_lock(&mut s, *l);
                s
            },
            PropType::AlphaInactiveOverride(b, l) => switch_string("alphainactiveoverride", *b, *l),
            PropType::AlphaInactive(a, l) => {
                let mut s = String::from_str("alphainactive ");
                push_str(&mut s, a.as_str());
                push_str(&mut s, " ");
                push_lock(&mut s, *l);
                s
            },
            PropType::ActiveBorderColor(c, l) => {
                let mut s = String::from_str("alphabordercolor ");
                let t = c.to_string();
                push_str(&mut s, t.as_str());
                push_str(&mut s, " ");
                push_lock(&mut s, *l);
                s
            },
            PropType::InactiveBorderColor(c, l) => {
                let mut s = String::from_str("inalphabordercolor ");
                let t = c.to_string();
                push_str(&mut s, t.as_str());
                push_str(&mut s, " ");
                push_lock(&mut s, *l);
                s
            },
        }
    }
}

/// The command that sets a prop of a window.
pub fn command(ident: &str, prop: &PropType, lock: bool) -> (res: CommandContent)
    ensures
        res.flag == CommandFlag::Empty,
        res.data@ == "setprop "@ + ident@ + " "@ + prop_text(*prop) + " "@ + lock_text(lock),
{
    let mut s = String::from_str("setprop ");
    push_str(&mut s, ident);
    push_str(&mut s, " ");
    let t = prop.to_string();
    push_str(&mut s, t.as_str());
    push_str(&mut s, " ");
    push_lock(&mut s, lock);
    CommandContent { flag: CommandFlag::Empty, data: s }
}

/// The name Hyprland knows each window property by.
pub open spec fn prop_name(p: PropType) -> Seq<char> {
    match p {
        PropType::AnimationStyle(_) => "animationstyle"@,
        PropType::Rounding(_, _) => "rounding"@,
        PropType::ForceNoBlur(_, _) => "forcenoblur"@,
        PropType::ForceOpaque(_, _) => "forceopaque"@,
        PropType::ForceOpaqueOverriden(_, _) => "forceopaqueoverriden"@,
        PropType::ForceAllowsInput(_, _) => "forceallowsinput"@,
        PropType::ForceNoAnims(_, _) => "forcenoanims"@,
        PropType::ForceNoBorder(_, _) => "forcenoborder"@,
        PropType::ForceNoShadow(_, _) => "forcenoshadow"@,
        PropType::WindowDanceCompat(_, _) => "windowdancecompat"@,
        PropType::NoMaxSize(_, _) => "nomaxsize"@,
        PropType::DimAround(_, _) => "dimaround"@,
        PropType::AlphaOverride(_, _) => "alphaoverride"@,
        PropType::Alpha(_, _) => "alpha"@,
        PropType::AlphaInactiveOverride(_, _) => "alphainactiveoverride"@,
        PropType::AlphaInactive(_, _) => "alphainactive"@,
        PropType::ActiveBorderColor(_, _) => "alphabordercolor"@,
        PropType::InactiveBorderColor(_, _) => "inalphabordercolor"@,
    }
}

/// The position of a property's kind among the kinds.
pub open spec fn prop_kind(p: PropType) -> nat {
    match p {
        PropType::AnimationStyle(_) => 0,
        PropType::Rounding(_, _) => 1,
        PropType::ForceNoBlur(_, _) => 2,
        PropType::ForceOpaque(_, _) => 3,
        PropType::ForceOpaqueOverriden(_, _) => 4,
        PropType::ForceAllowsInput(_, _) => 5,
        PropType::ForceNoAnims(_, _) => 6,
        PropType::ForceNoBorder(_, _) => 7,
        PropType::ForceNoShadow(_, _) => 8,
        PropType::WindowDanceCompat(_, _) => 9,
        PropType::NoMaxSize(_, _) => 10,
        PropType::DimAround(_, _) => 11,
        PropType::AlphaOverride(_, _) => 12,
        PropType::Alpha(_, _) => 13,
        PropType::AlphaInactiveOverride(_, _) => 14,
        PropType::AlphaInactive(_, _) => 15,
        PropType::ActiveBorderColor(_, _) => 16,
        PropType::InactiveBorderColor(_, _) => 17,
    }
}

/// The text of a property starts with the property's name, then a space.
#[verifier::spinoff_prover]
pub proof fn law_prop_text_starts_with_its_name(p: PropType)
    ensures
        prefix_of(prop_name(p) + " "@, prop_text(p)),
{
    let t = prop_text(p);
    let w = prop_name(p) + " "@;
    match p {
        PropType::AnimationStyle(_) => {
            reveal_strlit("animationstyle");
            reveal_strlit("animationstyle ");
            reveal_strlit(" ");
            assert(w =~= "animationstyle "@);
            assert(t.take(w.len() as int) =~= w);
        },
        PropType::Rounding(_, _) => {
            reveal_strlit("rounding");
            reveal_strlit("rounding ");
            reveal_strlit(" ");
            assert(w =~= "rounding "@);
            assert(t.take(w.len() as int) =~= w);
        },
        PropType::ForceNoBlur(_, _) => {
            assert(t.take(w.len() as int) =~= w);
        },
        PropType::ForceOpaque(_, _) => {
            assert(t.take(w.len() as int) =~= w);
        },
        PropType::ForceOpaqueOverriden(_, _) => {
            assert(t.take(w.len() as int) =~= w);
        },
        PropType::ForceAllowsInput(_, _) => {
            assert(t.take(w.len() as int) =~= w);
        },
        PropType::ForceNoAnims(_, _) => {
            assert(t.take(w.len() as int) =~= w);
        },
        PropType::ForceNoBorder(_, _) => {
            assert(t.take(w.len() as int) =~= w);
        },
        PropType::ForceNoShadow(_, _) => {
            assert(t.take(w.len() as int) =~= w);
        },
        PropType::WindowDanceCompat(_, _) => {
            assert(t.take(w.len() as int) =~= w);
        },
        PropType::NoMaxSize(_, _) => {
            assert(t.take(w.len() as int) =~= w);
        },
        PropType::DimAround(_, _) => {
            assert(t.take(w.len() as int) =~= w);
        },
        PropType::AlphaOverride(_, _) => {
            assert(t.take(w.len() as int) =~= w);
        },
        PropType::Alpha(_, _) => {
            reveal_strlit("alpha");
            reveal_strlit("alpha ");
            reveal_strlit(" ");
            assert(w =~= "alpha "@);
            assert(t.take(w.len() as int) =~= w);
        },
        PropType::AlphaInactiveOverride(_, _) => {
            assert(t.take(w.len() as int) =~= w);
        },
        PropType::AlphaInactive(_, _) => {
            reveal_strlit("alphainactive");
            reveal_strlit("alphainactive ");
            reveal_strlit(" ");
            assert(w =~= "alphainactive "@);
            assert(t.take(w.len() as int) =~= w);
        },
        PropType::ActiveBorderColor(_, _) => {
            reveal_strlit("alphabordercolor");
            reveal_strlit("alphabordercolor ");
            reveal_strlit(" ");
            assert(w =~= "alphabordercolor "@);
            assert(t.take(w.len() as int) =~= w);
        },
        PropType::InactiveBorderColor(_, _) => {
            reveal_strlit("inalphabordercolor");
            reveal_strlit("inalphabordercolor ");
            reveal_strlit(" ");
            assert(w =~= "inalphabordercolor "@);
            assert(t.take(w.len() as int) =~= w);
        },
    }
}

/// Properties of different kinds have different names.
pub proof fn law_prop_names_differ(p: PropType, q: PropType)
    requires
        prop_kind(p) != prop_kind(q),
    ensures
        prop_name(p) != prop_name(q),
{
    reveal_strlit("animationstyle");
    reveal_strlit("animationstyle ");
    reveal_strlit("rounding");
    reveal_strlit("rounding ");
    reveal_strlit("forcenoblur");
    reveal_strlit("forceopaque");
    reveal_strlit("forceopaqueoverriden");
    reveal_strlit("forceallowsinput");
    reveal_strlit("forcenoanims");
    reveal_strlit("forcenoborder");
    reveal_strlit("forcenoshadow");
    reveal_strlit("windowdancecompat");
    reveal_strlit("nomaxsize");
    reveal_strlit("dimaround");
    reveal_strlit("alphaoverride");
    reveal_strlit("alpha");
    reveal_strlit("alpha ");
    reveal_strlit("alphainactiveoverride");
    reveal_strlit("alphainactive");
    reveal_strlit("alphainactive ");
    reveal_strlit("alphabordercolor");
    reveal_strlit("alphabordercolor ");
    reveal_strlit("inalphabordercolor");
    reveal_strlit("inalphabordercolor ");
    let (a, b) = (prop_name(p), prop_name(q));
    if a == b {
        assert(a.len() == b.len() && a[0] == b[0]);
        if a.len() >= 8 {
            assert(a[5] == b[5] && a[7] == b[7]);
        }
    }
}

} // verus!
