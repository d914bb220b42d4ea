//! Lua literal formatting used to build Hyprland's lua IPC commands.
use vstd::prelude::*;
use crate::text::{chars_of, push_char, push_str};

verus! {

/// How one character is written inside a Lua string literal.
pub open spec fn escape_char(c: char) -> Seq<char> {
    if c == '\\' {
        seq!['\\', '\\']
    } else if c == '"' {
        seq!['\\', '"']
    } else if c == '\n' {
        seq!['\\', 'n']
    } else if c == '\r' {
        seq!['\\', 'r']
    } else if c == '\t' {
        seq!['\\', 't']
    } else {
        seq![c]
    }
}

/// The escaped body of a Lua string literal.
pub open spec fn escape_seq(s: Seq<char>) -> Seq<char>
    decreases s.len(),
{
    if s.len() == 0 {
        Seq::empty()
    } else {
        escape_seq(s.drop_last()) + escape_char(s.last())
    }
}

/// A complete double-quoted Lua string literal.
pub open spec fn lua_string(s: Seq<char>) -> Seq<char> {
    seq!['"'] + escape_seq(s) + seq!['"']
}

/// How Lua reads the body of a double-quoted string literal, for the
/// escapes `\\`, `\"`, `\n`, `\r` and `\t`: `None` where the body holds
/// a quote that is not escaped (it would end the literal there) or a
/// backslash that starts no such escape.
pub open spec fn lua_unescape(s: Seq<char>) -> Option<Seq<char>>
    decreases s.len(),
{
    if s.len() == 0 {
        Some(Seq::empty())
    } else if s[0] == '"' {
        None
    } else if s[0] == '\\' {
        if s.len() < 2 {
            None
        } else {
            let c = if s[1] == 'n' {
                Some('\n')
            } else if s[1] == 'r' {
                Some('\r')
            } else if s[1] == 't' {
                Some('\t')
            } else if s[1] == '\\' || s[1] == '"' {
                Some(s[1])
            } else {
                None
            };
            match (c, lua_unescape(s.skip(2))) {
                (Some(c), Some(r)) => Some(seq![c] + r),
                _ => None,
            }
        }
    } else {
        match lua_unescape(s.drop_first()) {
            Some(r) => Some(seq![s[0]] + r),
            None => None,
        }
    }
}

proof fn lemma_escape_front(s: Seq<char>)
    requires
        s.len() > 0,
    ensures
        escape_seq(s) == escape_char(s[0]) + escape_seq(s.drop_first()),
    decreases s.len(),
{
    if s.len() == 1 {
        assert(s.drop_last() =~= Seq::<char>::empty());
        assert(s.drop_first() =~= Seq::<char>::empty());
    } else {
        lemma_escape_front(s.drop_last());
        assert(s.drop_last().drop_first() =~= s.drop_first().drop_last());
        assert(s.drop_first().last() == s.last());
    }
}

proof fn lemma_unescape_char(c: char, rest: Seq<char>)
    ensures
        lua_unescape(escape_char(c) + rest) == match lua_unescape(rest) {
            Some(r) => Some(seq![c] + r),
            None => None::<Seq<char>>,
        },
{
    let e = escape_char(c) + rest;
    if escape_char(c).len() == 2 {
        assert(e.skip(2) =~= rest);
    } else {
        assert(e.drop_first() =~= rest);
    }
}

/// Lua reads the body of the literal `format_string` writes back as the
/// value itself: the body holds no quote that would end the literal early,
/// and every escape stands for the character it replaced.
pub proof fn law_lua_string_reads_back(s: Seq<char>)
    ensures
        lua_string(s) == seq!['"'] + escape_seq(s) + seq!['"'],
        lua_unescape(escape_seq(s)) == Some(s),
    decreases s.len(),
{
    if s.len() > 0 {
        lemma_escape_front(s);
        law_lua_string_reads_back(s.drop_first());
        lemma_unescape_char(s[0], escape_seq(s.drop_first()));
        assert(seq![s[0]] + s.drop_first() =~= s);
    }
}

/// Formats a value as a double-quoted Lua string, escaping backslashes,
/// quotes, newlines, carriage returns and tabs.
pub fn format_string(value: &str) -> (res: String)
    ensures
        res@ == lua_string(value@),
{
    let cs = chars_of(value);
    let mut f = String::new();
    push_char(&mut f, '"');
    let mut i: usize = 0;
    while i < cs.len()
        invariant
            i <= cs.len(),
            cs@ == value@,
            f@ == seq!['"'] + escape_seq(cs@.take(i as int)),
        decreases cs.len() - i,
    {
        let c = cs[i];
        assert(cs@.take(i as int + 1).drop_last() =~= cs@.take(i as int));
        if c == '\\' {
            push_char(&mut f, '\\');
            push_char(&mut f, '\\');
        } else if c == '"' {
            push_char(&mut f, '\\');
            push_char(&mut f, '"');
        } else if c == '\n' {
            push_char(&mut f, '\\');
            push_char(&mut f, 'n');
        } else if c == '\r' {
            push_char(&mut f, '\\');
            push_char(&mut f, 'r');
        } else if c == '\t' {
            push_char(&mut f, '\\');
            push_char(&mut f, 't');
        } else {
            push_char(&mut f, c);
        }
        i = i + 1;
        assert(f@ =~= seq!['"'] + escape_seq(cs@.take(i as int)));
    }
    push_char(&mut f, '"');
    assert(cs@.take(cs.len() as int) =~= cs@);
    f
}

/// A Lua table field `key = value, ` with the value written as is.
pub open spec fn raw_field(key: Seq<char>, value: Seq<char>) -> Seq<char> {
    key + " = "@ + value + ", "@
}

/// How a boolean is written in Lua.
pub open spec fn lua_bool(b: bool) -> Seq<char> {
    if b {
        "true"@
    } else {
        "false"@
    }
}

/// A Lua table field whose value is a quoted string.
pub open spec fn string_field(key: Seq<char>, value: Seq<char>) -> Seq<char> {
    raw_field(key, lua_string(value))
}

/// A Lua table field whose value is a boolean.
pub open spec fn bool_field(key: Seq<char>, value: bool) -> Seq<char> {
    raw_field(key, lua_bool(value))
}

/// Formats a field whose value is the given text, written raw.
pub fn format_raw_field(key: &str, value: &str) -> (res: String)
    ensures
        res@ == raw_field(key@, value@),
{
    let mut s = String::from_str(key);
    push_str(&mut s, " = ");
    push_str(&mut s, value);
    push_str(&mut s, ", ");
    s
}

/// Formats a field whose value, when present, is written raw; an absent
/// value gives nothing.
pub fn format_raw_field_opt(key: &str, value: &Option<String>) -> (res: String)
    ensures
        res@ == match value {
            Some(v) => raw_field(key@, v@),
            None => Seq::empty(),
        },
{
    match value {
        Some(v) => format_raw_field(key, v.as_str()),
        None => String::new(),
    }
}

/// Formats a field whose value is a quoted Lua string.
pub fn format_string_field(key: &str, value: &str) -> (res: String)
    ensures
        res@ == string_field(key@, value@),
{
    let v = format_string(value);
    format_raw_field(key, v.as_str())
}

/// Formats a string field when the value is present; nothing otherwise.
pub fn format_string_field_opt(key: &str, value: &Option<String>) -> (res: String)
    ensures
        res@ == match value {
            Some(v) => string_field(key@, v@),
            None => Seq::empty(),
        },
{
    match value {
        Some(v) => format_string_field(key, v.as_str()),
        None => String::new(),
    }
}

/// Formats a boolean field.
pub fn format_bool_field(key: &str, value: bool) -> (res: String)
    ensures
        res@ == bool_field(key@, value),
{
    format_raw_field(key, if value { "true" } else { "false" })
}

/// Formats a boolean field when the value is present; nothing otherwise.
pub fn format_bool_field_opt(key: &str, value: &Option<bool>) -> (res: String)
    ensures
        res@ == match value {
            Some(v) => bool_field(key@, *v),
            None => Seq::empty(),
        },
{
    match value {
        Some(v) => format_bool_field(key, *v),
        None => String::new(),
    }
}

} // verus!
