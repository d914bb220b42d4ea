//! Values of Hyprland options that have a shape of their own: colors,
//! gradients and rectangles, read from and written as Hyprland's text.
//!
//! The decimal form of a color, `rgba(r,g,b,alpha)`, gives the alpha as a
//! fraction between 0 and 1; reading that fraction is left to a function
//! the caller hands in (`alpha`), which turns its text into a channel
//! value.
use vstd::prelude::*;
use crate::error::{result_view, HyprError, HyprErrorView};
use crate::text::{
    accumulate, digit_value, is_ws, lemma_accumulate_byte_hex, lemma_accumulate_concat, lemma_byte_hex_chars,
    lemma_int_dec_chars, lemma_parse_int_dec, lemma_split_char_front, lemma_split_char_single,
    lemma_trim_unchanged, byte_hex, chars_of, find_char_from, has_char, lemma_index_of, parse_int, parse_int_chars,
    push_byte_hex, push_i128, push_str, slice_of, split_all, split_char, starts_with_str,
    ends_with_str, string_of, trim, trim_chars, views, int_dec,
};

verus! {

/// The command that sets an option: `keyword`, the option's name and its
/// value's text, parted by spaces; a value of no known kind (`None` here)
/// is refused.
pub fn set_command(key: &str, value_text: Option<&str>) -> (res: Result<crate::shared::CommandContent, HyprError>)
    ensures
        match value_text {
            Some(v) => res matches Ok(c) && c.flag == crate::shared::CommandFlag::Empty && c.data@ == "keyword "@ + key@ + " "@ + v@,
            None => res matches Err(e) && e@ == HyprErrorView::InvalidOptionValue,
        },
{
    match value_text {
        Some(v) => {
            let mut data = String::from_str("keyword ");
            push_str(&mut data, key);
            push_str(&mut data, " ");
            push_str(&mut data, v);
            Ok(crate::shared::CommandContent { flag: crate::shared::CommandFlag::Empty, data })
        },
        None => Err(HyprError::InvalidOptionValue),
    }
}

/// A Color made up of rgba values (0-255)
#[derive(Debug, Clone, Copy)]
pub struct HyprColor {
    /// Red Channel (0-255)
    pub r: u8,
    /// Green Channel (0-255)
    pub g: u8,
    /// Blue Channel (0-255)
    pub b: u8,
    /// Alpha (0-255)
    pub a: u8,
}

/// The color of an `AARRGGBB` number.
pub open spec fn argb_color(i: int) -> HyprColor {
    HyprColor {
        a: ((i / 0x1000000) % 256) as u8,
        r: ((i / 0x10000) % 256) as u8,
        g: ((i / 0x100) % 256) as u8,
        b: (i % 256) as u8,
    }
}

/// How a color is written: `rgba(` and the four channels in two
/// lowercase hexadecimal digits each, then `)`.
pub open spec fn color_text(c: HyprColor) -> Seq<char> {
    "rgba("@ + byte_hex(c.r) + byte_hex(c.g) + byte_hex(c.b) + byte_hex(c.a) + ")"@
}

/// Whether `p` begins `s`.
pub open spec fn begins(s: Seq<char>, p: Seq<char>) -> bool {
    p.len() <= s.len() && s.take(p.len() as int) == p
}

/// Whether `p` ends `s`.
pub open spec fn finishes(s: Seq<char>, p: Seq<char>) -> bool {
    p.len() <= s.len() && s.skip(s.len() - p.len()) == p
}

/// A hexadecimal `u32` read as `u32::from_str_radix(_, 16)` does.
pub open spec fn hex_u32(s: Seq<char>) -> Option<int> {
    match parse_int(s, 16, false, 0, 0xffff_ffff) {
        Ok(i) => Some(i),
        Err(_) => None,
    }
}

/// A decimal `u8` read as `u8::from_str_radix(_, 10)` does, after
/// trimming.
pub open spec fn dec_u8(s: Seq<char>) -> Option<u8> {
    match parse_int(trim(s), 10, false, 0, 255) {
        Ok(i) => Some(i as u8),
        Err(_) => None,
    }
}

/// The color of the legacy `0xAARRGGBB` form: after trimming, a `0x`
/// prefix is dropped; without one the text is read as given, untrimmed.
pub open spec fn argb_str_color(s: Seq<char>) -> Option<HyprColor> {
    let t = trim(s);
    let body = if begins(t, "0x"@) { t.skip(2) } else { s };
    match hex_u32(body) {
        Some(i) => Some(argb_color(i)),
        None => None,
    }
}

/// What is between the parentheses of `name(...)`, after trimming.
pub open spec fn inside(s: Seq<char>, name: Seq<char>) -> Option<Seq<char>> {
    let t = trim(s);
    if begins(t, name) && finishes(t.skip(name.len() as int), ")"@) {
        Some(t.skip(name.len() as int).drop_last())
    } else {
        None
    }
}

/// The color the inside of an `rgb(...)` gives: three decimal channels
/// parted by commas, or six hexadecimal digits `RRGGBB`; the alpha is full.
pub open spec fn rgb_inner_color(inner: Seq<char>) -> Option<HyprColor> {
    if has_char(inner, ',') {
        let parts = split_char(inner, ',');
        if parts.len() == 3 && dec_u8(parts[0]) is Some && dec_u8(parts[1]) is Some && dec_u8(parts[2]) is Some {
            Some(HyprColor {
                r: dec_u8(parts[0])->0,
                g: dec_u8(parts[1])->0,
                b: dec_u8(parts[2])->0,
                a: 255,
            })
        } else {
            None
        }
    } else {
        // a text of six characters that is not six bytes long holds a
        // character that is no hexadecimal digit, so counting characters
        // decides as counting bytes does
        let h = trim(inner);
        if h.len() != 6 {
            None
        } else {
            match hex_u32(h) {
                Some(i) => Some(argb_color(0xff00_0000 + i)),
                None => None,
            }
        }
    }
}

/// The color of the `rgb(...)` form.
pub open spec fn rgb_str_color(s: Seq<char>) -> Option<HyprColor> {
    match inside(s, "rgb("@) {
        None => None,
        Some(inner) => rgb_inner_color(inner),
    }
}

/// The alpha text the inside of an `rgba(...)` hands to the alpha
/// reader: the trimmed fourth piece, when there is one and the first three
/// channels were read.
pub open spec fn inner_alpha_text(inner: Seq<char>) -> Option<Seq<char>> {
    if has_char(inner, ',') {
        let parts = split_char(inner, ',');
        if parts.len() >= 4 && dec_u8(parts[0]) is Some && dec_u8(parts[1]) is Some && dec_u8(parts[2]) is Some {
            Some(trim(parts[3]))
        } else {
            None
        }
    } else {
        None
    }
}

/// The color the inside of an `rgba(...)` gives, given what the alpha
/// reader returned: three decimal channels and an alpha parted by commas,
/// or eight hexadecimal digits `RRGGBBAA`.
pub open spec fn rgba_inner_color(inner: Seq<char>, alpha: Option<u8>) -> Option<HyprColor> {
    if has_char(inner, ',') {
        let parts = split_char(inner, ',');
        if parts.len() == 4 && dec_u8(parts[0]) is Some && dec_u8(parts[1]) is Some
            && dec_u8(parts[2]) is Some && alpha is Some {
            Some(HyprColor {
                r: dec_u8(parts[0])->0,
                g: dec_u8(parts[1])->0,
                b: dec_u8(parts[2])->0,
                a: alpha->0,
            })
        } else {
            None
        }
    } else {
        let h = trim(inner);
        if h.len() != 8 {
            None
        } else {
            match hex_u32(h) {
                Some(i) => Some(HyprColor {
                    r: ((i / 0x1000000) % 256) as u8,
                    g: ((i / 0x10000) % 256) as u8,
                    b: ((i / 0x100) % 256) as u8,
                    a: (i % 256) as u8,
                }),
                None => None,
            }
        }
    }
}

/// The alpha text the `rgba(...)` form hands to the alpha reader.
pub open spec fn rgba_alpha_text(s: Seq<char>) -> Option<Seq<char>> {
    match inside(s, "rgba("@) {
        None => None,
        Some(inner) => inner_alpha_text(inner),
    }
}

/// The color of the `rgba(...)` form, given what the alpha reader
/// returned.
pub open spec fn rgba_str_color(s: Seq<char>, alpha: Option<u8>) -> Option<HyprColor> {
    match inside(s, "rgba("@) {
        None => None,
        Some(inner) => rgba_inner_color(inner, alpha),
    }
}

/// That the alpha reader, given a text whose characters are `at`, may
/// return `ret`.
pub open spec fn alpha_gives<F: Fn(&str) -> Option<u8>>(alpha: F, at: Seq<char>, ret: Option<u8>) -> bool {
    exists|x: &str| x@ == at && #[trigger] call_ensures(alpha, (x,), ret)
}

/// What the alpha reader returned for a color text: when the text hands
/// it an alpha, one of its possible answers; otherwise nothing.
pub open spec fn alpha_answer<F: Fn(&str) -> Option<u8>>(alpha: F, at: Option<Seq<char>>, ret: Option<u8>) -> bool {
    match at {
        Some(t) => alpha_gives(alpha, t, ret),
        None => ret is None,
    }
}

/// The text `str::to_lowercase` makes of a text.
pub uninterp spec fn lowercase(s: Seq<char>) -> Seq<char>;

/// `A`..`Z` to `a`..`z`, every other character unchanged.
pub open spec fn ascii_lower(c: char) -> char {
    if 'A' <= c && c <= 'Z' {
        ((c as u32) + 32) as char
    } else {
        c
    }
}

/// Whether every character of a text is ASCII.
pub open spec fn is_ascii_text(s: Seq<char>) -> bool {
    forall|i: int| 0 <= i < s.len() ==> (#[trigger] s[i] as u32) < 128
}

/// The lowercase of a text: for ASCII text, `A`..`Z` made `a`..`z` and all
/// else kept; for other text, what `str::to_lowercase` makes of it.
pub open spec fn lower_text(s: Seq<char>) -> Seq<char> {
    if is_ascii_text(s) {
        s.map_values(|c: char| ascii_lower(c))
    } else {
        lowercase(s)
    }
}

/// Lowercases a text with `str::to_lowercase`. The result is named by
/// `lowercase`; beyond that, std documents a character's lowercase
/// mapping as the character itself when it has none other, so text of
/// ASCII characters only comes back with `A`..`Z` made `a`..`z` and all
/// else kept. What it does to other characters is not stated.
#[verifier::external_body]
fn to_lowercase(s: &str) -> (res: String)
    ensures
        res@ == lowercase(s@),
        is_ascii_text(s@) ==> res@ == s@.map_values(|c: char| ascii_lower(c)),
{
    s.to_lowercase()
}

/// Reads a decimal `u8` from a trimmed piece.
fn read_dec_u8(p: &Vec<char>) -> (res: Option<u8>)
    ensures
        res == dec_u8(p@),
{
    let t = trim_chars(p);
    match parse_int_chars(&t, 10, false, 0, 255) {
        Ok(i) => {
            proof {
                crate::text::lemma_parse_int_range(t@, 10, false, 0, 255);
            }
            Some(i as u8)
        },
        Err(_) => None,
    }
}

/// Reads a hexadecimal `u32`.
fn read_hex_u32(p: &Vec<char>) -> (res: Option<u32>)
    ensures
        match hex_u32(p@) {
            Some(i) => res == Some(i as u32) && 0 <= i <= 0xffff_ffff,
            None => res is None,
        },
{
    match parse_int_chars(p, 16, false, 0, 0xffff_ffff) {
        Ok(i) => {
            proof {
                crate::text::lemma_parse_int_range(p@, 16, false, 0, 0xffff_ffff);
            }
            Some(i as u32)
        },
        Err(_) => None,
    }
}

/// The text between `name(` and `)`, after trimming.
fn read_inside(s: &Vec<char>, name: &str) -> (res: Option<Vec<char>>)
    ensures
        match inside(s@, name@) {
            Some(i) => res matches Some(r) && r@ == i,
            None => res is None,
        },
{
    let t = trim_chars(s);
    if !starts_with_str(&t, name) {
        return None;
    }
    let n = chars_of(name);
    let rest = slice_of(&t, n.len(), t.len());
    assert(rest@ =~= t@.skip(name@.len() as int));
    if !ends_with_str(&rest, ")") {
        return None;
    }
    proof {
        reveal_strlit(")");
    }
    let inner = slice_of(&rest, 0, rest.len() - 1);
    assert(inner@ =~= rest@.drop_last());
    Some(inner)
}

fn contains_char(v: &Vec<char>, c: char) -> (res: bool)
    ensures
        res == has_char(v@, c),
{
    let k = find_char_from(v, 0, c);
    proof {
        assert(v@.skip(0) =~= v@);
        lemma_index_of(v@, c);
    }
    k < v.len()
}

impl HyprColor {
    /// Convert an AARRGGBB u32 value to a HyprColor
    pub fn from_argb_u32(i: u32) -> (res: Self)
        ensures
            res == argb_color(i as int),
    {
        let res = Self {
            a: (i >> 24) as u8,
            r: ((i >> 16) & 0x00FF) as u8,
            g: ((i >> 8) & 0x0000FF) as u8,
            b: (i & 0x000000FF) as u8,
        };
        assert((i >> 24) as u8 == ((i / 0x1000000) % 256) as u8) by (bit_vector);
        assert(((i >> 16) & 0x00FF) as u8 == ((i / 0x10000) % 256) as u8) by (bit_vector);
        assert(((i >> 8) & 0x0000FF) as u8 == ((i / 0x100) % 256) as u8) by (bit_vector);
        assert((i & 0x000000FF) as u8 == (i % 256) as u8) by (bit_vector);
        res
    }

    /// The color as its `Display` writes it: `rgba(rrggbbaa)`.
    pub fn to_string(&self) -> (res: String)
        ensures
            res@ == color_text(*self),
    {
        let mut s = String::from_str("rgba(");
        push_byte_hex(&mut s, self.r);
        push_byte_hex(&mut s, self.g);
        push_byte_hex(&mut s, self.b);
        push_byte_hex(&mut s, self.a);
        push_str(&mut s, ")");
        s
    }

    /// Try to convert from &str in the argb legacy format to HyprColor,
    /// e.g. 0xeeb3ff1a
    pub fn try_from_argb_str(s: &str) -> (res: Option<Self>)
        ensures
            res == argb_str_color(s@),
    {
        let v = chars_of(s);
        let t = trim_chars(&v);
        proof {
            reveal_strlit("0x");
        }
        if starts_with_str(&t, "0x") {
            let body = slice_of(&t, 2, t.len());
            assert(body@ =~= t@.skip(2));
            match read_hex_u32(&body) {
                Some(i) => Some(Self::from_argb_u32(i)),
                None => None,
            }
        } else {
            match read_hex_u32(&v) {
                Some(i) => Some(Self::from_argb_u32(i)),
                None => None,
            }
        }
    }

    /// Try to convert from &str in the rgb format to HyprColor,
    /// e.g. rgb(b3ff1a), or the decimal equivalent rgb(179,255,26)
    pub fn try_from_rgb_str(s: &str) -> (res: Option<Self>)
        ensures
            res == rgb_str_color(s@),
    {
        let v = chars_of(s);
        match read_inside(&v, "rgb(") {
            Some(inner) => if contains_char(&inner, ',') {
                rgb_decimal(&inner)
            } else {
                rgb_hex(&inner)
            },
            None => None,
        }
    }

    /// Try to convert from &str in the rgba format to HyprColor,
    /// e.g. rgba(b3ff1aee), or the decimal equivalent rgba(179,255,26,0.933);
    /// the alpha of the decimal form is read by `alpha`.
    pub fn try_from_rgba_str<F: Fn(&str) -> Option<u8>>(s: &str, alpha: &F) -> (res: Option<Self>)
        requires
            forall|x: &str| #[trigger] alpha.requires((x,)),
        ensures
            exists|ret: Option<u8>| alpha_answer(*alpha, rgba_alpha_text(s@), ret)
                && res == rgba_str_color(s@, ret),
    {
        let v = chars_of(s);
        match read_inside(&v, "rgba(") {
            Some(inner) => {
                let res = rgba_inner(&inner, alpha);
                let ghost ret = choose|ret: Option<u8>| alpha_answer(*alpha, inner_alpha_text(inner@), ret)
                    && res == rgba_inner_color(inner@, ret);
                assert(alpha_answer(*alpha, rgba_alpha_text(s@), ret) && res == rgba_str_color(s@, ret));
                res
            },
            None => {
                assert(alpha_answer(*alpha, rgba_alpha_text(s@), None));
                assert(rgba_str_color(s@, None) is None);
                None
            },
        }
    }
}

/// Reads the decimal inside of an `rgb(...)`.
fn rgb_decimal(inner: &Vec<char>) -> (res: Option<HyprColor>)
    requires
        has_char(inner@, ','),
    ensures
        res == rgb_inner_color(inner@),
{
    let parts = split_all(inner, ',');
    assert(views(parts@).len() == parts.len());
    if parts.len() < 3 {
        return None;
    }
    assert(views(parts@)[0] == parts@[0]@);
    assert(views(parts@)[1] == parts@[1]@);
    assert(views(parts@)[2] == parts@[2]@);
    let r = match read_dec_u8(&parts[0]) { Some(x) => x, None => return None };
    let g = match read_dec_u8(&parts[1]) { Some(x) => x, None => return None };
    let b = match read_dec_u8(&parts[2]) { Some(x) => x, None => return None };
    if parts.len() > 3 {
        return None;
    }
    Some(HyprColor { r, g, b, a: 0xFF })
}

/// Reads the hexadecimal inside of an `rgb(...)`: `RRGGBB`.
fn rgb_hex(inner: &Vec<char>) -> (res: Option<HyprColor>)
    requires
        !has_char(inner@, ','),
    ensures
        res == rgb_inner_color(inner@),
{
    let h = trim_chars(inner);
    if h.len() != 6 {
        return None;
    }
    let i = match read_hex_u32(&h) { Some(x) => x, None => return None };
    proof {
        lemma_six_hex_digits(h@);
    }
    let a: u32 = 0xFF000000;
    let j = i | a;
    assert(i < 0x1000000 ==> (i | 0xFF000000u32) as int == 0xff00_0000 + i as int) by (bit_vector);
    Some(HyprColor::from_argb_u32(j))
}

/// Reads the inside of an `rgba(...)`.
#[verifier::rlimit(40)]
fn rgba_inner<F: Fn(&str) -> Option<u8>>(inner: &Vec<char>, alpha: &F) -> (res: Option<HyprColor>)
    requires
        forall|x: &str| #[trigger] alpha.requires((x,)),
    ensures
        exists|ret: Option<u8>| alpha_answer(*alpha, inner_alpha_text(inner@), ret)
            && res == rgba_inner_color(inner@, ret),
{
    if !contains_char(inner, ',') {
        assert(alpha_answer(*alpha, inner_alpha_text(inner@), None));
        let res = rgba_hex(inner);
        assert(res == rgba_inner_color(inner@, None));
        return res;
    }
    let parts = split_all(inner, ',');
    assert(views(parts@).len() == parts.len());
    if parts.len() < 4 {
        assert(alpha_answer(*alpha, inner_alpha_text(inner@), None));
        assert(rgba_inner_color(inner@, None) is None);
        return None;
    }
    assert(views(parts@)[0] == parts@[0]@);
    assert(views(parts@)[1] == parts@[1]@);
    assert(views(parts@)[2] == parts@[2]@);
    assert(views(parts@)[3] == parts@[3]@);
    let r = read_dec_u8(&parts[0]);
    let g = read_dec_u8(&parts[1]);
    let b = read_dec_u8(&parts[2]);
    if r.is_none() || g.is_none() || b.is_none() {
        assert(alpha_answer(*alpha, inner_alpha_text(inner@), None));
        assert(rgba_inner_color(inner@, None) is None);
        return None;
    }
    let r = r.unwrap();
    let g = g.unwrap();
    let b = b.unwrap();
    let at = trim_chars(&parts[3]);
    assert(inner_alpha_text(inner@) == Some(at@));
    let at_text = string_of(&at);
    let ret = alpha(at_text.as_str());
    assert(alpha_gives(*alpha, at@, ret));
    assert(alpha_answer(*alpha, inner_alpha_text(inner@), ret));
    let a = match ret {
        Some(x) => x,
        None => {
            assert(rgba_inner_color(inner@, ret) is None);
            return None;
        },
    };
    if parts.len() > 4 {
        assert(rgba_inner_color(inner@, ret) is None);
        return None;
    }
    Some(HyprColor { r, g, b, a })
}

/// Reads the hexadecimal inside of an `rgba(...)`: `RRGGBBAA`.
fn rgba_hex(inner: &Vec<char>) -> (res: Option<HyprColor>)
    requires
        !has_char(inner@, ','),
    ensures
        res == rgba_inner_color(inner@, None),
{
    let h = trim_chars(inner);
    if h.len() != 8 {
        return None;
    }
    let i = match read_hex_u32(&h) { Some(x) => x, None => return None };
    let a = (i & 0xFF) << 24;
    let j = (i >> 8) | a;
    assert((j / 0x1000000) % 256 == i % 256) by (bit_vector)
        requires j == ((i >> 8u32) | ((i & 0xFFu32) << 24u32));
    assert((j / 0x10000) % 256 == (i / 0x1000000) % 256) by (bit_vector)
        requires j == ((i >> 8u32) | ((i & 0xFFu32) << 24u32));
    assert((j / 0x100) % 256 == (i / 0x10000) % 256) by (bit_vector)
        requires j == ((i >> 8u32) | ((i & 0xFFu32) << 24u32));
    assert(j % 256 == (i / 0x100) % 256) by (bit_vector)
        requires j == ((i >> 8u32) | ((i & 0xFFu32) << 24u32));
    let c = HyprColor::from_argb_u32(j);
    assert(c == rgba_inner_color(inner@, None)->0);
    Some(c)
}

/// `16` to the power `n`.
pub open spec fn pow16(n: nat) -> int
    decreases n,
{
    if n == 0 { 1 } else { 16 * pow16((n - 1) as nat) }
}

proof fn lemma_accumulate_below(ds: Seq<char>, m: int, bound: int, neg: bool)
    requires
        0 <= m,
    ensures
        crate::text::accumulate(ds, m, 16, bound, neg) matches Ok(x) ==> x < (m + 1) * pow16(ds.len()),
    decreases ds.len(),
{
    if ds.len() > 0 {
        let d = crate::text::digit_value(ds[0], 16);
        if d >= 0 && m * 16 + d <= bound {
            assert(d < 16);
            lemma_accumulate_below(ds.drop_first(), m * 16 + d, bound, neg);
            let p = pow16((ds.len() - 1) as nat);
            assert(p > 0) by {
                lemma_pow16_positive((ds.len() - 1) as nat);
            }
            assert((m * 16 + d + 1) * p <= (m + 1) * (16 * p)) by (nonlinear_arith)
                requires 0 <= d < 16, p > 0, m >= 0;
        }
    }
}

proof fn lemma_pow16_positive(n: nat)
    ensures
        pow16(n) > 0,
    decreases n,
{
    if n > 0 {
        lemma_pow16_positive((n - 1) as nat);
    }
}

/// Six hexadecimal digits make a number below `0x1000000`.
proof fn lemma_six_hex_digits(h: Seq<char>)
    requires
        h.len() == 6,
    ensures
        hex_u32(h) matches Some(i) ==> i < 0x1000000,
{
    let ds = if h[0] == '+' { h.drop_first() } else { h };
    lemma_accumulate_below(ds, 0, 0xffff_ffff, false);
    reveal_with_fuel(pow16, 7);
    assert(pow16(5) == 0x100000);
    assert(pow16(6) == 0x1000000);
}

// ---------------------------------------------------------------------
// Colors as options give them
// ---------------------------------------------------------------------

/// The alpha text reading a lowercased color text hands to the alpha
/// reader.
pub open spec fn lower_color_alpha_text(t: Seq<char>) -> Option<Seq<char>> {
    if begins(t, "rgba"@) {
        rgba_alpha_text(t)
    } else {
        None
    }
}

/// The color of a lowercased color text, given what the alpha reader
/// returned: the `rgba(...)` form, the `rgb(...)` form, or else the legacy
/// `0xAARRGGBB` form.
pub open spec fn lower_color(t: Seq<char>, alpha: Option<u8>) -> Option<HyprColor> {
    if begins(t, "rgba"@) {
        rgba_str_color(t, alpha)
    } else if begins(t, "rgb"@) {
        rgb_str_color(t)
    } else {
        argb_str_color(t)
    }
}

/// The color an option text gives: the trimmed text is lowercased and then
/// read; a text that is no color is refused.
pub open spec fn color_result(s: Seq<char>, alpha: Option<u8>) -> Result<HyprColor, HyprErrorView> {
    match lower_color(lower_text(trim(s)), alpha) {
        Some(c) => Ok(c),
        None => Err(HyprErrorView::InvalidHyprColorFormat),
    }
}

/// The alpha text reading an option text as a color hands to the alpha
/// reader.
pub open spec fn color_alpha_text(s: Seq<char>) -> Option<Seq<char>> {
    lower_color_alpha_text(lower_text(trim(s)))
}

impl HyprColor {
    /// Reads a color from text that is already lowercased.
    pub fn try_from_lowercase<F: Fn(&str) -> Option<u8>>(t: &str, alpha: &F) -> (res: Result<Self, HyprError>)
        requires
            forall|x: &str| #[trigger] alpha.requires((x,)),
        ensures
            exists|ret: Option<u8>| alpha_answer(*alpha, lower_color_alpha_text(t@), ret)
                && result_view(res) == (match lower_color(t@, ret) {
                    Some(c) => Ok(c),
                    None => Err(HyprErrorView::InvalidHyprColorFormat),
                }),
    {
        let v = chars_of(t);
        let c = if starts_with_str(&v, "rgba") {
            let c = Self::try_from_rgba_str(t, alpha);
            let ghost ret = choose|ret: Option<u8>| alpha_answer(*alpha, rgba_alpha_text(t@), ret)
                && c == rgba_str_color(t@, ret);
            assert(alpha_answer(*alpha, lower_color_alpha_text(t@), ret) && c == lower_color(t@, ret));
            c
        } else if starts_with_str(&v, "rgb") {
            let c = Self::try_from_rgb_str(t);
            assert(alpha_answer(*alpha, lower_color_alpha_text(t@), None) && c == lower_color(t@, None));
            c
        } else {
            let c = Self::try_from_argb_str(t);
            assert(alpha_answer(*alpha, lower_color_alpha_text(t@), None) && c == lower_color(t@, None));
            c
        };
        match c {
            Some(x) => Ok(x),
            None => Err(HyprError::InvalidHyprColorFormat),
        }
    }

    /// Reads a color as an option text gives it: trimmed, lowercased, then
    /// in the `rgba(...)`, `rgb(...)` or `0xAARRGGBB` form.
    pub fn parse<F: Fn(&str) -> Option<u8>>(s: &str, alpha: &F) -> (res: Result<Self, HyprError>)
        requires
            forall|x: &str| #[trigger] alpha.requires((x,)),
        ensures
            exists|ret: Option<u8>| alpha_answer(*alpha, color_alpha_text(s@), ret)
                && result_view(res) == color_result(s@, ret),
    {
        let v = chars_of(s);
        let t = trim_chars(&v);
        let ts = string_of(&t);
        let l = to_lowercase(ts.as_str());
        assert(l@ == lower_text(trim(s@)));
        let res = Self::try_from_lowercase(l.as_str(), alpha);
        let ghost ret = choose|ret: Option<u8>| alpha_answer(*alpha, lower_color_alpha_text(l@), ret)
            && result_view(res) == (match lower_color(l@, ret) {
                Some(c) => Ok(c),
                None => Err(HyprErrorView::InvalidHyprColorFormat),
            });
        assert(alpha_answer(*alpha, color_alpha_text(s@), ret) && result_view(res) == color_result(s@, ret));
        res
    }
}

// ---------------------------------------------------------------------
// Rectangles
// ---------------------------------------------------------------------

/// Bounds used for custom Rects
#[derive(Debug, Clone)]
pub struct HyprRect {
    /// Bound Top
    pub top: i64,
    /// Bound Right
    pub right: i64,
    /// Bound Bottom
    pub bottom: i64,
    /// Bound Left
    pub left: i64,
}

/// A decimal `i64` read as `i64::from_str_radix(_, 10)` does.
pub open spec fn dec_i64(s: Seq<char>) -> Option<int> {
    match parse_int(s, 10, true, -0x8000_0000_0000_0000, 0x7fff_ffff_ffff_ffff) {
        Ok(i) => Some(i),
        Err(_) => None,
    }
}

/// How a rectangle is written: its four bounds, top, right, bottom and
/// left, parted by spaces.
pub open spec fn rect_text(r: HyprRect) -> Seq<char> {
    int_dec(r.top as int) + " "@ + int_dec(r.right as int) + " "@ + int_dec(r.bottom as int) + " "@
        + int_dec(r.left as int)
}

/// The rectangle a text gives: after trimming, exactly four decimal
/// numbers parted by single spaces; anything else is refused.
pub open spec fn rect_result(s: Seq<char>) -> Result<HyprRect, HyprErrorView> {
    let parts = split_char(trim(s), ' ');
    if parts.len() == 4 && dec_i64(parts[0]) is Some && dec_i64(parts[1]) is Some
        && dec_i64(parts[2]) is Some && dec_i64(parts[3]) is Some {
        Ok(HyprRect {
            top: dec_i64(parts[0])->0 as i64,
            right: dec_i64(parts[1])->0 as i64,
            bottom: dec_i64(parts[2])->0 as i64,
            left: dec_i64(parts[3])->0 as i64,
        })
    } else {
        Err(HyprErrorView::InvalidOptionValue)
    }
}

fn read_dec_i64(p: &Vec<char>) -> (res: Option<i64>)
    ensures
        match dec_i64(p@) {
            Some(i) => res == Some(i as i64) && i64::MIN <= i <= i64::MAX,
            None => res is None,
        },
{
    match parse_int_chars(p, 10, true, i64::MIN as i128, i64::MAX as i128) {
        Ok(i) => {
            proof {
                crate::text::lemma_parse_int_range(p@, 10, true, i64::MIN as int, i64::MAX as int);
            }
            Some(i as i64)
        },
        Err(_) => None,
    }
}

impl HyprRect {
    /// The rectangle as its `Display` writes it.
    pub fn to_string(&self) -> (res: String)
        ensures
            res@ == rect_text(*self),
    {
        let mut s = String::new();
        push_i128(&mut s, self.top as i128);
        push_str(&mut s, " ");
        push_i128(&mut s, self.right as i128);
        push_str(&mut s, " ");
        push_i128(&mut s, self.bottom as i128);
        push_str(&mut s, " ");
        push_i128(&mut s, self.left as i128);
        assert(s@ =~= rect_text(*self));
        s
    }

    /// Reads a rectangle: four decimal bounds parted by single spaces.
    pub fn try_from(s: &str) -> (res: Result<Self, HyprError>)
        ensures
            result_view(res) == rect_result(s@),
    {
        let v = chars_of(s);
        let t = trim_chars(&v);
        let parts = split_all(&t, ' ');
        assert(views(parts@).len() == parts.len());
        if parts.len() < 4 {
            return Err(HyprError::InvalidOptionValue);
        }
        assert(views(parts@)[0] == parts@[0]@);
        assert(views(parts@)[1] == parts@[1]@);
        assert(views(parts@)[2] == parts@[2]@);
        assert(views(parts@)[3] == parts@[3]@);
        let top = match read_dec_i64(&parts[0]) { Some(x) => x, None => return Err(HyprError::InvalidOptionValue) };
        let right = match read_dec_i64(&parts[1]) { Some(x) => x, None => return Err(HyprError::InvalidOptionValue) };
        let bottom = match read_dec_i64(&parts[2]) { Some(x) => x, None => return Err(HyprError::InvalidOptionValue) };
        let left = match read_dec_i64(&parts[3]) { Some(x) => x, None => return Err(HyprError::InvalidOptionValue) };
        if parts.len() > 4 {
            return Err(HyprError::InvalidOptionValue);
        }
        Ok(HyprRect { top, right, bottom, left })
    }
}

// ---------------------------------------------------------------------
// Gradients
// ---------------------------------------------------------------------

/// A Gradiant made up of HyprColor(s) and an angle
#[derive(Debug, Clone, Copy)]
pub struct HyprGradient {
    /// First gradiant color
    pub color0: HyprColor,
    /// Second gradiant color
    pub color1: Option<HyprColor>,
    /// Angle in degrees
    pub angle: u32,
}

/// How a gradient is written: its colors parted by a space, then a space,
/// the angle and `deg`.
pub open spec fn gradient_text(g: HyprGradient) -> Seq<char> {
    let second = match g.color1 {
        Some(c) => " "@ + color_text(c),
        None => ""@,
    };
    color_text(g.color0) + second + " "@ + int_dec(g.angle as int) + "deg"@
}

/// `str::replace(", ", ",")`: every comma followed by a space loses the
/// space, from left to right.
pub open spec fn replace_comma_space(s: Seq<char>) -> Seq<char>
    decreases s.len(),
{
    if s.len() < 2 {
        s
    } else if s[0] == ',' && s[1] == ' ' {
        seq![','] + replace_comma_space(s.skip(2))
    } else {
        seq![s[0]] + replace_comma_space(s.drop_first())
    }
}

/// Whether `deg` stands in `s` at `i`.
pub open spec fn deg_at(s: Seq<char>, i: int) -> bool {
    0 <= i && i + 3 <= s.len() && s[i] == 'd' && s[i + 1] == 'e' && s[i + 2] == 'g'
}

/// Whether `deg` occurs in `s`.
pub open spec fn has_deg(s: Seq<char>) -> bool {
    exists|i: int| #[trigger] deg_at(s, i)
}

/// A decimal `u32` read as `u32::from_str_radix(_, 10)` does.
pub open spec fn dec_u32(s: Seq<char>) -> Option<int> {
    match parse_int(s, 10, false, 0, 0xffff_ffff) {
        Ok(i) => Some(i),
        Err(_) => None,
    }
}

/// The angle of `NNdeg`: the number before a final `deg`.
pub open spec fn angle_of(p: Seq<char>) -> Option<u32> {
    if finishes(p, "deg"@) {
        match dec_u32(p.take(p.len() - 3)) {
            Some(a) => Some(a as u32),
            None => None,
        }
    } else {
        None
    }
}

/// The pieces of an option text that holds several values: trimmed,
/// commas' following spaces dropped, parted at spaces.
pub open spec fn value_pieces(s: Seq<char>) -> Seq<Seq<char>> {
    split_char(replace_comma_space(trim(s)), ' ')
}

/// The alpha text of the second color of a gradient, when reading gets to
/// it.
pub open spec fn gradient_second_alpha_text(s: Seq<char>, ret0: Option<u8>) -> Option<Seq<char>> {
    let parts = value_pieces(s);
    if color_result(parts[0], ret0) is Ok && parts.len() >= 2 && !has_deg(parts[1]) {
        color_alpha_text(parts[1])
    } else {
        None
    }
}

/// The gradient a text gives, given what the alpha reader returned for
/// the first and the second color: a color, then either the angle
/// (`NNdeg`) or a second color and the angle, and nothing more. A color
/// that cannot be read gives the color error; any other fault the
/// gradient error.
pub open spec fn gradient_result(s: Seq<char>, ret0: Option<u8>, ret1: Option<u8>) -> Result<HyprGradient, HyprErrorView> {
    let parts = value_pieces(s);
    match color_result(parts[0], ret0) {
        Err(e) => Err(e),
        Ok(c0) => if parts.len() < 2 {
            Err(HyprErrorView::InvalidHyprGradiantFormat)
        } else if has_deg(parts[1]) {
            match angle_of(parts[1]) {
                None => Err(HyprErrorView::InvalidHyprGradiantFormat),
                Some(a) => if parts.len() > 2 {
                    Err(HyprErrorView::InvalidHyprGradiantFormat)
                } else {
                    Ok(HyprGradient { color0: c0, color1: None, angle: a })
                },
            }
        } else {
            match color_result(parts[1], ret1) {
                Err(e) => Err(e),
                Ok(c1) => if parts.len() < 3 {
                    Err(HyprErrorView::InvalidHyprGradiantFormat)
                } else {
                    match angle_of(parts[2]) {
                        None => Err(HyprErrorView::InvalidHyprGradiantFormat),
                        Some(a) => if parts.len() > 3 {
                            Err(HyprErrorView::InvalidHyprGradiantFormat)
                        } else {
                            Ok(HyprGradient { color0: c0, color1: Some(c1), angle: a })
                        },
                    }
                },
            }
        },
    }
}

fn replace_comma_space_of(v: &Vec<char>) -> (res: Vec<char>)
    ensures
        res@ == replace_comma_space(v@),
{
    let mut out: Vec<char> = Vec::new();
    let mut i: usize = 0;
    assert(v@.skip(0) =~= v@);
    while i < v.len()
        invariant
            i <= v.len(),
            out@ + replace_comma_space(v@.skip(i as int)) == replace_comma_space(v@),
        decreases v.len() - i,
    {
        let ghost rest = v@.skip(i as int);
        if i + 1 < v.len() && v[i] == ',' && v[i + 1] == ' ' {
            out.push(',');
            assert(rest.skip(2) =~= v@.skip(i as int + 2));
            assert(out@ + replace_comma_space(v@.skip(i as int + 2)) =~= replace_comma_space(v@));
            i = i + 2;
        } else {
            out.push(v[i]);
            assert(rest.drop_first() =~= v@.skip(i as int + 1));
            assert(out@ + replace_comma_space(v@.skip(i as int + 1)) =~= replace_comma_space(v@));
            i = i + 1;
        }
    }
    assert(out@ + replace_comma_space(v@.skip(i as int)) =~= out@);
    out
}

fn contains_deg(v: &Vec<char>) -> (res: bool)
    ensures
        res == has_deg(v@),
{
    let mut i: usize = 0;
    if v.len() < 3 {
        return false;
    }
    while i <= v.len() - 3
        invariant
            v.len() >= 3,
            i <= v.len() - 2,
            forall|j: int| 0 <= j < i ==> !#[trigger] deg_at(v@, j),
        decreases v.len() - i,
    {
        if v[i] == 'd' && v[i + 1] == 'e' && v[i + 2] == 'g' {
            assert(deg_at(v@, i as int));
            return true;
        }
        i = i + 1;
    }
    assert forall|j: int| !#[trigger] deg_at(v@, j) by {
        if 0 <= j < i {
        }
    }
    false
}

fn read_angle(p: &Vec<char>) -> (res: Option<u32>)
    ensures
        res == angle_of(p@),
{
    proof {
        reveal_strlit("deg");
    }
    if !ends_with_str(p, "deg") {
        return None;
    }
    let n = slice_of(p, 0, p.len() - 3);
    assert(n@ =~= p@.take(p@.len() - 3));
    match parse_int_chars(&n, 10, false, 0, 0xffff_ffff) {
        Ok(i) => {
            proof {
                crate::text::lemma_parse_int_range(n@, 10, false, 0, 0xffff_ffff);
            }
            Some(i as u32)
        },
        Err(_) => None,
    }
}

fn pieces_of(s: &str) -> (res: Vec<Vec<char>>)
    ensures
        views(res@) == value_pieces(s@),
        res.len() >= 1,
{
    let v = chars_of(s);
    let t = trim_chars(&v);
    let r = replace_comma_space_of(&t);
    let parts = split_all(&r, ' ');
    proof {
        crate::text::lemma_split_char_nonempty(r@, ' ');
    }
    parts
}

impl HyprGradient {
    /// The gradient as its `Display` writes it.
    pub fn to_string(&self) -> (res: String)
        ensures
            res@ == gradient_text(*self),
    {
        let mut s = self.color0.to_string();
        match &self.color1 {
            Some(c) => {
                push_str(&mut s, " ");
                let t = c.to_string();
                push_str(&mut s, t.as_str());
            },
            None => {},
        }
        push_str(&mut s, " ");
        push_i128(&mut s, self.angle as i128);
        push_str(&mut s, "deg");
        proof {
            reveal_strlit("");
        }
        assert(s@ =~= gradient_text(*self));
        s
    }

    /// Reads a gradient: a color, an optional second color and the angle
    /// (`NNdeg`), parted by spaces.
    #[verifier::rlimit(40)]
    pub fn try_from<F: Fn(&str) -> Option<u8>>(s: &str, alpha: &F) -> (res: Result<Self, HyprError>)
        requires
            forall|x: &str| #[trigger] alpha.requires((x,)),
        ensures
            exists|ret0: Option<u8>, ret1: Option<u8>|
                alpha_answer(*alpha, color_alpha_text(value_pieces(s@)[0]), ret0)
                && alpha_answer(*alpha, gradient_second_alpha_text(s@, ret0), ret1)
                && result_view(res) == gradient_result(s@, ret0, ret1),
    {
        let parts = pieces_of(s);
        let ghost pv = views(parts@);
        assert(pv[0] == parts@[0]@);
        let p0 = string_of(&parts[0]);
        let c0 = HyprColor::parse(p0.as_str(), alpha);
        let ghost ret0 = choose|ret: Option<u8>| alpha_answer(*alpha, color_alpha_text(pv[0]), ret)
            && result_view(c0) == color_result(pv[0], ret);
        let color0 = match c0 {
            Ok(c) => c,
            Err(e) => {
                assert(alpha_answer(*alpha, gradient_second_alpha_text(s@, ret0), None));
                assert(result_view(Err::<Self, HyprError>(e)) == gradient_result(s@, ret0, None));
                return Err(e);
            },
        };
        if parts.len() < 2 {
            assert(alpha_answer(*alpha, gradient_second_alpha_text(s@, ret0), None));
            assert(gradient_result(s@, ret0, None) == Err::<Self, HyprErrorView>(HyprErrorView::InvalidHyprGradiantFormat));
            return Err(HyprError::InvalidHyprGradiantFormat);
        }
        assert(pv[1] == parts@[1]@);
        if contains_deg(&parts[1]) {
            assert(alpha_answer(*alpha, gradient_second_alpha_text(s@, ret0), None));
            let a = match read_angle(&parts[1]) {
                Some(a) => a,
                None => {
                    assert(gradient_result(s@, ret0, None) == Err::<Self, HyprErrorView>(HyprErrorView::InvalidHyprGradiantFormat));
                    return Err(HyprError::InvalidHyprGradiantFormat);
                },
            };
            if parts.len() > 2 {
                assert(gradient_result(s@, ret0, None) == Err::<Self, HyprErrorView>(HyprErrorView::InvalidHyprGradiantFormat));
                return Err(HyprError::InvalidHyprGradiantFormat);
            }
            let g = HyprGradient { color0, color1: None, angle: a };
            assert(result_view(Ok::<Self, HyprError>(g)) == gradient_result(s@, ret0, None));
            return Ok(g);
        }
        let p1 = string_of(&parts[1]);
        let c1 = HyprColor::parse(p1.as_str(), alpha);
        let ghost ret1 = choose|ret: Option<u8>| alpha_answer(*alpha, color_alpha_text(pv[1]), ret)
            && result_view(c1) == color_result(pv[1], ret);
        assert(gradient_second_alpha_text(s@, ret0) == color_alpha_text(pv[1]));
        let color1 = match c1 {
            Ok(c) => c,
            Err(e) => {
                assert(result_view(Err::<Self, HyprError>(e)) == gradient_result(s@, ret0, ret1));
                return Err(e);
            },
        };
        if parts.len() < 3 {
            assert(gradient_result(s@, ret0, ret1) == Err::<Self, HyprErrorView>(HyprErrorView::InvalidHyprGradiantFormat));
            return Err(HyprError::InvalidHyprGradiantFormat);
        }
        assert(pv[2] == parts@[2]@);
        let a = match read_angle(&parts[2]) {
            Some(a) => a,
            None => {
                assert(gradient_result(s@, ret0, ret1) == Err::<Self, HyprErrorView>(HyprErrorView::InvalidHyprGradiantFormat));
                return Err(HyprError::InvalidHyprGradiantFormat);
            },
        };
        if parts.len() > 3 {
            assert(gradient_result(s@, ret0, ret1) == Err::<Self, HyprErrorView>(HyprErrorView::InvalidHyprGradiantFormat));
            return Err(HyprError::InvalidHyprGradiantFormat);
        }
        let g = HyprGradient { color0, color1: Some(color1), angle: a };
        assert(result_view(Ok::<Self, HyprError>(g)) == gradient_result(s@, ret0, ret1));
        Ok(g)
    }
}

// ---------------------------------------------------------------------
// Custom option values
// ---------------------------------------------------------------------

/// A parseable value type for custom options
#[derive(Debug, Clone)]
pub enum Custom {
    /// Color Variant for Custom field
    HyprColor(HyprColor),
    /// Gradiant Variant for Custom field
    HyprGradient(HyprGradient),
    /// A general rect made of top, right, bottom, left
    HyprRect(HyprRect),
}

/// How a custom value is written: as the value it holds.
pub open spec fn custom_text(c: Custom) -> Seq<char> {
    match c {
        Custom::HyprColor(x) => color_text(x),
        Custom::HyprGradient(x) => gradient_text(x),
        Custom::HyprRect(x) => rect_text(x),
    }
}

/// The alpha text of the first color a custom value's text is read as.
pub open spec fn custom_first_alpha_text(s: Seq<char>) -> Option<Seq<char>> {
    let n = value_pieces(s).len();
    if n == 4 {
        None
    } else if n > 1 {
        color_alpha_text(value_pieces(s)[0])
    } else {
        color_alpha_text(s)
    }
}

/// The alpha text of the second color a custom value's text is read as.
pub open spec fn custom_second_alpha_text(s: Seq<char>, ret0: Option<u8>) -> Option<Seq<char>> {
    let n = value_pieces(s).len();
    if n != 4 && n > 1 {
        gradient_second_alpha_text(s, ret0)
    } else {
        None
    }
}

/// The custom value a text gives: four pieces make a rectangle, two or
/// three a gradient, one a color.
pub open spec fn custom_result(s: Seq<char>, ret0: Option<u8>, ret1: Option<u8>) -> Result<Custom, HyprErrorView> {
    let n = value_pieces(s).len();
    if n == 4 {
        match rect_result(s) {
            Ok(r) => Ok(Custom::HyprRect(r)),
            Err(e) => Err(e),
        }
    } else if n > 1 {
        match gradient_result(s, ret0, ret1) {
            Ok(g) => Ok(Custom::HyprGradient(g)),
            Err(e) => Err(e),
        }
    } else {
        match color_result(s, ret0) {
            Ok(c) => Ok(Custom::HyprColor(c)),
            Err(e) => Err(e),
        }
    }
}

impl Custom {
    /// The value as its `Display` writes it.
    pub fn to_string(&self) -> (res: String)
        ensures
            res@ == custom_text(*self),
    {
        match self {
            Custom::HyprColor(x) => x.to_string(),
            Custom::HyprGradient(x) => x.to_string(),
            Custom::HyprRect(x) => x.to_string(),
        }
    }

    /// Reads a custom value: a rectangle, a gradient or a color, told
    /// apart by the number of space-parted pieces.
    pub fn try_from<F: Fn(&str) -> Option<u8>>(s: &str, alpha: &F) -> (res: Result<Self, HyprError>)
        requires
            forall|x: &str| #[trigger] alpha.requires((x,)),
        ensures
            exists|ret0: Option<u8>, ret1: Option<u8>|
                alpha_answer(*alpha, custom_first_alpha_text(s@), ret0)
                && alpha_answer(*alpha, custom_second_alpha_text(s@, ret0), ret1)
                && result_view(res) == custom_result(s@, ret0, ret1),
    {
        let parts = pieces_of(s);
        let c = parts.len();
        if c == 4 {
            let r = HyprRect::try_from(s);
            assert(alpha_answer(*alpha, custom_first_alpha_text(s@), None));
            assert(alpha_answer(*alpha, custom_second_alpha_text(s@, None), None));
            match r {
                Ok(x) => {
                    assert(result_view(Ok::<Self, HyprError>(Custom::HyprRect(x))) == custom_result(s@, None, None));
                    Ok(Custom::HyprRect(x))
                },
                Err(e) => {
                    assert(result_view(Err::<Self, HyprError>(e)) == custom_result(s@, None, None));
                    Err(e)
                },
            }
        } else if c > 1 {
            let g = HyprGradient::try_from(s, alpha);
            let ghost (ret0, ret1) = choose|ret0: Option<u8>, ret1: Option<u8>|
                alpha_answer(*alpha, color_alpha_text(value_pieces(s@)[0]), ret0)
                && alpha_answer(*alpha, gradient_second_alpha_text(s@, ret0), ret1)
                && result_view(g) == gradient_result(s@, ret0, ret1);
            assert(alpha_answer(*alpha, custom_first_alpha_text(s@), ret0));
            assert(alpha_answer(*alpha, custom_second_alpha_text(s@, ret0), ret1));
            match g {
                Ok(x) => {
                    assert(result_view(Ok::<Self, HyprError>(Custom::HyprGradient(x))) == custom_result(s@, ret0, ret1));
                    Ok(Custom::HyprGradient(x))
                },
                Err(e) => {
                    assert(result_view(Err::<Self, HyprError>(e)) == custom_result(s@, ret0, ret1));
                    Err(e)
                },
            }
        } else {
            let k = HyprColor::parse(s, alpha);
            let ghost ret0 = choose|ret: Option<u8>| alpha_answer(*alpha, color_alpha_text(s@), ret)
                && result_view(k) == color_result(s@, ret);
            assert(alpha_answer(*alpha, custom_first_alpha_text(s@), ret0));
            assert(alpha_answer(*alpha, custom_second_alpha_text(s@, ret0), None));
            match k {
                Ok(x) => {
                    assert(result_view(Ok::<Self, HyprError>(Custom::HyprColor(x))) == custom_result(s@, ret0, None));
                    Ok(Custom::HyprColor(x))
                },
                Err(e) => {
                    assert(result_view(Err::<Self, HyprError>(e)) == custom_result(s@, ret0, None));
                    Err(e)
                },
            }
        }
    }
}

// ---------------------------------------------------------------------
// Reading back what was written
// ---------------------------------------------------------------------

proof fn lemma_hex_text_facts(hx: Seq<char>)
    requires
        hx.len() == 8,
        forall|i: int| 0 <= i < 8 ==> digit_value(#[trigger] hx[i], 16) >= 0,
    ensures
        !has_char(hx, ','),
        trim(hx) == hx,
        hx[0] != '+' && hx[0] != '-',
{
    assert(!is_ws(hx[0]) && !is_ws(hx.last())) by {
        assert(digit_value(hx[0], 16) >= 0);
        assert(digit_value(hx[7], 16) >= 0);
    }
    lemma_trim_unchanged(hx);
    assert(digit_value(hx[0], 16) >= 0);
}

/// A color written as its text and read back with `try_from_rgba_str`
/// is the same color; the alpha reader is not asked.
pub proof fn law_color_text_reads_back(c: HyprColor)
    ensures
        rgba_alpha_text(color_text(c)) is None,
        rgba_str_color(color_text(c), None) == Some(c),
{
    reveal_strlit("rgba(");
    reveal_strlit(")");
    let (ba, bb, bc, bd) = (byte_hex(c.r), byte_hex(c.g), byte_hex(c.b), byte_hex(c.a));
    lemma_byte_hex_chars(c.r);
    lemma_byte_hex_chars(c.g);
    lemma_byte_hex_chars(c.b);
    lemma_byte_hex_chars(c.a);
    let hx = ba + bb + bc + bd;
    assert forall|i: int| 0 <= i < 8 implies digit_value(#[trigger] hx[i], 16) >= 0 by {
        if i < 2 { assert(hx[i] == ba[i]); }
        else if i < 4 { assert(hx[i] == bb[i - 2]); }
        else if i < 6 { assert(hx[i] == bc[i - 4]); }
        else { assert(hx[i] == bd[i - 6]); }
    }
    lemma_hex_text_facts(hx);
    let t = color_text(c);
    assert(t =~= "rgba("@ + hx + ")"@);
    lemma_trim_unchanged(t);
    assert(t.take(5) =~= "rgba("@);
    assert(t.skip(5) =~= hx + ")"@);
    assert(t.skip(5).skip(t.skip(5).len() - 1) =~= ")"@);
    assert(t.skip(5).drop_last() =~= hx);
    let bound: int = 0xffff_ffff;
    lemma_accumulate_byte_hex(c.r, 0, bound, false);
    lemma_accumulate_byte_hex(c.g, c.r as int, bound, false);
    lemma_accumulate_byte_hex(c.b, c.r as int * 256 + c.g, bound, false);
    lemma_accumulate_byte_hex(c.a, (c.r as int * 256 + c.g) * 256 + c.b, bound, false);
    lemma_accumulate_concat(ba, bb, 0, 16, bound, false);
    lemma_accumulate_concat(ba + bb, bc, 0, 16, bound, false);
    lemma_accumulate_concat(ba + bb + bc, bd, 0, 16, bound, false);
    let v = ((c.r as int * 256 + c.g) * 256 + c.b) * 256 + c.a;
    assert(hex_u32(hx) == Some(v));
    let (r, g, b, a) = (c.r as int, c.g as int, c.b as int, c.a as int);
    assert((v / 0x1000000) % 256 == r && (v / 0x10000) % 256 == g && (v / 0x100) % 256 == b && v % 256 == a)
        by (nonlinear_arith)
        requires
            v == ((r * 256 + g) * 256 + b) * 256 + a,
            0 <= r < 256, 0 <= g < 256, 0 <= b < 256, 0 <= a < 256;
}

/// A rectangle written as its text and read back is the same rectangle.
pub proof fn law_rect_text_reads_back(r: HyprRect)
    ensures
        rect_result(rect_text(r)) == Ok::<HyprRect, HyprErrorView>(r),
{
    reveal_strlit(" ");
    let (d1, d2, d3, d4) = (int_dec(r.top as int), int_dec(r.right as int), int_dec(r.bottom as int), int_dec(r.left as int));
    lemma_int_dec_chars(r.top as int);
    lemma_int_dec_chars(r.right as int);
    lemma_int_dec_chars(r.bottom as int);
    lemma_int_dec_chars(r.left as int);
    assert(!has_char(d1, ' ') && !has_char(d2, ' ') && !has_char(d3, ' ') && !has_char(d4, ' ')) by {
        if has_char(d1, ' ') { let i = choose|i: int| 0 <= i < d1.len() && d1[i] == ' '; assert(d1[i] == ' '); }
        if has_char(d2, ' ') { let i = choose|i: int| 0 <= i < d2.len() && d2[i] == ' '; assert(d2[i] == ' '); }
        if has_char(d3, ' ') { let i = choose|i: int| 0 <= i < d3.len() && d3[i] == ' '; assert(d3[i] == ' '); }
        if has_char(d4, ' ') { let i = choose|i: int| 0 <= i < d4.len() && d4[i] == ' '; assert(d4[i] == ' '); }
    }
    let t = rect_text(r);
    let sp = seq![' '];
    assert(t =~= d1 + sp + (d2 + sp + (d3 + sp + d4)));
    assert(t[0] == d1[0]);
    assert(t.last() == d4.last());
    lemma_trim_unchanged(t);
    lemma_split_char_front(d1, d2 + sp + (d3 + sp + d4), ' ');
    lemma_split_char_front(d2, d3 + sp + d4, ' ');
    lemma_split_char_front(d3, d4, ' ');
    lemma_split_char_single(d4, ' ');
    let parts = split_char(t, ' ');
    assert(parts =~= seq![d1, d2, d3, d4]);
    lemma_parse_int_dec(r.top as int, true, i64::MIN as int, i64::MAX as int);
    lemma_parse_int_dec(r.right as int, true, i64::MIN as int, i64::MAX as int);
    lemma_parse_int_dec(r.bottom as int, true, i64::MIN as int, i64::MAX as int);
    lemma_parse_int_dec(r.left as int, true, i64::MIN as int, i64::MAX as int);
}

/// A character that lowercasing keeps and that parts no pieces: a digit,
/// a lowercase letter or a bracket.
spec fn plain_char(c: char) -> bool {
    ('0' <= c && c <= '9') || ('a' <= c && c <= 'z') || c == '(' || c == ')'
}

proof fn lemma_byte_hex_plain(b: u8)
    ensures
        byte_hex(b).len() == 2,
        forall|i: int| 0 <= i < 2 ==> plain_char(#[trigger] byte_hex(b)[i]) && byte_hex(b)[i] <= 'f',
{
    let (h, l) = (b as int / 16, b as int % 16);
    assert(0 <= h < 16 && 0 <= l < 16);
}

/// What the text of a color is made of: plain characters only, ASCII, kept
/// by lowercasing and trimming, with no space, comma or `deg` in it.
proof fn lemma_color_text_plain(c: HyprColor)
    ensures
        is_ascii_text(color_text(c)),
        lower_text(color_text(c)) == color_text(c),
        trim(color_text(c)) == color_text(c),
        !has_char(color_text(c), ' '),
        !has_char(color_text(c), ','),
        !has_deg(color_text(c)),
{
    reveal_strlit("rgba(");
    reveal_strlit(")");
    lemma_byte_hex_plain(c.r);
    lemma_byte_hex_plain(c.g);
    lemma_byte_hex_plain(c.b);
    lemma_byte_hex_plain(c.a);
    let t = color_text(c);
    let (br, bg, bb, ba) = (byte_hex(c.r), byte_hex(c.g), byte_hex(c.b), byte_hex(c.a));
    assert(t.len() == 14);
    assert forall|i: int| 0 <= i < t.len() implies plain_char(#[trigger] t[i]) && (t[i] == 'g' ==> i == 1) by {
        if i < 5 {
        } else if i < 7 {
            assert(t[i] == br[i - 5]);
        } else if i < 9 {
            assert(t[i] == bg[i - 7]);
        } else if i < 11 {
            assert(t[i] == bb[i - 9]);
        } else if i < 13 {
            assert(t[i] == ba[i - 11]);
        }
    }
    assert(is_ascii_text(t)) by {
        assert forall|i: int| 0 <= i < t.len() implies (#[trigger] t[i] as u32) < 128 by {
            assert(plain_char(t[i]));
        }
    }
    assert(t.map_values(|x: char| ascii_lower(x)) =~= t) by {
        assert forall|i: int| 0 <= i < t.len() implies ascii_lower(#[trigger] t[i]) == t[i] by {
            assert(plain_char(t[i]));
        }
    }
    assert(!is_ws(t[0]) && !is_ws(t.last())) by {
        assert(plain_char(t[0]) && plain_char(t[13]));
    }
    lemma_trim_unchanged(t);
    assert(!has_char(t, ' ') && !has_char(t, ',')) by {
        if has_char(t, ' ') {
            let i = choose|i: int| 0 <= i < t.len() && t[i] == ' ';
            assert(plain_char(t[i]));
        }
        if has_char(t, ',') {
            let i = choose|i: int| 0 <= i < t.len() && t[i] == ',';
            assert(plain_char(t[i]));
        }
    }
    assert forall|i: int| !#[trigger] deg_at(t, i) by {
        if deg_at(t, i) {
            assert(t[i + 2] == 'g');
        }
    }
}

/// A color written as its text and read as an option text is the same
/// color; the alpha reader is not asked.
pub proof fn law_color_option_text_reads_back(c: HyprColor)
    ensures
        color_alpha_text(color_text(c)) is None,
        color_result(color_text(c), None) == Ok::<HyprColor, HyprErrorView>(c),
{
    lemma_color_text_plain(c);
    law_color_text_reads_back(c);
    reveal_strlit("rgba");
    reveal_strlit("rgba(");
    let t = color_text(c);
    assert(t.take(4) =~= "rgba"@);
}

/// A text without commas keeps its spaces when a comma's space is dropped.
proof fn lemma_replace_comma_space_unchanged(s: Seq<char>)
    requires
        !has_char(s, ','),
    ensures
        replace_comma_space(s) == s,
    decreases s.len(),
{
    if s.len() >= 2 {
        assert(s[0] != ',');
        assert(!has_char(s.drop_first(), ',')) by {
            if has_char(s.drop_first(), ',') {
                let i = choose|i: int| 0 <= i < s.drop_first().len() && s.drop_first()[i] == ',';
                assert(s[i + 1] == ',');
            }
        }
        lemma_replace_comma_space_unchanged(s.drop_first());
        assert(seq![s[0]] + s.drop_first() =~= s);
    }
}

/// The angle piece of a gradient text: `NNdeg`.
spec fn angle_text(angle: u32) -> Seq<char> {
    int_dec(angle as int) + "deg"@
}

proof fn lemma_angle_text(angle: u32)
    ensures
        !has_char(angle_text(angle), ' '),
        !has_char(angle_text(angle), ','),
        has_deg(angle_text(angle)),
        angle_of(angle_text(angle)) == Some(angle),
        angle_text(angle).len() > 0,
        angle_text(angle).last() == 'g',
{
    reveal_strlit("deg");
    let d = int_dec(angle as int);
    lemma_int_dec_chars(angle as int);
    lemma_parse_int_dec(angle as int, false, 0, 0xffff_ffff);
    let a = angle_text(angle);
    assert(!has_char(a, ' ') && !has_char(a, ',')) by {
        if has_char(a, ' ') {
            let i = choose|i: int| 0 <= i < a.len() && a[i] == ' ';
            if i < d.len() { assert(a[i] == d[i]); }
        }
        if has_char(a, ',') {
            let i = choose|i: int| 0 <= i < a.len() && a[i] == ',';
            if i < d.len() { assert(a[i] == d[i]); }
        }
    }
    assert(deg_at(a, d.len() as int));
    assert(a.skip(a.len() - 3) =~= "deg"@);
    assert(a.take(a.len() - 3) =~= d);
}

/// The pieces of a gradient's text: its colors' texts and the angle piece.
proof fn lemma_gradient_pieces(g: HyprGradient)
    ensures
        value_pieces(gradient_text(g)) == match g.color1 {
            None => seq![color_text(g.color0), angle_text(g.angle)],
            Some(k) => seq![color_text(g.color0), color_text(k), angle_text(g.angle)],
        },
{
    reveal_strlit(" ");
    reveal_strlit("");
    reveal_strlit("rgba(");
    let c0 = color_text(g.color0);
    lemma_color_text_plain(g.color0);
    lemma_angle_text(g.angle);
    let a = angle_text(g.angle);
    let sp = seq![' '];
    let t = gradient_text(g);
    assert(c0[0] == 'r');
    match g.color1 {
        None => {
            assert(t =~= c0 + sp + a);
            assert(!has_char(t, ',')) by {
                if has_char(t, ',') {
                    let i = choose|i: int| 0 <= i < t.len() && t[i] == ',';
                    if i < c0.len() { assert(t[i] == c0[i]); } else if i > c0.len() { assert(t[i] == a[i - c0.len() - 1]); }
                }
            }
            assert(t[0] == c0[0] && t.last() == a.last());
            lemma_trim_unchanged(t);
            lemma_replace_comma_space_unchanged(t);
            lemma_split_char_front(c0, a, ' ');
            lemma_split_char_single(a, ' ');
        },
        Some(k) => {
            let c1 = color_text(k);
            lemma_color_text_plain(k);
            assert(t =~= c0 + sp + (c1 + sp + a));
            assert(!has_char(t, ',')) by {
                if has_char(t, ',') {
                    let i = choose|i: int| 0 <= i < t.len() && t[i] == ',';
                    if i < c0.len() {
                        assert(t[i] == c0[i]);
                    } else if c0.len() < i < c0.len() + 1 + c1.len() {
                        assert(t[i] == c1[i - c0.len() - 1]);
                    } else if i > c0.len() + 1 + c1.len() {
                        assert(t[i] == a[i - c0.len() - 2 - c1.len()]);
                    }
                }
            }
            assert(t[0] == c0[0] && t.last() == a.last());
            lemma_trim_unchanged(t);
            lemma_replace_comma_space_unchanged(t);
            lemma_split_char_front(c0, c1 + sp + a, ' ');
            lemma_split_char_front(c1, a, ' ');
            lemma_split_char_single(a, ' ');
        },
    }
}

/// A gradient written as its text and read back is the same gradient; the
/// alpha reader is not asked.
pub proof fn law_gradient_text_reads_back(g: HyprGradient)
    ensures
        color_alpha_text(value_pieces(gradient_text(g))[0]) is None,
        gradient_second_alpha_text(gradient_text(g), None) is None,
        gradient_result(gradient_text(g), None, None) == Ok::<HyprGradient, HyprErrorView>(g),
{
    lemma_gradient_pieces(g);
    lemma_angle_text(g.angle);
    law_color_option_text_reads_back(g.color0);
    match g.color1 {
        None => {},
        Some(k) => {
            law_color_option_text_reads_back(k);
            lemma_color_text_plain(k);
        },
    }
}

/// The `rgb(...)` text of three channels in decimal.
pub open spec fn rgb_dec_text(r: u8, g: u8, b: u8) -> Seq<char> {
    "rgb("@ + int_dec(r as int) + ","@ + int_dec(g as int) + ","@ + int_dec(b as int) + ")"@
}

/// The `rgb(...)` text of three channels in hexadecimal.
pub open spec fn rgb_hex_text(r: u8, g: u8, b: u8) -> Seq<char> {
    "rgb("@ + byte_hex(r) + byte_hex(g) + byte_hex(b) + ")"@
}

/// The `rgba(...)` text of three channels in decimal and an alpha text.
pub open spec fn rgba_dec_text(r: u8, g: u8, b: u8, alpha: Seq<char>) -> Seq<char> {
    "rgba("@ + int_dec(r as int) + ","@ + int_dec(g as int) + ","@ + int_dec(b as int) + ","@ + alpha + ")"@
}

/// The decimal text of a channel reads back as the channel.
proof fn lemma_channel_dec(x: u8)
    ensures
        !has_char(int_dec(x as int), ','),
        dec_u8(int_dec(x as int)) == Some(x),
{
    let d = int_dec(x as int);
    lemma_int_dec_chars(x as int);
    lemma_parse_int_dec(x as int, false, 0, 255);
    assert(!is_ws(d[0]) && !is_ws(d.last())) by {
        assert(('0' <= d[0] && d[0] <= '9') || d[0] == '-');
    }
    lemma_trim_unchanged(d);
    if has_char(d, ',') {
        let i = choose|i: int| 0 <= i < d.len() && d[i] == ',';
        assert(('0' <= d[i] && d[i] <= '9') || (i == 0 && d[i] == '-'));
    }
}

/// The inside of a decimal form: the channels' texts parted by commas,
/// read as the channels.
proof fn lemma_dec_channels(r: u8, g: u8, b: u8, rest: Seq<char>)
    ensures
        has_char(int_dec(r as int) + seq![','] + int_dec(g as int) + seq![','] + int_dec(b as int) + rest, ','),
        split_char(int_dec(r as int) + seq![','] + int_dec(g as int) + seq![','] + int_dec(b as int) + rest, ',')
            == seq![int_dec(r as int), int_dec(g as int)] + split_char(int_dec(b as int) + rest, ','),
{
    let (dr, dg, db) = (int_dec(r as int), int_dec(g as int), int_dec(b as int));
    lemma_channel_dec(r);
    lemma_channel_dec(g);
    let inner = dr + seq![','] + dg + seq![','] + db + rest;
    assert(inner[dr.len() as int] == ',');
    assert(inner =~= dr + seq![','] + (dg + seq![','] + (db + rest)));
    lemma_split_char_front(dr, dg + seq![','] + (db + rest), ',');
    assert(dg + seq![','] + (db + rest) =~= dg + seq![','] + db + rest);
    lemma_split_char_front(dg, db + rest, ',');
}

/// What stands between `name` and a final `)` is the inside of the text.
proof fn lemma_inside(name: Seq<char>, inner: Seq<char>)
    requires
        name.len() > 0,
        !is_ws(name[0]),
    ensures
        inside(name + inner + ")"@, name) == Some(inner),
{
    reveal_strlit(")");
    let s = name + inner + ")"@;
    assert(s[0] == name[0]);
    assert(s.last() == ')');
    lemma_trim_unchanged(s);
    assert(s.take(name.len() as int) =~= name);
    let rest = s.skip(name.len() as int);
    assert(rest =~= inner + ")"@);
    assert(rest.skip(rest.len() - 1) =~= ")"@);
    assert(rest.drop_last() =~= inner);
}

/// The three decimal channels parted by commas read as the channels.
proof fn lemma_rgb_dec_inner(r: u8, g: u8, b: u8)
    ensures
        rgb_inner_color(int_dec(r as int) + seq![','] + int_dec(g as int) + seq![','] + int_dec(b as int))
            == Some(HyprColor { r, g, b, a: 255 }),
{
    let (dr, dg, db) = (int_dec(r as int), int_dec(g as int), int_dec(b as int));
    lemma_channel_dec(r);
    lemma_channel_dec(g);
    lemma_channel_dec(b);
    let inner = dr + seq![','] + dg + seq![','] + db;
    lemma_dec_channels(r, g, b, Seq::empty());
    assert(db + Seq::<char>::empty() =~= db);
    assert(inner + Seq::<char>::empty() =~= inner);
    lemma_split_char_single(db, ',');
    assert(split_char(inner, ',') =~= seq![dr, dg, db]);
}

/// Six hexadecimal digits read as the channels, with full alpha.
proof fn lemma_rgb_hex_inner(r: u8, g: u8, b: u8)
    ensures
        rgb_inner_color(byte_hex(r) + byte_hex(g) + byte_hex(b)) == Some(HyprColor { r, g, b, a: 255 }),
{
    let (hr, hg, hb) = (byte_hex(r), byte_hex(g), byte_hex(b));
    lemma_byte_hex_plain(r);
    lemma_byte_hex_plain(g);
    lemma_byte_hex_plain(b);
    let h = hr + hg + hb;
    assert forall|i: int| 0 <= i < h.len() implies plain_char(#[trigger] h[i]) && h[i] <= 'f' by {
        if i < 2 { assert(h[i] == hr[i]); } else if i < 4 { assert(h[i] == hg[i - 2]); } else { assert(h[i] == hb[i - 4]); }
    }
    assert(!has_char(h, ',')) by {
        if has_char(h, ',') {
            let i = choose|i: int| 0 <= i < h.len() && h[i] == ',';
            assert(plain_char(h[i]));
        }
    }
    assert(!is_ws(h[0]) && !is_ws(h.last())) by {
        assert(plain_char(h[0]) && plain_char(h[5]));
    }
    lemma_trim_unchanged(h);
    let bound: int = 0xffff_ffff;
    lemma_accumulate_byte_hex(r, 0, bound, false);
    lemma_accumulate_byte_hex(g, r as int, bound, false);
    lemma_accumulate_byte_hex(b, r as int * 256 + g, bound, false);
    lemma_accumulate_concat(hr, hg, 0, 16, bound, false);
    lemma_accumulate_concat(hr + hg, hb, 0, 16, bound, false);
    assert(h[0] != '+' && h[0] != '-') by {
        assert(plain_char(h[0]));
    }
    let v = (r as int * 256 + g) * 256 + b;
    assert(hex_u32(h) == Some(v));
    let (ri, gi, bi) = (r as int, g as int, b as int);
    let w = 0xff00_0000 + v;
    assert((w / 0x1000000) % 256 == 255 && (w / 0x10000) % 256 == ri && (w / 0x100) % 256 == gi && w % 256 == bi)
        by (nonlinear_arith)
        requires
            w == 0xff00_0000 + ((ri * 256 + gi) * 256 + bi),
            0 <= ri < 256, 0 <= gi < 256, 0 <= bi < 256;
}

/// The `rgb(...)` form reads the same color from decimal channels as from
/// hexadecimal ones: the channels, with full alpha.
pub proof fn law_rgb_decimal_and_hex_agree(r: u8, g: u8, b: u8)
    ensures
        rgb_str_color(rgb_dec_text(r, g, b)) == Some(HyprColor { r, g, b, a: 255 }),
        rgb_str_color(rgb_hex_text(r, g, b)) == Some(HyprColor { r, g, b, a: 255 }),
{
    reveal_strlit("rgb(");
    reveal_strlit(",");
    let (dr, dg, db) = (int_dec(r as int), int_dec(g as int), int_dec(b as int));
    let inner = dr + seq![','] + dg + seq![','] + db;
    assert(rgb_dec_text(r, g, b) =~= "rgb("@ + inner + ")"@);
    lemma_inside("rgb("@, inner);
    lemma_rgb_dec_inner(r, g, b);
    let h = byte_hex(r) + byte_hex(g) + byte_hex(b);
    assert(rgb_hex_text(r, g, b) =~= "rgb("@ + h + ")"@);
    lemma_inside("rgb("@, h);
    lemma_rgb_hex_inner(r, g, b);
}

/// The `rgba(...)` form with decimal channels hands its trimmed fourth
/// piece to the alpha reader, and with the reader's alpha gives the color
/// that the hexadecimal form of the same channels and alpha gives.
pub proof fn law_rgba_decimal_and_hex_agree(c: HyprColor, alpha: Seq<char>)
    requires
        !has_char(alpha, ','),
    ensures
        rgba_alpha_text(rgba_dec_text(c.r, c.g, c.b, alpha)) == Some(trim(alpha)),
        rgba_str_color(rgba_dec_text(c.r, c.g, c.b, alpha), Some(c.a)) == Some(c),
        rgba_str_color(color_text(c), None) == Some(c),
{
    reveal_strlit("rgba(");
    reveal_strlit(",");
    law_color_text_reads_back(c);
    let (dr, dg, db) = (int_dec(c.r as int), int_dec(c.g as int), int_dec(c.b as int));
    lemma_channel_dec(c.r);
    lemma_channel_dec(c.g);
    lemma_channel_dec(c.b);
    let rest = seq![','] + alpha;
    let inner = dr + seq![','] + dg + seq![','] + db + rest;
    assert(rgba_dec_text(c.r, c.g, c.b, alpha) =~= "rgba("@ + inner + ")"@);
    lemma_inside("rgba("@, inner);
    lemma_dec_channels(c.r, c.g, c.b, rest);
    lemma_split_char_front(db, alpha, ',');
    lemma_split_char_single(alpha, ',');
    assert(db + rest =~= db + seq![','] + alpha);
    assert(split_char(inner, ',') =~= seq![dr, dg, db, alpha]);
}

} // verus!
