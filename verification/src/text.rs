//! Character-sequence helpers shared by the formatting and parsing code:
//! whitespace trimming, splitting, line breaking, and integer text in the
//! forms that Rust's standard library reads and writes.
use vstd::prelude::*;
use vstd::string::*;
use vstd::std_specs::iter::IteratorSpec;

verus! {

// ---------------------------------------------------------------------
// Building strings
// ---------------------------------------------------------------------

/// Appends one character to a string (`String::push`).
#[verifier::external_body]
pub(crate) fn push_char(s: &mut String, c: char)
    ensures
        final(s)@ == old(s)@.push(c),
{
    s.push(c);
}

/// Appends a string slice to a string.
pub fn push_str(s: &mut String, t: &str)
    ensures
        final(s)@ == old(s)@ + t@,
{
    s.append(t);
}

/// Appends a sequence of characters to a string.
pub fn push_chars(s: &mut String, v: &Vec<char>)
    ensures
        final(s)@ == old(s)@ + v@,
{
    let ghost start = s@;
    let mut i: usize = 0;
    while i < v.len()
        invariant
            i <= v.len(),
            s@ == start + v@.take(i as int),
        decreases v.len() - i,
    {
        push_char(s, v[i]);
        i = i + 1;
        assert(s@ =~= start + v@.take(i as int));
    }
    assert(v@.take(v.len() as int) =~= v@);
}

/// A string holding exactly the given characters.
pub fn string_of(v: &Vec<char>) -> (res: String)
    ensures
        res@ == v@,
{
    let mut s = String::new();
    push_chars(&mut s, v);
    s
}

/// The characters of a string slice, in order.
pub fn chars_of(s: &str) -> (v: Vec<char>)
    ensures
        v@ == s@,
{
    broadcast use vstd::string::group_string_axioms;
    let mut v: Vec<char> = Vec::new();
    let mut it = s.chars();
    loop
        invariant
            it.obeys_prophetic_iter_laws(),
            v@ + it.remaining() == s@,
        decreases s@.len() - v@.len(),
    {
        match it.next() {
            Some(c) => {
                v.push(c);
                assert(v@ + it.remaining() =~= s@);
            },
            None => {
                assert(v@ =~= s@);
                return v;
            },
        }
    }
}

/// The characters of `v` from `lo` up to (not including) `hi`.
pub fn slice_of(v: &Vec<char>, lo: usize, hi: usize) -> (res: Vec<char>)
    requires
        lo <= hi <= v.len(),
    ensures
        res@ == v@.subrange(lo as int, hi as int),
{
    let mut r: Vec<char> = Vec::new();
    let mut i = lo;
    while i < hi
        invariant
            lo <= i <= hi <= v.len(),
            r@ == v@.subrange(lo as int, i as int),
        decreases hi - i,
    {
        r.push(v[i]);
        i = i + 1;
        assert(r@ =~= v@.subrange(lo as int, i as int));
    }
    r
}

/// Whether two character sequences are equal.
pub fn chars_eq(a: &Vec<char>, b: &Vec<char>) -> (res: bool)
    ensures
        res == (a@ == b@),
{
    if a.len() != b.len() {
        return false;
    }
    let mut i: usize = 0;
    while i < a.len()
        invariant
            a.len() == b.len(),
            i <= a.len(),
            forall|j: int| 0 <= j < i ==> a@[j] == b@[j],
        decreases a.len() - i,
    {
        if a[i] != b[i] {
            return false;
        }
        i = i + 1;
    }
    assert(a@ =~= b@);
    true
}

/// Whether a character sequence spells out the given string literal.
pub fn chars_eq_str(a: &Vec<char>, lit: &str) -> (res: bool)
    ensures
        res == (a@ == lit@),
{
    let b = chars_of(lit);
    chars_eq(a, &b)
}

/// Whether `v` begins with the characters of `p`.
pub fn starts_with(v: &Vec<char>, p: &Vec<char>) -> (res: bool)
    ensures
        res == (p@.len() <= v@.len() && v@.take(p@.len() as int) == p@),
{
    if p.len() > v.len() {
        return false;
    }
    let mut i: usize = 0;
    while i < p.len()
        invariant
            p.len() <= v.len(),
            i <= p.len(),
            forall|j: int| 0 <= j < i ==> v@[j] == p@[j],
        decreases p.len() - i,
    {
        if v[i] != p[i] {
            assert(v@.take(p@.len() as int)[i as int] != p@[i as int]);
            return false;
        }
        i = i + 1;
    }
    assert(v@.take(p@.len() as int) =~= p@);
    true
}

/// Whether `v` ends with the characters of `p`.
pub fn ends_with(v: &Vec<char>, p: &Vec<char>) -> (res: bool)
    ensures
        res == (p@.len() <= v@.len() && v@.skip(v@.len() - p@.len()) == p@),
{
    if p.len() > v.len() {
        return false;
    }
    let off = v.len() - p.len();
    let mut i: usize = 0;
    while i < p.len()
        invariant
            p.len() <= v.len(),
            off == v.len() - p.len(),
            i <= p.len(),
            forall|j: int| 0 <= j < i ==> v@[off + j] == p@[j],
        decreases p.len() - i,
    {
        if v[off + i] != p[i] {
            assert(v@.skip(off as int)[i as int] != p@[i as int]);
            return false;
        }
        i = i + 1;
    }
    assert(v@.skip(off as int) =~= p@);
    true
}

/// Whether `v` begins with the given string literal.
pub fn starts_with_str(v: &Vec<char>, lit: &str) -> (res: bool)
    ensures
        res == (lit@.len() <= v@.len() && v@.take(lit@.len() as int) == lit@),
{
    let p = chars_of(lit);
    starts_with(v, &p)
}

/// Whether `v` ends with the given string literal.
pub fn ends_with_str(v: &Vec<char>, lit: &str) -> (res: bool)
    ensures
        res == (lit@.len() <= v@.len() && v@.skip(v@.len() - lit@.len()) == lit@),
{
    let p = chars_of(lit);
    ends_with(v, &p)
}

// ---------------------------------------------------------------------
// Searching
// ---------------------------------------------------------------------

/// Position of the first `c` in `s`, or `s.len()` when there is none.
pub open spec fn index_of(s: Seq<char>, c: char) -> int
    decreases s.len(),
{
    if s.len() == 0 {
        0
    } else if s[0] == c {
        0
    } else {
        1 + index_of(s.drop_first(), c)
    }
}

/// Whether `p` is the beginning of `t`.
pub open spec fn prefix_of(p: Seq<char>, t: Seq<char>) -> bool {
    p.len() <= t.len() && t.take(p.len() as int) == p
}

/// A text begins with its first part.
pub proof fn lemma_prefix_of(p: Seq<char>, r: Seq<char>)
    ensures
        prefix_of(p, p + r),
{
    assert((p + r).take(p.len() as int) =~= p);
}

/// Whether `c` occurs in `s`.
pub open spec fn has_char(s: Seq<char>, c: char) -> bool {
    exists|i: int| 0 <= i < s.len() && s[i] == c
}

pub proof fn lemma_index_of(s: Seq<char>, c: char)
    ensures
        0 <= index_of(s, c) <= s.len(),
        index_of(s, c) < s.len() ==> s[index_of(s, c)] == c,
        forall|j: int| 0 <= j < index_of(s, c) ==> s[j] != c,
        index_of(s, c) == s.len() <==> !has_char(s, c),
    decreases s.len(),
{
    if s.len() > 0 && s[0] != c {
        lemma_index_of(s.drop_first(), c);
        assert forall|j: int| 0 <= j < index_of(s, c) implies s[j] != c by {
            if j > 0 {
                assert(s[j] == s.drop_first()[j - 1]);
            }
        }
        if has_char(s.drop_first(), c) {
            let k = choose|k: int| 0 <= k < s.drop_first().len() && s.drop_first()[k] == c;
            assert(s[k + 1] == c);
        }
        if has_char(s, c) {
            let k = choose|k: int| 0 <= k < s.len() && s[k] == c;
            assert(s.drop_first()[k - 1] == c);
        }
    } else if s.len() > 0 {
        assert(has_char(s, c));
    }
}

/// The first position `k` whose character is `c` with none before it is
/// where `index_of` points.
pub proof fn lemma_index_of_at(s: Seq<char>, c: char, k: int)
    requires
        0 <= k <= s.len(),
        k < s.len() ==> s[k] == c,
        forall|j: int| 0 <= j < k ==> s[j] != c,
    ensures
        index_of(s, c) == k,
    decreases s.len(),
{
    if s.len() > 0 && k > 0 {
        assert forall|j: int| 0 <= j < k - 1 implies s.drop_first()[j] != c by {
            assert(s.drop_first()[j] == s[j + 1]);
        }
        lemma_index_of_at(s.drop_first(), c, k - 1);
    }
}

/// Position of the first `c` at or after `from`, or `v.len()`.
pub fn find_char_from(v: &Vec<char>, from: usize, c: char) -> (res: usize)
    requires
        from <= v.len(),
    ensures
        from <= res <= v.len(),
        res - from == index_of(v@.skip(from as int), c),
        res < v.len() ==> v@[res as int] == c,
        forall|j: int| from <= j < res ==> v@[j] != c,
{
    let mut i = from;
    while i < v.len()
        invariant
            from <= i <= v.len(),
            forall|j: int| from <= j < i ==> v@[j] != c,
        decreases v.len() - i,
    {
        if v[i] == c {
            proof {
                lemma_index_of_at(v@.skip(from as int), c, (i - from) as int);
            }
            return i;
        }
        i = i + 1;
    }
    proof {
        lemma_index_of_at(v@.skip(from as int), c, (i - from) as int);
    }
    i
}

/// Position of the first occurrence of the two-character pattern `a b`
/// in `s`, or `s.len()` when there is none.
pub open spec fn index_of_pair(s: Seq<char>, a: char, b: char) -> int
    decreases s.len(),
{
    if s.len() < 2 {
        s.len() as int
    } else if s[0] == a && s[1] == b {
        0
    } else {
        1 + index_of_pair(s.drop_first(), a, b)
    }
}

pub proof fn lemma_index_of_pair(s: Seq<char>, a: char, b: char)
    ensures
        0 <= index_of_pair(s, a, b) <= s.len(),
        index_of_pair(s, a, b) < s.len() ==> index_of_pair(s, a, b) + 1 < s.len()
            && s[index_of_pair(s, a, b)] == a && s[index_of_pair(s, a, b) + 1] == b,
    decreases s.len(),
{
    if s.len() >= 2 && !(s[0] == a && s[1] == b) {
        lemma_index_of_pair(s.drop_first(), a, b);
    }
}

/// Position of the first `a b` pattern in `v`, or `v.len()`.
pub fn find_pair(v: &Vec<char>, a: char, b: char) -> (res: usize)
    ensures
        res == index_of_pair(v@, a, b),
{
    let mut i: usize = 0;
    assert(v@.skip(0) =~= v@);
    while v.len() - i >= 2
        invariant
            i <= v.len(),
            index_of_pair(v@, a, b) == i + index_of_pair(v@.skip(i as int), a, b),
        decreases v.len() - i,
    {
        if v[i] == a && v[i + 1] == b {
            return i;
        }
        assert(v@.skip(i as int).drop_first() =~= v@.skip(i as int + 1));
        i = i + 1;
    }
    if i < v.len() {
        assert(v@.skip(i as int).len() < 2);
    }
    v.len()
}

// ---------------------------------------------------------------------
// Splitting
// ---------------------------------------------------------------------

/// The views of a sequence of character vectors.
pub open spec fn views(vs: Seq<Vec<char>>) -> Seq<Seq<char>> {
    vs.map_values(|x: Vec<char>| x@)
}

/// `str::split(c)`: the pieces between occurrences of `c`; always at
/// least one piece.
pub open spec fn split_char(s: Seq<char>, c: char) -> Seq<Seq<char>>
    decreases s.len(),
{
    let i = index_of(s, c);
    if i < 0 || i >= s.len() {
        seq![s]
    } else {
        seq![s.take(i)] + split_char(s.skip(i + 1), c)
    }
}

/// `split` always gives at least one piece.
pub proof fn lemma_split_char_nonempty(s: Seq<char>, c: char)
    ensures
        split_char(s, c).len() >= 1,
{
}

/// `str::splitn(n, c)`: at most `n` pieces, the last holding the rest.
pub open spec fn splitn_char(s: Seq<char>, n: nat, c: char) -> Seq<Seq<char>>
    decreases s.len(),
{
    let i = index_of(s, c);
    if n == 0 {
        Seq::empty()
    } else if n == 1 || i < 0 || i >= s.len() {
        seq![s]
    } else {
        seq![s.take(i)] + splitn_char(s.skip(i + 1), (n - 1) as nat, c)
    }
}

/// `str::split(c)` on `v`.
pub fn split_all(v: &Vec<char>, c: char) -> (res: Vec<Vec<char>>)
    ensures
        views(res@) == split_char(v@, c),
{
    let mut out: Vec<Vec<char>> = Vec::new();
    let mut start: usize = 0;
    assert(v@.skip(0) =~= v@);
    assert(views(out@) =~= Seq::<Seq<char>>::empty());
    loop
        invariant
            start <= v.len(),
            views(out@) + split_char(v@.skip(start as int), c) == split_char(v@, c),
        decreases v.len() - start,
    {
        let k = find_char_from(v, start, c);
        let piece = slice_of(v, start, k);
        let ghost rest = v@.skip(start as int);
        let ghost prev = out@;
        proof {
            lemma_index_of(rest, c);
        }
        out.push(piece);
        assert(views(out@) =~= views(prev).push(piece@));
        if k >= v.len() {
            assert(piece@ =~= rest);
            assert(views(out@) =~= views(prev) + split_char(rest, c));
            return out;
        }
        assert(piece@ =~= rest.take(k - start));
        assert(rest.skip(k - start + 1) =~= v@.skip(k + 1));
        assert(views(out@) + split_char(v@.skip(k + 1), c) =~= views(prev) + split_char(rest, c));
        start = k + 1;
    }
}

/// `str::splitn(n, c)` on `v`.
pub fn splitn_all(v: &Vec<char>, n: usize, c: char) -> (res: Vec<Vec<char>>)
    ensures
        views(res@) == splitn_char(v@, n as nat, c),
{
    let mut out: Vec<Vec<char>> = Vec::new();
    if n == 0 {
        assert(views(out@) =~= Seq::<Seq<char>>::empty());
        return out;
    }
    let mut start: usize = 0;
    let mut left: usize = n;
    assert(v@.skip(0) =~= v@);
    assert(views(out@) =~= Seq::<Seq<char>>::empty());
    loop
        invariant
            start <= v.len(),
            1 <= left <= n,
            views(out@) + splitn_char(v@.skip(start as int), left as nat, c) == splitn_char(v@, n as nat, c),
        decreases v.len() - start,
    {
        let ghost rest = v@.skip(start as int);
        let ghost prev = out@;
        proof {
            lemma_index_of(rest, c);
        }
        if left == 1 {
            let piece = slice_of(v, start, v.len());
            out.push(piece);
            assert(piece@ =~= rest);
            assert(views(out@) =~= views(prev).push(piece@));
            assert(views(out@) =~= views(prev) + splitn_char(rest, left as nat, c));
            return out;
        }
        let k = find_char_from(v, start, c);
        let piece = slice_of(v, start, k);
        out.push(piece);
        assert(views(out@) =~= views(prev).push(piece@));
        if k >= v.len() {
            assert(piece@ =~= rest);
            assert(views(out@) =~= views(prev) + splitn_char(rest, left as nat, c));
            return out;
        }
        assert(piece@ =~= rest.take(k - start));
        assert(rest.skip(k - start + 1) =~= v@.skip(k + 1));
        assert(views(out@) + splitn_char(v@.skip(k + 1), (left - 1) as nat, c) =~= views(prev) + splitn_char(rest, left as nat, c));
        start = k + 1;
        left = left - 1;
    }
}

// ---------------------------------------------------------------------
// Whitespace and lines
// ---------------------------------------------------------------------

/// `char::is_whitespace`: the characters with the Unicode `White_Space`
/// property.
pub open spec fn is_ws(c: char) -> bool {
    ||| ('\u{9}' <= c && c <= '\u{d}')
    ||| c == ' '
    ||| c == '\u{85}'
    ||| c == '\u{a0}'
    ||| c == '\u{1680}'
    ||| ('\u{2000}' <= c && c <= '\u{200a}')
    ||| c == '\u{2028}'
    ||| c == '\u{2029}'
    ||| c == '\u{202f}'
    ||| c == '\u{205f}'
    ||| c == '\u{3000}'
}

/// Executable `is_ws`.
pub fn is_whitespace(c: char) -> (res: bool)
    ensures
        res == is_ws(c),
{
    ('\u{9}' <= c && c <= '\u{d}') || c == ' ' || c == '\u{85}' || c == '\u{a0}'
        || c == '\u{1680}' || ('\u{2000}' <= c && c <= '\u{200a}') || c == '\u{2028}'
        || c == '\u{2029}' || c == '\u{202f}' || c == '\u{205f}' || c == '\u{3000}'
}

/// Number of leading whitespace characters.
pub open spec fn ws_prefix_len(s: Seq<char>) -> int
    decreases s.len(),
{
    if s.len() > 0 && is_ws(s[0]) {
        1 + ws_prefix_len(s.drop_first())
    } else {
        0
    }
}

/// Number of trailing whitespace characters.
pub open spec fn ws_suffix_len(s: Seq<char>) -> int
    decreases s.len(),
{
    if s.len() > 0 && is_ws(s.last()) {
        1 + ws_suffix_len(s.drop_last())
    } else {
        0
    }
}

/// `str::trim_start`.
pub open spec fn trim_start(s: Seq<char>) -> Seq<char> {
    s.skip(ws_prefix_len(s))
}

/// `str::trim_end`.
pub open spec fn trim_end(s: Seq<char>) -> Seq<char> {
    s.take(s.len() - ws_suffix_len(s))
}

/// `str::trim`: the text without leading and trailing whitespace.
pub open spec fn trim(s: Seq<char>) -> Seq<char> {
    trim_end(trim_start(s))
}

proof fn lemma_ws_prefix_at(s: Seq<char>, k: int)
    requires
        0 <= k <= s.len(),
        forall|j: int| 0 <= j < k ==> is_ws(s[j]),
        k < s.len() ==> !is_ws(s[k]),
    ensures
        ws_prefix_len(s) == k,
    decreases s.len(),
{
    if k > 0 {
        assert forall|j: int| 0 <= j < k - 1 implies is_ws(s.drop_first()[j]) by {
            assert(s.drop_first()[j] == s[j + 1]);
        }
        lemma_ws_prefix_at(s.drop_first(), k - 1);
    }
}

proof fn lemma_ws_suffix_at(s: Seq<char>, k: int)
    requires
        0 <= k <= s.len(),
        forall|j: int| s.len() - k <= j < s.len() ==> is_ws(s[j]),
        k < s.len() ==> !is_ws(s[s.len() - k - 1]),
    ensures
        ws_suffix_len(s) == k,
    decreases s.len(),
{
    if k > 0 {
        assert forall|j: int| s.drop_last().len() - (k - 1) <= j < s.drop_last().len() implies is_ws(s.drop_last()[j]) by {
            assert(s.drop_last()[j] == s[j]);
        }
        lemma_ws_suffix_at(s.drop_last(), k - 1);
    }
}

/// `str::trim` on `v`.
pub fn trim_chars(v: &Vec<char>) -> (res: Vec<char>)
    ensures
        res@ == trim(v@),
{
    let mut a: usize = 0;
    while a < v.len() && is_whitespace(v[a])
        invariant
            a <= v.len(),
            forall|j: int| 0 <= j < a ==> is_ws(v@[j]),
        decreases v.len() - a,
    {
        a = a + 1;
    }
    proof {
        lemma_ws_prefix_at(v@, a as int);
    }
    let ghost t = v@.skip(a as int);
    let mut b: usize = v.len();
    while b > a && is_whitespace(v[b - 1])
        invariant
            a <= b <= v.len(),
            t == v@.skip(a as int),
            forall|j: int| b <= j < v.len() ==> is_ws(v@[j]),
        decreases b,
    {
        b = b - 1;
    }
    proof {
        assert forall|j: int| t.len() - (v.len() - b) <= j < t.len() implies is_ws(t[j]) by {
            assert(t[j] == v@[a + j]);
        }
        if b > a {
            assert(t[t.len() - (v.len() - b) - 1] == v@[b - 1]);
        }
        lemma_ws_suffix_at(t, (v.len() - b) as int);
    }
    let r = slice_of(v, a, b);
    assert(r@ =~= t.take(t.len() - (v.len() - b)));
    r
}

/// A line with one trailing carriage return removed.
pub open spec fn strip_cr(l: Seq<char>) -> Seq<char> {
    if l.len() > 0 && l.last() == '\r' {
        l.drop_last()
    } else {
        l
    }
}

/// `str::lines`: lines ended by `\n` or `\r\n`; a final line ending
/// adds no empty line, and an empty text has no lines.
pub open spec fn lines(s: Seq<char>) -> Seq<Seq<char>>
    decreases s.len(),
{
    let i = index_of(s, '\n');
    if s.len() == 0 {
        Seq::empty()
    } else if i < 0 || i >= s.len() {
        seq![s]
    } else {
        seq![strip_cr(s.take(i))] + lines(s.skip(i + 1))
    }
}

/// `str::lines` on `v`.
pub fn lines_of(v: &Vec<char>) -> (res: Vec<Vec<char>>)
    ensures
        views(res@) == lines(v@),
{
    let mut out: Vec<Vec<char>> = Vec::new();
    let mut start: usize = 0;
    assert(v@.skip(0) =~= v@);
    assert(views(out@) =~= Seq::<Seq<char>>::empty());
    loop
        invariant
            start <= v.len(),
            views(out@) + lines(v@.skip(start as int)) == lines(v@),
        decreases v.len() - start,
    {
        let ghost rest = v@.skip(start as int);
        let ghost prev = out@;
        proof {
            lemma_index_of(rest, '\n');
        }
        if start == v.len() {
            assert(views(out@) + lines(rest) =~= views(out@));
            return out;
        }
        let k = find_char_from(v, start, '\n');
        if k >= v.len() {
            let piece = slice_of(v, start, k);
            out.push(piece);
            assert(piece@ =~= rest);
            assert(views(out@) =~= views(prev).push(piece@));
            assert(views(out@) =~= views(prev) + lines(rest));
            return out;
        }
        let end = if k > start && v[k - 1] == '\r' { k - 1 } else { k };
        let piece = slice_of(v, start, end);
        assert(piece@ =~= strip_cr(rest.take(k - start)));
        out.push(piece);
        assert(views(out@) =~= views(prev).push(piece@));
        assert(rest.skip(k - start + 1) =~= v@.skip(k + 1));
        assert(views(out@) + lines(v@.skip(k + 1)) =~= views(prev) + lines(rest));
        start = k + 1;
    }
}

// ---------------------------------------------------------------------
// Integer text
// ---------------------------------------------------------------------

/// The decimal digit character for `d` (0 to 9).
pub open spec fn digit_char(d: int) -> char {
    (('0' as int) + d) as char
}

/// The lowercase hexadecimal digit character for `d` (0 to 15).
pub open spec fn hex_digit(d: int) -> char {
    if d < 10 {
        digit_char(d)
    } else {
        (('a' as int) + d - 10) as char
    }
}

/// Decimal text of a natural number, without leading zeros.
pub open spec fn nat_dec(n: nat) -> Seq<char>
    decreases n,
{
    if n < 10 {
        seq![digit_char(n as int)]
    } else {
        nat_dec(n / 10).push(digit_char((n % 10) as int))
    }
}

/// Decimal text of an integer as `Display` writes it.
pub open spec fn int_dec(i: int) -> Seq<char> {
    if i < 0 {
        seq!['-'] + nat_dec((-i) as nat)
    } else {
        nat_dec(i as nat)
    }
}

/// Two lowercase hexadecimal digits of a byte, as `{:02x}` writes it.
pub open spec fn byte_hex(b: u8) -> Seq<char> {
    seq![hex_digit(b as int / 16), hex_digit(b as int % 16)]
}

fn digit_of(d: u8) -> (c: char)
    requires
        d < 10,
    ensures
        c == digit_char(d as int),
{
    ((48u8 + d) as char)
}

fn hex_digit_of(d: u8) -> (c: char)
    requires
        d < 16,
    ensures
        c == hex_digit(d as int),
{
    if d < 10 {
        digit_of(d)
    } else {
        ((87u8 + d) as char)
    }
}

/// Appends the decimal text of `n`.
pub fn push_u128(s: &mut String, n: u128)
    ensures
        final(s)@ == old(s)@ + nat_dec(n as nat),
    decreases n,
{
    if n >= 10 {
        push_u128(s, n / 10);
    }
    push_char(s, digit_of((n % 10) as u8));
    proof {
        if n >= 10 {
            assert(nat_dec(n as nat) == nat_dec((n / 10) as nat).push(digit_char((n % 10) as int)));
        }
    }
    assert(final(s)@ =~= old(s)@ + nat_dec(n as nat));
}

/// Appends the decimal text of `i`.
pub fn push_i128(s: &mut String, i: i128)
    ensures
        final(s)@ == old(s)@ + int_dec(i as int),
{
    if i < 0 {
        push_char(s, '-');
        let m: u128 = ((-(i + 1)) as u128) + 1;
        push_u128(s, m);
        assert(final(s)@ =~= old(s)@ + int_dec(i as int));
    } else {
        push_u128(s, i as u128);
    }
}

/// Decimal text of an unsigned integer.
pub fn u128_text(n: u128) -> (res: String)
    ensures
        res@ == nat_dec(n as nat),
{
    let mut s = String::new();
    push_u128(&mut s, n);
    assert(s@ =~= nat_dec(n as nat));
    s
}

/// Decimal text of a signed integer.
pub fn i128_text(i: i128) -> (res: String)
    ensures
        res@ == int_dec(i as int),
{
    let mut s = String::new();
    push_i128(&mut s, i);
    assert(s@ =~= int_dec(i as int));
    s
}

/// Appends `{:02x}` of a byte.
pub fn push_byte_hex(s: &mut String, b: u8)
    ensures
        final(s)@ == old(s)@ + byte_hex(b),
{
    push_char(s, hex_digit_of(b / 16));
    push_char(s, hex_digit_of(b % 16));
    assert(final(s)@ =~= old(s)@ + byte_hex(b));
}

/// Why integer text was refused (`std::num::IntErrorKind`).
#[derive(Debug, Clone, Copy, PartialEq, Eq)]
pub enum IntErrorKind {
    /// The text is empty.
    Empty,
    /// A character is not a digit of the radix.
    InvalidDigit,
    /// The value is above the type's maximum.
    PosOverflow,
    /// The value is below the type's minimum.
    NegOverflow,
}

/// The message that `ParseIntError`'s `Display` writes for each kind.
pub open spec fn int_error_message(k: IntErrorKind) -> Seq<char> {
    match k {
        IntErrorKind::Empty => "cannot parse integer from empty string"@,
        IntErrorKind::InvalidDigit => "invalid digit found in string"@,
        IntErrorKind::PosOverflow => "number too large to fit in target type"@,
        IntErrorKind::NegOverflow => "number too small to fit in target type"@,
    }
}

/// Executable `int_error_message`.
pub fn int_error_text(k: IntErrorKind) -> (res: String)
    ensures
        res@ == int_error_message(k),
{
    match k {
        IntErrorKind::Empty => String::from_str("cannot parse integer from empty string"),
        IntErrorKind::InvalidDigit => String::from_str("invalid digit found in string"),
        IntErrorKind::PosOverflow => String::from_str("number too large to fit in target type"),
        IntErrorKind::NegOverflow => String::from_str("number too small to fit in target type"),
    }
}

/// `char::to_digit(radix)` for radix 10 or 16, or -1 for a non-digit.
pub open spec fn digit_value(c: char, radix: int) -> int {
    if '0' <= c && c <= '9' {
        c as int - '0' as int
    } else if radix == 16 && 'a' <= c && c <= 'f' {
        c as int - 'a' as int + 10
    } else if radix == 16 && 'A' <= c && c <= 'F' {
        c as int - 'A' as int + 10
    } else {
        -1
    }
}

/// Reads the digits `ds` left to right into the magnitude `m`, refusing
/// the first non-digit and the first step that exceeds `bound`.
pub open spec fn accumulate(ds: Seq<char>, m: int, radix: int, bound: int, neg: bool) -> Result<int, IntErrorKind>
    decreases ds.len(),
{
    if ds.len() == 0 {
        Ok(m)
    } else {
        let d = digit_value(ds[0], radix);
        if d < 0 {
            Err(IntErrorKind::InvalidDigit)
        } else if m * radix + d > bound {
            Err(if neg { IntErrorKind::NegOverflow } else { IntErrorKind::PosOverflow })
        } else {
            accumulate(ds.drop_first(), m * radix + d, radix, bound, neg)
        }
    }
}

/// `from_str_radix` of an integer type with range `min..=max`: an
/// optional `+` (or `-` when `signed`), then at least one digit.
pub open spec fn parse_int(s: Seq<char>, radix: int, signed: bool, min: int, max: int) -> Result<int, IntErrorKind> {
    if s.len() == 0 {
        Err(IntErrorKind::Empty)
    } else if (s[0] == '+' || s[0] == '-') && s.len() == 1 {
        Err(IntErrorKind::InvalidDigit)
    } else {
        let neg = signed && s[0] == '-';
        let ds = if s[0] == '+' || neg { s.drop_first() } else { s };
        match accumulate(ds, 0, radix, if neg { -min } else { max }, neg) {
            Ok(m) => Ok(if neg { -m } else { m }),
            Err(e) => Err(e),
        }
    }
}

proof fn lemma_accumulate_range(ds: Seq<char>, m: int, radix: int, bound: int, neg: bool)
    requires
        0 <= m <= bound,
        radix == 10 || radix == 16,
    ensures
        accumulate(ds, m, radix, bound, neg) matches Ok(x) ==> 0 <= x <= bound,
    decreases ds.len(),
{
    if ds.len() > 0 {
        let d = digit_value(ds[0], radix);
        if d >= 0 && m * radix + d <= bound {
            assert(m * radix >= 0) by (nonlinear_arith)
                requires m >= 0, radix >= 0;
            lemma_accumulate_range(ds.drop_first(), m * radix + d, radix, bound, neg);
        }
    }
}

/// A value that `parse_int` reads lies in the type's range.
pub proof fn lemma_parse_int_range(s: Seq<char>, radix: int, signed: bool, min: int, max: int)
    requires
        radix == 10 || radix == 16,
        min <= 0 <= max,
    ensures
        parse_int(s, radix, signed, min, max) matches Ok(x) ==> min <= x <= max,
{
    if s.len() > 0 {
        let neg = signed && s[0] == '-';
        let ds = if s[0] == '+' || neg { s.drop_first() } else { s };
        lemma_accumulate_range(ds, 0, radix, if neg { -min } else { max }, neg);
    }
}

fn digit_value_of(c: char, radix: u32) -> (res: i32)
    ensures
        res == digit_value(c, radix as int),
        -1 <= res < 16,
        (radix == 10 || radix == 16) ==> res < radix,
{
    if '0' <= c && c <= '9' {
        (c as u32 - 48) as i32
    } else if radix == 16 && 'a' <= c && c <= 'f' {
        (c as u32 - 87) as i32
    } else if radix == 16 && 'A' <= c && c <= 'F' {
        (c as u32 - 55) as i32
    } else {
        -1
    }
}

proof fn lemma_step_bound(m: int, r: int, d: int, b: int)
    requires
        0 <= m,
        r == 10 || r == 16,
        0 <= d < r,
        d <= b,
    ensures
        (m * r + d > b) <== (m > (b - d) / r),
        (m * r + d > b) ==> (m > (b - d) / r),
{
    assert((m > (b - d) / r) ==> (m * r + d > b)) by (nonlinear_arith)
        requires 0 <= m, r > 0, 0 <= d, d <= b;
    assert((m * r + d > b) ==> (m > (b - d) / r)) by (nonlinear_arith)
        requires 0 <= m, r > 0, 0 <= d, d <= b;
}

/// Reads integer text as `from_str_radix` does for a type whose range is
/// `min..=max`.
pub fn parse_int_chars(v: &Vec<char>, radix: u32, signed: bool, min: i128, max: i128) -> (res: Result<i128, IntErrorKind>)
    requires
        radix == 10 || radix == 16,
        min <= 0,
        15 <= max,
        signed ==> min <= -15,
    ensures
        match parse_int(v@, radix as int, signed, min as int, max as int) {
            Ok(x) => res == Ok::<i128, IntErrorKind>(x as i128),
            Err(e) => res == Err::<i128, IntErrorKind>(e),
        },
{
    if v.len() == 0 {
        return Err(IntErrorKind::Empty);
    }
    if (v[0] == '+' || v[0] == '-') && v.len() == 1 {
        return Err(IntErrorKind::InvalidDigit);
    }
    let neg = signed && v[0] == '-';
    let start: usize = if v[0] == '+' || neg { 1 } else { 0 };
    let bound: u128 = if neg { ((-(min + 1)) as u128) + 1 } else { max as u128 };
    let ghost ds = if v@[0] == '+' || neg { v@.drop_first() } else { v@ };
    assert(ds =~= v@.skip(start as int));
    assert(parse_int(v@, radix as int, signed, min as int, max as int) == match accumulate(ds, 0, radix as int, bound as int, neg) {
        Ok(x) => Ok(if neg { -x } else { x }),
        Err(e) => Err(e),
    });
    let mut m: u128 = 0;
    let mut i: usize = start;
    while i < v.len()
        invariant
            start <= i <= v.len(),
            ds == v@.skip(start as int),
            bound >= 15,
            bound as int == if neg { -(min as int) } else { max as int },
            m <= bound,
            accumulate(ds, 0, radix as int, bound as int, neg)
                == accumulate(v@.skip(i as int), m as int, radix as int, bound as int, neg),
            parse_int(v@, radix as int, signed, min as int, max as int) == match accumulate(ds, 0, radix as int, bound as int, neg) {
                Ok(x) => Ok(if neg { -x } else { x }),
                Err(e) => Err(e),
            },
            radix == 10 || radix == 16,
        decreases v.len() - i,
    {
        let d = digit_value_of(v[i], radix);
        assert(v@.skip(i as int)[0] == v@[i as int]);
        assert(v@.skip(i as int).drop_first() =~= v@.skip(i as int + 1));
        if d < 0 {
            assert(accumulate(v@.skip(i as int), m as int, radix as int, bound as int, neg) == Err::<int, IntErrorKind>(IntErrorKind::InvalidDigit));
            return Err(IntErrorKind::InvalidDigit);
        }
        proof {
            lemma_step_bound(m as int, radix as int, d as int, bound as int);
        }
        if m > (bound - d as u128) / (radix as u128) {
            return Err(if neg { IntErrorKind::NegOverflow } else { IntErrorKind::PosOverflow });
        }
        assert(m as int * radix as int + d as int <= bound as int);
        m = m * (radix as u128) + (d as u128);
        i = i + 1;
    }
    assert(v@.skip(i as int).len() == 0);
    if neg {
        if m == 0 {
            Ok(0)
        } else {
            Ok(-((m - 1) as i128) - 1)
        }
    } else {
        Ok(m as i128)
    }
}

// ---------------------------------------------------------------------
// Facts about reading back what was written
// ---------------------------------------------------------------------

/// Text that neither begins nor ends with whitespace is left as it is by
/// trimming.
pub proof fn lemma_trim_unchanged(s: Seq<char>)
    requires
        s.len() > 0,
        !is_ws(s[0]),
        !is_ws(s.last()),
    ensures
        trim(s) == s,
{
    lemma_ws_prefix_at(s, 0);
    assert(s.skip(0) =~= s);
    lemma_ws_suffix_at(s, 0);
    assert(s.take(s.len() - 0) =~= s);
}

/// `split` of a piece without the separator, the separator and the rest.
pub proof fn lemma_split_char_front(a: Seq<char>, b: Seq<char>, c: char)
    requires
        !has_char(a, c),
    ensures
        split_char(a + seq![c] + b, c) == seq![a] + split_char(b, c),
{
    let s = a + seq![c] + b;
    assert forall|j: int| 0 <= j < a.len() implies s[j] != c by {
        assert(s[j] == a[j]);
    }
    lemma_index_of_at(s, c, a.len() as int);
    assert(s.take(a.len() as int) =~= a);
    assert(s.skip(a.len() as int + 1) =~= b);
}

/// `split` of a text without the separator is the text alone.
pub proof fn lemma_split_char_single(a: Seq<char>, c: char)
    requires
        !has_char(a, c),
    ensures
        split_char(a, c) == seq![a],
{
    lemma_index_of(a, c);
}

/// Reading digits that follow other digits continues from the value of
/// the first ones.
pub proof fn lemma_accumulate_concat(a: Seq<char>, b: Seq<char>, m: int, radix: int, bound: int, neg: bool)
    ensures
        accumulate(a + b, m, radix, bound, neg) == match accumulate(a, m, radix, bound, neg) {
            Ok(m2) => accumulate(b, m2, radix, bound, neg),
            Err(e) => Err(e),
        },
    decreases a.len(),
{
    if a.len() == 0 {
        assert(a + b =~= b);
    } else {
        assert((a + b)[0] == a[0]);
        assert((a + b).drop_first() =~= a.drop_first() + b);
        let d = digit_value(a[0], radix);
        if d >= 0 && m * radix + d <= bound {
            lemma_accumulate_concat(a.drop_first(), b, m * radix + d, radix, bound, neg);
        }
    }
}

/// The decimal text of a number is made of decimal digits only.
pub proof fn lemma_nat_dec_digits(n: nat)
    ensures
        nat_dec(n).len() >= 1,
        forall|i: int| 0 <= i < nat_dec(n).len() ==> '0' <= #[trigger] nat_dec(n)[i] && nat_dec(n)[i] <= '9',
    decreases n,
{
    if n >= 10 {
        lemma_nat_dec_digits(n / 10);
    }
}

/// The decimal text of a number reads back as the number.
pub proof fn lemma_accumulate_nat_dec(n: nat, bound: int, neg: bool)
    requires
        n <= bound,
    ensures
        accumulate(nat_dec(n), 0, 10, bound, neg) == Ok::<int, IntErrorKind>(n as int),
    decreases n,
{
    let dc = digit_char((n % 10) as int);
    assert(digit_value(dc, 10) == n % 10);
    reveal_with_fuel(accumulate, 2);
    assert((n / 10) * 10 + n % 10 == n);
    if n < 10 {
        assert(seq![dc].drop_first() =~= Seq::<char>::empty());
    } else {
        lemma_accumulate_nat_dec(n / 10, bound, neg);
        assert(nat_dec(n) =~= nat_dec(n / 10) + seq![dc]);
        lemma_accumulate_concat(nat_dec(n / 10), seq![dc], 0, 10, bound, neg);
        assert(seq![dc].drop_first() =~= Seq::<char>::empty());
    }
}

/// The decimal text of an integer in a type's range reads back as the
/// integer.
pub proof fn lemma_parse_int_dec(x: int, signed: bool, min: int, max: int)
    requires
        min <= x <= max,
        min <= 0 <= max,
        !signed ==> x >= 0,
    ensures
        parse_int(int_dec(x), 10, signed, min, max) == Ok::<int, IntErrorKind>(x),
{
    if x < 0 {
        let n = (-x) as nat;
        lemma_nat_dec_digits(n);
        lemma_accumulate_nat_dec(n, -min, true);
        assert((seq!['-'] + nat_dec(n)).drop_first() =~= nat_dec(n));
    } else {
        lemma_nat_dec_digits(x as nat);
        assert(nat_dec(x as nat)[0] != '+' && nat_dec(x as nat)[0] != '-');
        lemma_accumulate_nat_dec(x as nat, max, false);
    }
}

/// The decimal text of an integer has no character but digits and a
/// leading minus.
pub proof fn lemma_int_dec_chars(x: int)
    ensures
        int_dec(x).len() >= 1,
        forall|i: int| 0 <= i < int_dec(x).len() ==> ('0' <= #[trigger] int_dec(x)[i] && int_dec(x)[i] <= '9') || (i == 0 && int_dec(x)[i] == '-'),
        '0' <= int_dec(x).last() && int_dec(x).last() <= '9',
{
    if x < 0 {
        lemma_nat_dec_digits((-x) as nat);
        let s = seq!['-'] + nat_dec((-x) as nat);
        assert forall|i: int| 0 < i < s.len() implies s[i] == nat_dec((-x) as nat)[i - 1] by {}
    } else {
        lemma_nat_dec_digits(x as nat);
    }
}

/// Two hexadecimal digits of a byte read on from `m`.
pub proof fn lemma_accumulate_byte_hex(b: u8, m: int, bound: int, neg: bool)
    requires
        0 <= m,
        m * 256 + b <= bound,
    ensures
        accumulate(byte_hex(b), m, 16, bound, neg) == Ok::<int, IntErrorKind>(m * 256 + b),
{
    reveal_with_fuel(accumulate, 3);
    let h = byte_hex(b);
    let hi = b as int / 16;
    let lo = b as int % 16;
    assert(digit_value(hex_digit(hi), 16) == hi);
    assert(digit_value(hex_digit(lo), 16) == lo);
    assert(h.drop_first()[0] == h[1]);
    assert(h.drop_first().drop_first() =~= Seq::<char>::empty());
    assert(m * 16 + hi <= bound);
    assert((m * 16 + hi) * 16 + lo == m * 256 + b);
}

/// The hexadecimal digits of a byte.
pub proof fn lemma_byte_hex_chars(b: u8)
    ensures
        byte_hex(b).len() == 2,
        forall|i: int| 0 <= i < 2 ==> digit_value(#[trigger] byte_hex(b)[i], 16) >= 0,
{
    assert(digit_value(hex_digit(b as int / 16), 16) == b as int / 16);
    assert(digit_value(hex_digit(b as int % 16), 16) == b as int % 16);
}

} // verus!
