//! Character classes and small operations on character sequences.

use vstd::prelude::*;

verus! {

/// ASCII punctuation: `!` to `/`, `:` to `@`, `[` to `` ` `` and `{` to `~`.
pub open spec fn spec_is_ascii_punctuation(c: char) -> bool {
    ('!' <= c && c <= '/') || (':' <= c && c <= '@') || ('[' <= c && c <= '`') || ('{' <= c
        && c <= '~')
}

/// ASCII whitespace: space, horizontal tab, line feed, form feed and carriage return.
pub open spec fn spec_is_ascii_whitespace(c: char) -> bool {
    c == ' ' || c == '\t' || c == '\n' || c == '\x0C' || c == '\r'
}

/// Unicode `White_Space`, the characters that trimming removes.
pub open spec fn spec_is_whitespace(c: char) -> bool {
    ('\t' <= c && c <= '\r') || c == ' ' || c == '\u{85}' || c == '\u{A0}' || c == '\u{1680}'
        || ('\u{2000}' <= c && c <= '\u{200A}') || c == '\u{2028}' || c == '\u{2029}' || c
        == '\u{202F}' || c == '\u{205F}' || c == '\u{3000}'
}

pub fn is_ascii_punctuation(c: char) -> (r: bool)
    ensures
        r == spec_is_ascii_punctuation(c),
{
    ('!' <= c && c <= '/') || (':' <= c && c <= '@') || ('[' <= c && c <= '`') || ('{' <= c
        && c <= '~')
}

pub fn is_ascii_whitespace(c: char) -> (r: bool)
    ensures
        r == spec_is_ascii_whitespace(c),
{
    c == ' ' || c == '\t' || c == '\n' || c == '\x0C' || c == '\r'
}

pub fn is_whitespace(c: char) -> (r: bool)
    ensures
        r == spec_is_whitespace(c),
{
    ('\t' <= c && c <= '\r') || c == ' ' || c == '\u{85}' || c == '\u{A0}' || c == '\u{1680}'
        || ('\u{2000}' <= c && c <= '\u{200A}') || c == '\u{2028}' || c == '\u{2029}' || c
        == '\u{202F}' || c == '\u{205F}' || c == '\u{3000}'
}

/// `s` without its leading whitespace.
pub open spec fn trim_start(s: Seq<char>) -> Seq<char>
    decreases s.len(),
{
    if s.len() > 0 && spec_is_whitespace(s[0]) {
        trim_start(s.drop_first())
    } else {
        s
    }
}

/// `s` without its trailing whitespace.
pub open spec fn trim_end(s: Seq<char>) -> Seq<char>
    decreases s.len(),
{
    if s.len() > 0 && spec_is_whitespace(s.last()) {
        trim_end(s.drop_last())
    } else {
        s
    }
}

/// `s` without its surrounding whitespace.
pub open spec fn trim(s: Seq<char>) -> Seq<char> {
    trim_end(trim_start(s))
}

/// `n` spaces.
pub open spec fn spaces(n: nat) -> Seq<char> {
    Seq::new(n, |i: int| ' ')
}

/// The characters of `s`, in order.
pub fn chars_of(s: &str) -> (r: Vec<char>)
    ensures
        r@ == s@,
{
    let n = s.unicode_len();
    let mut r: Vec<char> = Vec::new();
    let mut i: usize = 0;
    while i < n
        invariant
            n == s@.len(),
            i <= n,
            r@ == s@.subrange(0, i as int),
        decreases n - i,
    {
        r.push(s.get_char(i));
        i = i + 1;
        assert(r@ =~= s@.subrange(0, i as int));
    }
    assert(r@ =~= s@);
    r
}

/// Relies on `String::push`: appends `c` at the end of `s`.
#[verifier::external_body]
pub(crate) fn push_char(s: &mut String, c: char)
    ensures
        final(s)@ == old(s)@.push(c),
{
    s.push(c)
}

/// Appends the characters of `t` to `s`.
pub fn push_str(s: &mut String, t: &str)
    ensures
        final(s)@ == old(s)@ + t@,
{
    let n = t.unicode_len();
    let mut i: usize = 0;
    while i < n
        invariant
            n == t@.len(),
            i <= n,
            s@ == old(s)@ + t@.subrange(0, i as int),
        decreases n - i,
    {
        push_char(s, t.get_char(i));
        i = i + 1;
        assert(s@ =~= old(s)@ + t@.subrange(0, i as int));
    }
    assert(t@.subrange(0, n as int) =~= t@);
}

/// Appends `n` spaces to `s`.
pub fn push_spaces(s: &mut String, n: usize)
    ensures
        final(s)@ == old(s)@ + spaces(n as nat),
{
    let mut i: usize = 0;
    while i < n
        invariant
            i <= n,
            s@ == old(s)@ + spaces(i as nat),
        decreases n - i,
    {
        push_char(s, ' ');
        i = i + 1;
        assert(s@ =~= old(s)@ + spaces(i as nat));
    }
}

/// A new string holding `v[a..b]`.
pub(crate) fn string_from_chars(v: &Vec<char>, a: usize, b: usize) -> (r: String)
    requires
        a <= b <= v@.len(),
    ensures
        r@ == v@.subrange(a as int, b as int),
{
    let mut r = String::new();
    let mut i: usize = a;
    while i < b
        invariant
            a <= i <= b,
            b <= v@.len(),
            r@ == v@.subrange(a as int, i as int),
        decreases b - i,
    {
        push_char(&mut r, v[i]);
        i = i + 1;
        assert(r@ =~= v@.subrange(a as int, i as int));
    }
    r
}

/// Whether `v[a..b]` holds exactly the characters of `t`.
pub(crate) fn range_equals(v: &Vec<char>, a: usize, b: usize, t: &str) -> (r: bool)
    requires
        a <= b <= v@.len(),
    ensures
        r == (v@.subrange(a as int, b as int) == t@),
{
    let n = t.unicode_len();
    if b - a != n {
        return false;
    }
    let mut i: usize = 0;
    while i < n
        invariant
            n == t@.len(),
            b - a == n,
            a <= b <= v@.len(),
            i <= n,
            forall|k: int| 0 <= k < i ==> v@[a + k] == t@[k],
        decreases n - i,
    {
        if v[a + i] != t.get_char(i) {
            assert(v@.subrange(a as int, b as int)[i as int] != t@[i as int]);
            return false;
        }
        i = i + 1;
    }
    assert(v@.subrange(a as int, b as int) =~= t@);
    true
}

/// Bounds of `v[a..b]` with its surrounding whitespace taken off.
pub(crate) fn trim_range(v: &Vec<char>, a: usize, b: usize) -> (r: (usize, usize))
    requires
        a <= b <= v@.len(),
    ensures
        a <= r.0 <= r.1 <= b,
        v@.subrange(r.0 as int, r.1 as int) == trim(v@.subrange(a as int, b as int)),
{
    let mut i: usize = a;
    while i < b && is_whitespace(v[i])
        invariant
            a <= i <= b,
            b <= v@.len(),
            trim_start(v@.subrange(a as int, b as int)) == trim_start(
                v@.subrange(i as int, b as int),
            ),
        decreases b - i,
    {
        assert(v@.subrange(i as int, b as int).drop_first() =~= v@.subrange(
            i + 1,
            b as int,
        ));
        i = i + 1;
    }
    let mut j: usize = b;
    while j > i && is_whitespace(v[j - 1])
        invariant
            i <= j <= b,
            b <= v@.len(),
            trim_end(v@.subrange(i as int, b as int)) == trim_end(v@.subrange(i as int, j as int)),
        decreases j,
    {
        assert(v@.subrange(i as int, j as int).drop_last() =~= v@.subrange(
            i as int,
            j - 1,
        ));
        j = j - 1;
    }
    (i, j)
}

} // verus!
