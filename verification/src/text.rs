//! Character-level helpers shared by the parsers and formatters.

use vstd::prelude::*;

verus! {

/// The characters of `s`, in order.
pub fn chars_of(s: &str) -> (v: Vec<char>)
    ensures
        v@ == s@,
{
    let mut v: Vec<char> = Vec::new();
    for c in it: s.chars()
        invariant
            v@ == it.seq().take(it.index() as int),
            it.seq() == s@,
    {
        v.push(c);
    }
    v
}


/// Whether `a` holds exactly the characters of `b`.
pub fn same_chars(a: &Vec<char>, b: &[char]) -> (r: bool)
    ensures
        r == (a@ == b@),
{
    if a.len() != b.len() {
        return false;
    }
    let n = a.len();
    for i in 0..n
        invariant
            n == a@.len(),
            n == b@.len(),
            forall|j: int| 0 <= j < i ==> a@[j] == b@[j],
    {
        if a[i] != b[i] {
            return false;
        }
    }
    assert(a@ =~= b@);
    true
}


/// Whether `c` has the Unicode `White_Space` property (what `char::is_whitespace`
/// and `str::trim` go by), as listed in the Unicode Character Database
/// `PropList.txt`.
pub open spec fn white_space(c: char) -> bool {
    ||| '\u{9}' <= c <= '\u{D}'
    ||| c == ' '
    ||| c == '\u{85}'
    ||| c == '\u{A0}'
    ||| c == '\u{1680}'
    ||| '\u{2000}' <= c <= '\u{200A}'
    ||| c == '\u{2028}'
    ||| c == '\u{2029}'
    ||| c == '\u{202F}'
    ||| c == '\u{205F}'
    ||| c == '\u{3000}'
}

/// The lowercase mapping of `s`, as `str::to_lowercase` computes it.
pub uninterp spec fn lowercase(s: Seq<char>) -> Seq<char>;

/// Whether `c` is white space in the sense of `white_space`, decided by its
/// code point.
pub fn is_white_space(c: char) -> (r: bool)
    ensures
        r == white_space(c),
{
    let v = c as u32;
    (0x9 <= v && v <= 0xD) || v == 0x20 || v == 0x85 || v == 0xA0 || v == 0x1680
        || (0x2000 <= v && v <= 0x200A) || v == 0x2028 || v == 0x2029 || v == 0x202F
        || v == 0x205F || v == 0x3000
}

/// `str::to_lowercase`: the Unicode lowercase mapping of `s`. The contract
/// names the result; it says nothing of what the mapping does to a character.
#[verifier::external_body]
pub(crate) fn to_lowercase(s: &str) -> (r: String)
    ensures
        r@ == lowercase(s@),
{
    s.to_lowercase()
}

/// A Unicode scalar value: a code point that is not a surrogate.
pub open spec fn is_scalar_value(v: u32) -> bool {
    v <= 0x10FFFF && !(0xD800 <= v <= 0xDFFF)
}

/// `char::from_u32`: the character with code point `v`, or `None` when `v`
/// is a surrogate or lies above U+10FFFF.
#[verifier::external_body]
pub(crate) fn char_from_u32(v: u32) -> (r: Option<char>)
    ensures
        r == (if is_scalar_value(v) { Some(v as char) } else { None }),
{
    char::from_u32(v)
}

/// `String::push`: appends `c` at the end of `s`.
#[verifier::external_body]
pub(crate) fn push_char(s: &mut String, c: char)
    ensures
        final(s)@ == old(s)@.push(c),
{
    s.push(c);
}

/// The characters `v[from..to]` as a string.
pub fn string_from_chars(v: &Vec<char>, from: usize, to: usize) -> (r: String)
    requires
        from <= to <= v@.len(),
    ensures
        r@ == v@.subrange(from as int, to as int),
{
    let mut r = String::new();
    let mut i = from;
    while i < to
        invariant
            from <= i <= to <= v@.len(),
            r@ == v@.subrange(from as int, i as int),
        decreases to - i,
    {
        push_char(&mut r, v[i]);
        assert(v@.subrange(from as int, i + 1) =~= v@.subrange(from as int, i as int).push(v@[i as int]));
        i = i + 1;
    }
    r
}

/// `s` without its leading white space.
pub open spec fn trim_start(s: Seq<char>) -> Seq<char>
    decreases s.len(),
{
    if s.len() > 0 && white_space(s[0]) {
        trim_start(s.drop_first())
    } else {
        s
    }
}

/// `s` without its trailing white space.
pub open spec fn trim_end(s: Seq<char>) -> Seq<char>
    decreases s.len(),
{
    if s.len() > 0 && white_space(s.last()) {
        trim_end(s.drop_last())
    } else {
        s
    }
}

/// `s` without leading and trailing white space (`str::trim`).
pub open spec fn trim(s: Seq<char>) -> Seq<char> {
    trim_end(trim_start(s))
}

/// The bounds of `v` once leading and trailing white space are cut off.
pub fn trim_bounds(v: &Vec<char>) -> (r: (usize, usize))
    ensures
        r.0 <= r.1 <= v@.len(),
        v@.subrange(r.0 as int, r.1 as int) == trim(v@),
{
    let n = v.len();
    let mut start: usize = 0;
    assert(v@.skip(0) =~= v@);
    while start < n && is_white_space(v[start])
        invariant
            n == v@.len(),
            start <= n,
            trim_start(v@) == trim_start(v@.skip(start as int)),
        decreases n - start,
    {
        assert(v@.skip(start as int).drop_first() =~= v@.skip(start + 1));
        start = start + 1;
    }
    assert(trim_start(v@.skip(start as int)) == v@.skip(start as int));
    assert(v@.skip(start as int) =~= v@.subrange(start as int, n as int));
    let mut end: usize = n;
    while end > start && is_white_space(v[end - 1])
        invariant
            n == v@.len(),
            start <= end <= n,
            trim(v@) == trim_end(v@.subrange(start as int, end as int)),
        decreases end - start,
    {
        assert(v@.subrange(start as int, end as int).drop_last() =~= v@.subrange(start as int, end - 1));
        end = end - 1;
    }
    (start, end)
}


/// A copy of `v[from..to]`.
pub fn sub_chars(v: &Vec<char>, from: usize, to: usize) -> (r: Vec<char>)
    requires
        from <= to <= v@.len(),
    ensures
        r@ == v@.subrange(from as int, to as int),
{
    let mut r: Vec<char> = Vec::new();
    let mut i = from;
    while i < to
        invariant
            from <= i <= to <= v@.len(),
            r@ == v@.subrange(from as int, i as int),
        decreases to - i,
    {
        r.push(v[i]);
        assert(v@.subrange(from as int, i + 1) =~= v@.subrange(from as int, i as int).push(v@[i as int]));
        i = i + 1;
    }
    r
}

} // verus!
