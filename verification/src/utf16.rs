//! UTF-16 encoding of strings for the wide-character system interfaces.

use vstd::prelude::*;
use crate::text::{char_from_u32, chars_of, string_from_chars};

verus! {

/// UTF-16 code units of one character: one unit in the basic plane, a
/// surrogate pair above it.
pub open spec fn char_utf16(c: char) -> Seq<u16> {
    let v = c as u32;
    if v < 0x10000 {
        seq![v as u16]
    } else {
        let u = (v - 0x10000) as u32;
        seq![(0xD800 + u / 1024) as u16, (0xDC00 + u % 1024) as u16]
    }
}

/// UTF-16 code units of a character sequence.
pub open spec fn utf16_of(s: Seq<char>) -> Seq<u16>
    decreases s.len(),
{
    if s.len() == 0 {
        Seq::<u16>::empty()
    } else {
        utf16_of(s.drop_last()) + char_utf16(s.last())
    }
}

/// Appends the UTF-16 code units of `c` to `out`.
fn push_utf16(out: &mut Vec<u16>, c: char)
    ensures
        final(out)@ == old(out)@ + char_utf16(c),
{
    let v = c as u32;
    if v < 0x10000 {
        out.push(v as u16);
        assert(old(out)@.push(v as u16) =~= old(out)@ + seq![v as u16]);
    } else {
        let u = v - 0x10000;
        assert(u < 0x100000) by {
            assert(v <= 0x10FFFF);
        }
        let hi = (0xD800 + u / 1024) as u16;
        let lo = (0xDC00 + u % 1024) as u16;
        out.push(hi);
        out.push(lo);
        assert(old(out)@.push(hi).push(lo) =~= old(out)@ + seq![hi, lo]);
    }
}

/// The UTF-16 encoding of `s` followed by a terminating zero.
pub fn to_utf16(s: &str) -> (r: Vec<u16>)
    ensures
        r@ == utf16_of(s@).push(0),
{
    let chars = chars_of(s);
    let mut out: Vec<u16> = Vec::new();
    assert(chars@.take(0) =~= Seq::<char>::empty());
    for i in 0..chars.len()
        invariant
            chars@ == s@,
            out@ == utf16_of(chars@.take(i as int)),
    {
        push_utf16(&mut out, chars[i]);
        assert(chars@.take(i + 1).drop_last() =~= chars@.take(i as int));
    }
    assert(chars@.take(chars@.len() as int) =~= chars@);
    out.push(0);
    out
}

/// Number of code units of `units` that fit in a buffer of `len` units
/// while leaving room for the terminating zero.
pub open spec fn fitting_units(units: Seq<u16>, len: nat) -> int {
    if units.len() + 1 <= len {
        units.len() as int
    } else {
        len - 1
    }
}

/// Writes `s` into the fixed buffer `dst` as zero-terminated UTF-16: as many
/// code units as fit before the last slot, then a 0 right after them. The
/// slots behind the 0 are left as they were; an empty buffer is untouched.
pub fn set_utf16(dst: &mut [u16], s: &str)
    ensures
        final(dst)@.len() == old(dst)@.len(),
        old(dst)@.len() == 0 ==> final(dst)@ == old(dst)@,
        old(dst)@.len() > 0 ==> ({
            let units = utf16_of(s@);
            let k = fitting_units(units, old(dst)@.len());
            final(dst)@ == units.take(k) + seq![0u16] + old(dst)@.skip(k + 1)
        }),
{
    let m = dst.len();
    if m == 0 {
        return;
    }
    let units = to_utf16(s);
    let n = units.len() - 1;
    let k = if n < m - 1 { n } else { m - 1 };
    let mut i: usize = 0;
    while i < k
        invariant
            n + 1 == units@.len(),
            units@ == utf16_of(s@).push(0),
            m == old(dst)@.len(),
            m > 0,
            k == fitting_units(utf16_of(s@), m as nat),
            k < m,
            k <= n,
            dst@.len() == m,
            i <= k,
            dst@ == utf16_of(s@).take(i as int) + old(dst)@.skip(i as int),
        decreases k - i,
    {
        dst[i] = units[i];
        assert(dst@ =~= utf16_of(s@).take(i + 1) + old(dst)@.skip(i + 1));
        i = i + 1;
    }
    dst[k] = 0;
    assert(dst@ =~= utf16_of(s@).take(k as int) + seq![0u16] + old(dst)@.skip(k + 1));
}

/// A leading (high) surrogate code unit.
pub open spec fn is_high_surrogate(u: u16) -> bool {
    0xD800 <= u <= 0xDBFF
}

/// A trailing (low) surrogate code unit.
pub open spec fn is_low_surrogate(u: u16) -> bool {
    0xDC00 <= u <= 0xDFFF
}

/// Code point encoded by the surrogate pair `h`, `l`.
pub open spec fn pair_code(h: u16, l: u16) -> u32 {
    ((h - 0xD800) * 0x400 + (l - 0xDC00) + 0x10000) as u32
}

/// Lossy UTF-16 decoding: a surrogate pair gives the character it encodes,
/// any other surrogate gives U+FFFD, and every other unit is a character of
/// its own.
pub open spec fn decode_utf16_lossy_spec(u: Seq<u16>) -> Seq<char>
    decreases u.len(),
{
    if u.len() == 0 {
        Seq::<char>::empty()
    } else if u.len() >= 2 && is_high_surrogate(u[0]) && is_low_surrogate(u[1]) {
        seq![pair_code(u[0], u[1]) as char] + decode_utf16_lossy_spec(u.skip(2))
    } else if is_high_surrogate(u[0]) || is_low_surrogate(u[0]) {
        seq!['\u{FFFD}'] + decode_utf16_lossy_spec(u.drop_first())
    } else {
        seq![(u[0] as u32) as char] + decode_utf16_lossy_spec(u.drop_first())
    }
}

/// Decodes UTF-16 code units, replacing each unpaired surrogate by U+FFFD.
pub fn decode_utf16_lossy(units: &[u16]) -> (r: String)
    ensures
        r@ == decode_utf16_lossy_spec(units@),
{
    let n = units.len();
    let mut out: Vec<char> = Vec::new();
    let mut i: usize = 0;
    assert(units@.skip(0) =~= units@);
    assert(out@ + decode_utf16_lossy_spec(units@) =~= decode_utf16_lossy_spec(units@));
    while i < n
        invariant
            n == units@.len(),
            i <= n,
            out@ + decode_utf16_lossy_spec(units@.skip(i as int)) == decode_utf16_lossy_spec(units@),
        decreases n - i,
    {
        let ghost rest = units@.skip(i as int);
        let ghost before = out@;
        let u = units[i];
        if i + 1 < n && 0xD800 <= u && u <= 0xDBFF && 0xDC00 <= units[i + 1] && units[i + 1] <= 0xDFFF {
            let l = units[i + 1];
            let v: u32 = ((u as u32) - 0xD800) * 0x400 + ((l as u32) - 0xDC00) + 0x10000;
            assert(v == pair_code(u, l));
            let c = match char_from_u32(v) {
                Some(c) => c,
                None => '\u{FFFD}',
            };
            out.push(c);
            assert(rest.skip(2) =~= units@.skip(i + 2));
            assert(out@ + decode_utf16_lossy_spec(units@.skip(i + 2)) =~= before
                + decode_utf16_lossy_spec(rest));
            i = i + 2;
        } else if 0xD800 <= u && u <= 0xDFFF {
            out.push('\u{FFFD}');
            assert(rest.drop_first() =~= units@.skip(i + 1));
            assert(out@ + decode_utf16_lossy_spec(units@.skip(i + 1)) =~= before
                + decode_utf16_lossy_spec(rest));
            i = i + 1;
        } else {
            let c = match char_from_u32(u as u32) {
                Some(c) => c,
                None => '\u{FFFD}',
            };
            out.push(c);
            assert(rest.drop_first() =~= units@.skip(i + 1));
            assert(out@ + decode_utf16_lossy_spec(units@.skip(i + 1)) =~= before
                + decode_utf16_lossy_spec(rest));
            i = i + 1;
        }
    }
    assert(units@.skip(n as int) =~= Seq::<u16>::empty());
    assert(out@ =~= decode_utf16_lossy_spec(units@));
    string_from_chars(&out, 0, out.len())
}

/// Little-endian 16-bit units of a byte string; an odd last byte is dropped.
pub open spec fn le_units(b: Seq<u8>) -> Seq<u16> {
    Seq::new(b.len() / 2, |i: int| (b[2 * i] + 256 * b[2 * i + 1]) as u16)
}

/// `s` without its trailing NUL characters.
pub open spec fn strip_trailing_nuls(s: Seq<char>) -> Seq<char>
    decreases s.len(),
{
    if s.len() > 0 && s.last() == '\0' {
        strip_trailing_nuls(s.drop_last())
    } else {
        s
    }
}

/// The text of a registry string value from its raw bytes: little-endian
/// UTF-16, decoded lossily, with the trailing NULs dropped.
pub fn reg_sz_text(bytes: &[u8]) -> (r: String)
    ensures
        r@ == strip_trailing_nuls(decode_utf16_lossy_spec(le_units(bytes@))),
{
    let len = bytes.len();
    let n = len / 2;
    let mut units: Vec<u16> = Vec::new();
    let mut i: usize = 0;
    while i < n
        invariant
            len == bytes@.len(),
            n == len / 2,
            2 * n <= len,
            i <= n,
            units@ == le_units(bytes@).take(i as int),
        decreases n - i,
    {
        let lo = bytes[2 * i] as u16;
        let hi = bytes[2 * i + 1] as u16;
        units.push(lo + 256 * hi);
        assert(units@ =~= le_units(bytes@).take(i + 1));
        i = i + 1;
    }
    assert(units@ =~= le_units(bytes@));
    let decoded = decode_utf16_lossy(units.as_slice());
    let chars = chars_of(decoded.as_str());
    let mut end = chars.len();
    assert(chars@.take(end as int) =~= chars@);
    while end > 0 && chars[end - 1] == '\0'
        invariant
            end <= chars@.len(),
            strip_trailing_nuls(chars@.take(end as int)) == strip_trailing_nuls(chars@),
        decreases end,
    {
        assert(chars@.take(end as int).drop_last() =~= chars@.take(end - 1));
        end = end - 1;
    }
    assert(chars@.take(end as int) =~= chars@.subrange(0, end as int));
    string_from_chars(&chars, 0, end)
}

/// The encoding of a concatenation is the concatenation of the encodings.
proof fn lemma_utf16_of_concat(a: Seq<char>, b: Seq<char>)
    ensures
        utf16_of(a + b) == utf16_of(a) + utf16_of(b),
    decreases b.len(),
{
    if b.len() == 0 {
        assert(a + b =~= a);
        assert(utf16_of(a) + utf16_of(b) =~= utf16_of(a));
    } else {
        lemma_utf16_of_concat(a, b.drop_last());
        assert((a + b).drop_last() =~= a + b.drop_last());
        assert((a + b).last() == b.last());
        assert(utf16_of(a) + utf16_of(b.drop_last()) + char_utf16(b.last()) =~= utf16_of(a) + (
        utf16_of(b.drop_last()) + char_utf16(b.last())));
    }
}

/// Decoding the encoding of one character gives that character back, and
/// decoding goes on with what follows.
proof fn lemma_decode_char(c: char, rest: Seq<u16>)
    ensures
        decode_utf16_lossy_spec(char_utf16(c) + rest) == seq![c] + decode_utf16_lossy_spec(rest),
{
    broadcast use vstd::utf8::char_is_scalar, vstd::utf8::char_u32_cast;

    let v = c as u32;
    let u = char_utf16(c) + rest;
    assert(vstd::utf8::is_scalar(v));
    if v < 0x10000 {
        assert(u[0] == v as u16);
        assert(u.drop_first() =~= rest);
        assert((u[0] as u32) == v);
    } else {
        let w = (v - 0x10000) as u32;
        let hi = (0xD800 + w / 1024) as u16;
        let lo = (0xDC00 + w % 1024) as u16;
        assert(u[0] == hi && u[1] == lo);
        assert(u.skip(2) =~= rest);
        assert(w / 1024 * 1024 + w % 1024 == w);
        assert(pair_code(hi, lo) == v);
    }
}

/// What `to_utf16` writes, `decode_utf16_lossy` reads back: decoding the
/// encoding of `s` gives `s`, and with the terminating zero it gives `s`
/// followed by a NUL, which `reg_sz_text` drops again.
pub proof fn lemma_utf16_roundtrip(s: Seq<char>)
    ensures
        decode_utf16_lossy_spec(utf16_of(s)) == s,
        decode_utf16_lossy_spec(utf16_of(s).push(0)) == s.push('\0'),
        strip_trailing_nuls(s.push('\0')) == strip_trailing_nuls(s),
    decreases s.len(),
{
    if s.len() == 0 {
        let z = Seq::<u16>::empty().push(0);
        assert(utf16_of(s).push(0) =~= z);
        assert(z.drop_first() =~= Seq::<u16>::empty());
        assert(((0u16) as u32) as char == '\0');
        assert(s.push('\0') =~= seq!['\0']);
    } else {
        let first = seq![s[0]];
        let tail = s.drop_first();
        assert(first + tail =~= s);
        lemma_utf16_of_concat(first, tail);
        assert(first.drop_last() =~= Seq::<char>::empty());
        assert(utf16_of(first.drop_last()) == Seq::<u16>::empty());
        assert(first.last() == s[0]);
        assert(utf16_of(first) =~= char_utf16(s[0]));
        lemma_utf16_roundtrip(tail);
        lemma_decode_char(s[0], utf16_of(tail));
        lemma_decode_char(s[0], utf16_of(tail).push(0));
        assert(utf16_of(s).push(0) =~= char_utf16(s[0]) + utf16_of(tail).push(0));
        assert(seq![s[0]] + tail.push('\0') =~= s.push('\0'));
    }
    assert(s.push('\0').drop_last() =~= s);
}

/// Little-endian bytes of 16-bit units: the low byte of each unit, then its
/// high byte.
pub open spec fn le_bytes(u: Seq<u16>) -> Seq<u8> {
    Seq::new(
        2 * u.len(),
        |i: int|
            if i % 2 == 0 {
                (u[i / 2] % 256) as u8
            } else {
                (u[i / 2] / 256) as u8
            },
    )
}

/// The little-endian bytes of `units`, as a registry value stores them.
pub fn units_to_le_bytes(units: &[u16]) -> (r: Vec<u8>)
    ensures
        r@ == le_bytes(units@),
{
    let n = units.len();
    let mut out: Vec<u8> = Vec::new();
    let mut i: usize = 0;
    while i < n
        invariant
            n == units@.len(),
            i <= n,
            out@.len() == 2 * i,
            forall|j: int| 0 <= j < 2 * i ==> #[trigger] out@[j] == le_bytes(units@)[j],
        decreases n - i,
    {
        let u = units[i];
        let ghost before = out@;
        out.push((u % 256) as u8);
        out.push((u / 256) as u8);
        assert forall|j: int| 0 <= j < 2 * (i + 1) implies #[trigger] out@[j] == le_bytes(
            units@,
        )[j] by {
            if j < 2 * i {
                assert(out@[j] == before[j]);
            } else if j == 2 * i {
                assert(j % 2 == 0 && j / 2 == i);
            } else {
                assert(j % 2 == 1 && j / 2 == i);
            }
        }
        i = i + 1;
    }
    assert(out@ =~= le_bytes(units@));
    out
}

/// The bytes of `value` as a registry string value: its UTF-16 encoding and
/// a terminating zero, little-endian.
pub fn reg_sz_bytes(value: &str) -> (r: Vec<u8>)
    ensures
        r@ == le_bytes(utf16_of(value@).push(0)),
{
    let units = to_utf16(value);
    units_to_le_bytes(units.as_slice())
}

/// Reading the units of little-endian bytes gives back the units.
pub proof fn lemma_le_roundtrip(u: Seq<u16>)
    ensures
        le_units(le_bytes(u)) == u,
{
    let b = le_bytes(u);
    assert(b.len() / 2 == u.len());
    assert forall|i: int| 0 <= i < u.len() implies #[trigger] le_units(b)[i] == u[i] by {
        assert((2 * i) % 2 == 0 && (2 * i) / 2 == i);
        assert((2 * i + 1) % 2 == 1 && (2 * i + 1) / 2 == i);
        assert(b[2 * i] == (u[i] % 256) as u8);
        assert(b[2 * i + 1] == (u[i] / 256) as u8);
        assert(u[i] % 256 + 256 * (u[i] / 256) == u[i]);
    }
    assert(le_units(b) =~= u);
}

/// A text without NUL characters loses nothing to `strip_trailing_nuls`.
pub proof fn lemma_strip_without_nul(s: Seq<char>)
    requires
        !s.contains('\0'),
    ensures
        strip_trailing_nuls(s) == s,
{
    if s.len() > 0 {
        assert(s[s.len() - 1] != '\0');
    }
}

/// What `reg_sz_bytes` writes, `reg_sz_text` reads back: a text without NUL
/// characters comes back unchanged.
pub proof fn lemma_reg_value_roundtrip(s: Seq<char>)
    requires
        !s.contains('\0'),
    ensures
        strip_trailing_nuls(
            decode_utf16_lossy_spec(le_units(le_bytes(utf16_of(s).push(0)))),
        ) == s,
{
    lemma_le_roundtrip(utf16_of(s).push(0));
    lemma_utf16_roundtrip(s);
    lemma_strip_without_nul(s);
}

} // verus!
