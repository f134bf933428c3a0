//! Application settings (`config.toml` beside the executable).
//!
//! - The file is hand-editable and moves with the folder.
//! - A missing field takes its default; a missing or unreadable file gives the
//!   default configuration, and nothing is written back until the options
//!   panel saves.
//! - Values read from the file are normalised by [`Config::sanitized`] so that
//!   the running program only ever sees valid values.
//!
//! Reading and writing the file (and the TOML encoding) happen in the
//! application; this module holds what the values mean.

use vstd::prelude::*;
use crate::i18n::{auto_code, normalize_language, normalize_spec};
use crate::text::{
    chars_of, lowercase, string_from_chars, to_lowercase, trim, trim_bounds,
};

verus! {

/// Default long-press threshold, in milliseconds.
pub const DEFAULT_LONG_PRESS_MS: u32 = 500;
/// Smallest accepted long-press threshold, in milliseconds.
pub const MIN_LONG_PRESS_MS: u32 = 100;
/// Largest accepted long-press threshold, in milliseconds.
pub const MAX_LONG_PRESS_MS: u32 = 5000;
/// Default language preference: follow the system interface language.
pub const DEFAULT_LANGUAGE: &'static str = "auto";

/// Application configuration.
#[derive(Debug, Clone, PartialEq, Eq)]
pub struct Config {
    /// Milliseconds CapsLock must be held to toggle case (released earlier, it
    /// switches the input method).
    pub long_press_ms: u32,
    /// Programs (executable file names, lowercase) in which CapsLock keeps its
    /// own behaviour.
    pub exclude_processes: Vec<String>,
    /// Language preference: `auto` or a language code.
    pub language: String,
    /// Start at login with administrator rights (through an elevated
    /// scheduled task), so that CapsLock also works in elevated windows.
    pub run_as_admin: bool,
}

/// The characters of each string of `v`.
pub open spec fn strings_view(v: Seq<String>) -> Seq<Seq<char>> {
    v.map_values(|s: String| s@)
}

/// Whether a threshold lies in the accepted range.
pub open spec fn long_press_in_range(ms: u32) -> bool {
    MIN_LONG_PRESS_MS <= ms <= MAX_LONG_PRESS_MS
}

/// Characters that separate entries of the exclusion list: comma, full-width
/// comma, line feed, carriage return.
pub open spec fn is_list_separator(c: char) -> bool {
    c == ',' || c == '\u{FF0C}' || c == '\n' || c == '\r'
}

/// The fields of `s` between separators (as `str::split` cuts them: `n`
/// separators give `n + 1` fields, possibly empty).
pub open spec fn split_fields(s: Seq<char>) -> Seq<Seq<char>>
    decreases s.len(),
{
    if s.len() == 0 {
        seq![Seq::<char>::empty()]
    } else {
        let prev = split_fields(s.drop_last());
        if is_list_separator(s.last()) {
            prev.push(Seq::<char>::empty())
        } else {
            prev.update(prev.len() - 1, prev.last().push(s.last()))
        }
    }
}

/// The exclusion entries made from `fields`: each field trimmed, empty ones
/// dropped, the rest lowercased.
pub open spec fn exclude_items(fields: Seq<Seq<char>>) -> Seq<Seq<char>>
    decreases fields.len(),
{
    if fields.len() == 0 {
        Seq::<Seq<char>>::empty()
    } else {
        let rest = exclude_items(fields.drop_last());
        let t = trim(fields.last());
        if t.len() == 0 {
            rest
        } else {
            rest.push(lowercase(t))
        }
    }
}

/// The exclusion list that the text `s` describes.
pub open spec fn exclude_list_spec(s: Seq<char>) -> Seq<Seq<char>> {
    exclude_items(split_fields(s))
}

/// `list` joined with `sep` between consecutive entries.
pub open spec fn join_spec(list: Seq<Seq<char>>, sep: Seq<char>) -> Seq<char>
    decreases list.len(),
{
    if list.len() == 0 {
        Seq::<char>::empty()
    } else if list.len() == 1 {
        list[0]
    } else {
        join_spec(list.drop_last(), sep) + sep + list.last()
    }
}

/// ASCII case folding of one character, as a code point: `A`-`Z` become
/// `a`-`z`, everything else is unchanged.
pub open spec fn ascii_fold(c: char) -> u32 {
    if 'A' <= c <= 'Z' {
        (c as u32 + 32) as u32
    } else {
        c as u32
    }
}

/// `a` and `b` are equal once ASCII letters are case-folded
/// (`str::eq_ignore_ascii_case`).
pub open spec fn eq_ignore_ascii_case_spec(a: Seq<char>, b: Seq<char>) -> bool {
    &&& a.len() == b.len()
    &&& forall|i: int| 0 <= i < a.len() ==> #[trigger] ascii_fold(a[i]) == ascii_fold(b[i])
}

/// Whether the executable name `exe` is on the exclusion list `list`.
pub open spec fn is_excluded_spec(exe: Seq<char>, list: Seq<Seq<char>>) -> bool {
    exists|i: int| 0 <= i < list.len() && eq_ignore_ascii_case_spec(#[trigger] list[i], exe)
}

/// Threshold after normalisation: kept when in range, otherwise the default.
pub open spec fn sanitized_threshold(ms: u32) -> u32 {
    if long_press_in_range(ms) {
        ms
    } else {
        DEFAULT_LONG_PRESS_MS
    }
}

/// Default threshold (the value a file without `long_press_ms` gets).
pub fn default_long_press_ms() -> (ms: u32)
    ensures
        ms == DEFAULT_LONG_PRESS_MS,
{
    DEFAULT_LONG_PRESS_MS
}

/// Default language preference (the value a file without `language` gets).
pub fn default_language() -> (s: String)
    ensures
        s@ == auto_code(),
{
    broadcast use vstd::string::group_string_axioms;

    proof {
        reveal_strlit("auto");
    }
    DEFAULT_LANGUAGE.to_string()
}

impl Default for Config {
    fn default() -> (c: Self)
        ensures
            c.long_press_ms == DEFAULT_LONG_PRESS_MS,
            c.exclude_processes@.len() == 0,
            c.language@ == auto_code(),
            !c.run_as_admin,
    {
        Config {
            long_press_ms: DEFAULT_LONG_PRESS_MS,
            exclude_processes: Vec::new(),
            language: default_language(),
            run_as_admin: false,
        }
    }
}

/// Trims `v[from..to]`; when something is left, appends it lowercased to `out`.
fn push_entry(out: &mut Vec<String>, v: &Vec<char>, from: usize, to: usize)
    requires
        from <= to <= v@.len(),
    ensures
        ({
            let t = trim(v@.subrange(from as int, to as int));
            strings_view(final(out)@) == if t.len() == 0 {
                strings_view(old(out)@)
            } else {
                strings_view(old(out)@).push(lowercase(t))
            }
        }),
{
    let mut field: Vec<char> = Vec::new();
    let mut i = from;
    while i < to
        invariant
            from <= i <= to <= v@.len(),
            field@ == v@.subrange(from as int, i as int),
        decreases to - i,
    {
        field.push(v[i]);
        assert(v@.subrange(from as int, i + 1) =~= v@.subrange(from as int, i as int).push(v@[i as int]));
        i = i + 1;
    }
    let (a, b) = trim_bounds(&field);
    if a < b {
        let trimmed = string_from_chars(&field, a, b);
        let lower = to_lowercase(trimmed.as_str());
        let ghost before = out@;
        out.push(lower);
        assert(strings_view(out@) =~= strings_view(before).push(lower@));
    }
}

/// The exclusion list described by the characters `v`.
fn parse_exclude_chars(v: &Vec<char>) -> (r: Vec<String>)
    ensures
        strings_view(r@) == exclude_list_spec(v@),
{
    let mut out: Vec<String> = Vec::new();
    let n = v.len();
    let mut start: usize = 0;
    let mut i: usize = 0;
    let ghost mut done: Seq<Seq<char>> = Seq::empty();
    assert(v@.take(0) =~= Seq::<char>::empty());
    assert(v@.subrange(0, 0) =~= Seq::<char>::empty());
    assert(strings_view(out@) =~= Seq::<Seq<char>>::empty());
    while i < n
        invariant
            n == v@.len(),
            start <= i <= n,
            split_fields(v@.take(i as int)) == done.push(v@.subrange(start as int, i as int)),
            strings_view(out@) == exclude_items(done),
        decreases n - i,
    {
        let c = v[i];
        assert(v@.take(i + 1).drop_last() =~= v@.take(i as int));
        assert(v@.take(i + 1).last() == c);
        if c == ',' || c == '\u{FF0C}' || c == '\n' || c == '\r' {
            push_entry(&mut out, v, start, i);
            proof {
                let f = v@.subrange(start as int, i as int);
                assert(done.push(f).drop_last() =~= done);
                done = done.push(f);
            }
            start = i + 1;
            assert(v@.subrange(start as int, i + 1) =~= Seq::<char>::empty());
        } else {
            assert(v@.subrange(start as int, i + 1) =~= v@.subrange(start as int, i as int).push(c));
        }
        i = i + 1;
    }
    assert(v@.take(n as int) =~= v@);
    push_entry(&mut out, v, start, n);
    proof {
        let f = v@.subrange(start as int, n as int);
        assert(done.push(f).drop_last() =~= done);
    }
    out
}

/// Parses the exclusion list typed in the options panel: entries separated by
/// commas, full-width commas or line breaks, each trimmed and lowercased,
/// empty entries dropped.
pub fn parse_exclude_list(s: &str) -> (r: Vec<String>)
    ensures
        strings_view(r@) == exclude_list_spec(s@),
{
    let v = chars_of(s);
    parse_exclude_chars(&v)
}

/// The characters of `list` joined with `sep`.
pub fn join_chars(list: &Vec<String>, sep: &[char]) -> (r: Vec<char>)
    ensures
        r@ == join_spec(strings_view(list@), sep@),
{
    let mut out: Vec<char> = Vec::new();
    let ghost view = strings_view(list@);
    assert(view.take(0) =~= Seq::<Seq<char>>::empty());
    for i in 0..list.len()
        invariant
            view == strings_view(list@),
            out@ == join_spec(view.take(i as int), sep@),
    {
        let mut item = chars_of(list[i].as_str());
        if i > 0 {
            let mut s: Vec<char> = Vec::new();
            s.extend_from_slice(sep);
            assert(s@ =~= sep@);
            out.append(&mut s);
        }
        out.append(&mut item);
        assert(view.take(i + 1).drop_last() =~= view.take(i as int));
        assert(view.take(i + 1).last() == view[i as int]);
        if i == 0 {
            assert(view.take(1) =~= seq![view[0]]);
        }
    }
    assert(view.take(list.len() as int) =~= view);
    out
}

/// Whether two strings are equal once ASCII letters are case-folded.
pub fn eq_ignore_ascii_case(a: &str, b: &str) -> (r: bool)
    ensures
        r == eq_ignore_ascii_case_spec(a@, b@),
{
    let x = chars_of(a);
    let y = chars_of(b);
    if x.len() != y.len() {
        return false;
    }
    let n = x.len();
    for i in 0..n
        invariant
            n == x@.len(),
            n == y@.len(),
            x@ == a@,
            y@ == b@,
            forall|j: int| 0 <= j < i ==> #[trigger] ascii_fold(x@[j]) == ascii_fold(y@[j]),
    {
        if fold_char(x[i]) != fold_char(y[i]) {
            assert(!(ascii_fold(a@[i as int]) == ascii_fold(b@[i as int])));
            return false;
        }
    }
    true
}

/// ASCII case folding of one character, as a code point.
fn fold_char(c: char) -> (r: u32)
    ensures
        r == ascii_fold(c),
{
    let code = c as u32;
    if 65 <= code && code <= 90 {
        code + 32
    } else {
        code
    }
}

/// Whether the executable name `exe` is on the exclusion list: an exact match
/// of a whole entry, ignoring ASCII case (no prefix matching).
pub fn is_excluded(exe: &str, list: &[String]) -> (r: bool)
    ensures
        r == is_excluded_spec(exe@, strings_view(list@)),
        r <==> exists|i: int|
            0 <= i < list@.len() && eq_ignore_ascii_case_spec(#[trigger] list@[i]@, exe@),
        forall|i: int| 0 <= i < list@.len() && #[trigger] list@[i]@ == exe@ ==> r,
{
    proof {
        lemma_exclusion_membership(exe@, strings_view(list@));
        assert forall|i: int| 0 <= i < list@.len() implies #[trigger] strings_view(list@)[i]
            == list@[i]@ by {}
    }
    let n = list.len();
    for i in 0..n
        invariant
            n == list@.len(),
            forall|j: int| 0 <= j < i ==> !eq_ignore_ascii_case_spec(#[trigger] list@[j]@, exe@),
    {
        if eq_ignore_ascii_case(list[i].as_str(), exe) {
            assert(strings_view(list@)[i as int] == list@[i as int]@);
            return true;
        }
    }
    assert forall|j: int| 0 <= j < strings_view(list@).len() implies !eq_ignore_ascii_case_spec(
        #[trigger] strings_view(list@)[j],
        exe@,
    ) by {
        assert(strings_view(list@)[j] == list@[j]@);
    }
    false
}

impl Config {
    /// Normalises out-of-range values to their defaults so that the running
    /// program always sees valid ones: the threshold falls back to the
    /// default when outside `100..=5000`, the exclusion list is re-parsed
    /// (trimmed, lowercased, empty entries dropped) exactly as the panel writes
    /// it, and an unknown language becomes `auto`.
    pub fn sanitized(self) -> (r: Self)
        ensures
            r.long_press_ms == sanitized_threshold(self.long_press_ms),
            long_press_in_range(r.long_press_ms),
            strings_view(r.exclude_processes@) == exclude_list_spec(
                join_spec(strings_view(self.exclude_processes@), seq![',']),
            ),
            r.language@ == normalize_spec(self.language@),
            r.run_as_admin == self.run_as_admin,
    {
        let mut cfg = self;
        if !(MIN_LONG_PRESS_MS <= cfg.long_press_ms && cfg.long_press_ms <= MAX_LONG_PRESS_MS) {
            cfg.long_press_ms = DEFAULT_LONG_PRESS_MS;
        }
        let sep = [','];
        assert(sep@ =~= seq![',']);
        let joined = join_chars(&cfg.exclude_processes, &sep);
        cfg.exclude_processes = parse_exclude_chars(&joined);
        cfg.language = normalize_language(cfg.language.as_str());
        cfg
    }

    /// The configuration in effect after reading the file: the parsed
    /// configuration normalised, or the defaults when the file was missing or
    /// could not be parsed (`None`).
    pub fn from_parsed(parsed: Option<Config>) -> (r: Config)
        ensures
            match parsed {
                Some(c) => {
                    &&& r.long_press_ms == sanitized_threshold(c.long_press_ms)
                    &&& strings_view(r.exclude_processes@) == exclude_list_spec(
                        join_spec(strings_view(c.exclude_processes@), seq![',']),
                    )
                    &&& r.language@ == normalize_spec(c.language@)
                    &&& r.run_as_admin == c.run_as_admin
                },
                None => {
                    &&& r.long_press_ms == DEFAULT_LONG_PRESS_MS
                    &&& r.exclude_processes@.len() == 0
                    &&& r.language@ == auto_code()
                    &&& !r.run_as_admin
                },
            },
    {
        match parsed {
            Some(c) => c.sanitized(),
            None => Config::default(),
        }
    }
}


/// An entry that reads back as itself: non-empty, no surrounding white space,
/// no separator inside.
pub open spec fn plain_entry(e: Seq<char>) -> bool {
    &&& e.len() > 0
    &&& trim(e) == e
    &&& forall|i: int| 0 <= i < e.len() ==> !is_list_separator(#[trigger] e[i])
}

/// `n` empty fields.
pub open spec fn empty_fields(n: nat) -> Seq<Seq<char>> {
    Seq::new(n, |i: int| Seq::<char>::empty())
}

proof fn lemma_split_nonempty(s: Seq<char>)
    ensures
        split_fields(s).len() >= 1,
    decreases s.len(),
{
    if s.len() > 0 {
        lemma_split_nonempty(s.drop_last());
    }
}

/// Splitting a concatenation: the last field of the left part and the first
/// field of the right part merge.
proof fn lemma_split_append(x: Seq<char>, y: Seq<char>)
    ensures
        split_fields(x + y) == split_fields(x).drop_last() + seq![
            split_fields(x).last() + split_fields(y)[0],
        ] + split_fields(y).drop_first(),
    decreases y.len(),
{
    lemma_split_nonempty(x);
    lemma_split_nonempty(y);
    let sx = split_fields(x);
    if y.len() == 0 {
        assert(x + y =~= x);
        assert(sx.last() + Seq::<char>::empty() =~= sx.last());
        assert(sx.drop_last() + seq![sx.last()] + Seq::<Seq<char>>::empty() =~= sx);
    } else {
        let y0 = y.drop_last();
        let c = y.last();
        lemma_split_append(x, y0);
        lemma_split_nonempty(y0);
        assert((x + y).drop_last() =~= x + y0);
        assert((x + y).last() == c);
        let sy0 = split_fields(y0);
        let prev = split_fields(x + y0);
        if is_list_separator(c) {
            assert(split_fields(y) == sy0.push(Seq::<char>::empty()));
            assert(split_fields(x + y) == prev.push(Seq::<char>::empty()));
            assert(split_fields(y)[0] == sy0[0]);
            assert(split_fields(y).drop_first() =~= sy0.drop_first().push(Seq::<char>::empty()));
            assert(split_fields(x + y) =~= sx.drop_last() + seq![sx.last() + split_fields(y)[0]]
                + split_fields(y).drop_first());
        } else {
            assert(split_fields(y) == sy0.update(sy0.len() - 1, sy0.last().push(c)));
            assert(split_fields(x + y) == prev.update(prev.len() - 1, prev.last().push(c)));
            if sy0.len() == 1 {
                assert((sx.last() + sy0[0]).push(c) =~= sx.last() + sy0[0].push(c));
                assert(split_fields(x + y) =~= sx.drop_last() + seq![sx.last() + split_fields(y)[0]]
                    + split_fields(y).drop_first());
            } else {
                assert(split_fields(y).drop_first() =~= sy0.drop_first().update(
                    sy0.len() - 2,
                    sy0.last().push(c),
                ));
                assert(split_fields(x + y) =~= sx.drop_last() + seq![sx.last() + split_fields(y)[0]]
                    + split_fields(y).drop_first());
            }
        }
    }
}

/// Appending only separators appends empty fields.
proof fn lemma_split_separators(x: Seq<char>, s: Seq<char>)
    requires
        forall|i: int| 0 <= i < s.len() ==> is_list_separator(#[trigger] s[i]),
    ensures
        split_fields(x + s) == split_fields(x) + empty_fields(s.len()),
    decreases s.len(),
{
    if s.len() == 0 {
        assert(x + s =~= x);
        assert(split_fields(x) + empty_fields(0) =~= split_fields(x));
    } else {
        let s0 = s.drop_last();
        assert(is_list_separator(s[s.len() - 1]));
        lemma_split_separators(x, s0);
        assert((x + s).drop_last() =~= x + s0);
        assert((x + s).last() == s.last());
        assert(split_fields(x) + empty_fields(s.len()) =~= (split_fields(x) + empty_fields(
            s0.len(),
        )).push(Seq::<char>::empty()));
    }
}

/// A field free of separators is a single field.
proof fn lemma_split_single(e: Seq<char>)
    requires
        forall|i: int| 0 <= i < e.len() ==> !is_list_separator(#[trigger] e[i]),
    ensures
        split_fields(e) == seq![e],
    decreases e.len(),
{
    if e.len() == 0 {
        assert(e =~= Seq::<char>::empty());
        assert(split_fields(e) =~= seq![e]);
    } else {
        let e0 = e.drop_last();
        assert(!is_list_separator(e[e.len() - 1]));
        lemma_split_single(e0);
        assert(e0.push(e.last()) =~= e);
        let prev = split_fields(e0);
        assert(prev == seq![e0]);
        assert(split_fields(e) == prev.update(0, e0.push(e.last())));
        assert(split_fields(e) =~= seq![e]);
    }
}

/// Making entries commutes with concatenating field lists.
proof fn lemma_exclude_items_concat(f: Seq<Seq<char>>, g: Seq<Seq<char>>)
    ensures
        exclude_items(f + g) == exclude_items(f) + exclude_items(g),
    decreases g.len(),
{
    if g.len() == 0 {
        assert(f + g =~= f);
        assert(exclude_items(f) + exclude_items(g) =~= exclude_items(f));
    } else {
        lemma_exclude_items_concat(f, g.drop_last());
        assert((f + g).drop_last() =~= f + g.drop_last());
        assert((f + g).last() == g.last());
        let t = trim(g.last());
        if t.len() != 0 {
            assert(exclude_items(f) + exclude_items(g.drop_last()).push(lowercase(t)) =~= (
            exclude_items(f) + exclude_items(g.drop_last())).push(lowercase(t)));
        }
    }
}

/// Empty fields make no entries.
proof fn lemma_exclude_items_empty(n: nat)
    ensures
        exclude_items(empty_fields(n)) == Seq::<Seq<char>>::empty(),
    decreases n,
{
    if n > 0 {
        let m = (n - 1) as nat;
        lemma_exclude_items_empty(m);
        assert(empty_fields(n).drop_last() =~= empty_fields(m));
        assert(trim(Seq::<char>::empty()) == Seq::<char>::empty());
    }
}

/// Two texts joined by separators describe the entries of both, in order.
proof fn lemma_exclude_list_concat(a: Seq<char>, sep: Seq<char>, b: Seq<char>)
    requires
        sep.len() > 0,
        forall|i: int| 0 <= i < sep.len() ==> is_list_separator(#[trigger] sep[i]),
    ensures
        exclude_list_spec(a + sep + b) == exclude_list_spec(a) + exclude_list_spec(b),
{
    lemma_split_separators(a, sep);
    lemma_split_append(a + sep, b);
    lemma_split_nonempty(a);
    lemma_split_nonempty(b);
    let sa = split_fields(a);
    let sb = split_fields(b);
    let k = sep.len();
    let e = empty_fields((k - 1) as nat);
    assert(split_fields(a + sep).drop_last() =~= sa + e);
    assert(split_fields(a + sep).last() == Seq::<char>::empty());
    assert(Seq::<char>::empty() + sb[0] =~= sb[0]);
    assert(seq![sb[0]] + sb.drop_first() =~= sb);
    assert(split_fields(a + sep + b) =~= sa + e + sb);
    lemma_exclude_items_concat(sa + e, sb);
    lemma_exclude_items_concat(sa, e);
    lemma_exclude_items_empty((k - 1) as nat);
    assert(exclude_items(sa) + Seq::<Seq<char>>::empty() =~= exclude_items(sa));
}

/// An exclusion list written out with separators between its entries reads
/// back as the same entries, lowercased, provided every entry is non-empty,
/// has no surrounding white space and holds no separator. (The options panel
/// shows the list one entry per line and reads it back on save; the
/// configuration is normalised by joining with commas and reading back.)
pub proof fn lemma_exclude_list_roundtrip(list: Seq<Seq<char>>, sep: Seq<char>)
    requires
        sep.len() > 0,
        forall|i: int| 0 <= i < sep.len() ==> is_list_separator(#[trigger] sep[i]),
        forall|i: int| 0 <= i < list.len() ==> plain_entry(#[trigger] list[i]),
    ensures
        exclude_list_spec(join_spec(list, sep)) == list.map_values(|e: Seq<char>| lowercase(e)),
    decreases list.len(),
{
    if list.len() == 0 {
        let z = Seq::<char>::empty();
        assert(trim(z) == z);
        assert(split_fields(z) == seq![z]);
        assert(seq![z].drop_last() =~= Seq::<Seq<char>>::empty());
        assert(exclude_items(seq![z]) == exclude_items(Seq::<Seq<char>>::empty()));
        assert(exclude_list_spec(z) =~= Seq::<Seq<char>>::empty());
        assert(list.map_values(|e: Seq<char>| lowercase(e)) =~= Seq::<Seq<char>>::empty());
    } else if list.len() == 1 {
        assert(plain_entry(list[0]));
        lemma_split_single(list[0]);
        assert(seq![list[0]].drop_last() =~= Seq::<Seq<char>>::empty());
        assert(seq![list[0]].last() == list[0]);
        assert(exclude_items(Seq::<Seq<char>>::empty()) == Seq::<Seq<char>>::empty());
        assert(trim(list[0]) == list[0]);
        assert(exclude_items(seq![list[0]]) =~= seq![lowercase(list[0])]);
        assert(exclude_list_spec(join_spec(list, sep)) =~= list.map_values(
            |e: Seq<char>| lowercase(e),
        ));
    } else {
        let init = list.drop_last();
        let e = list.last();
        assert(plain_entry(list[list.len() - 1]));
        lemma_exclude_list_roundtrip(init, sep);
        lemma_exclude_list_concat(join_spec(init, sep), sep, e);
        lemma_split_single(e);
        assert(seq![e].drop_last() =~= Seq::<Seq<char>>::empty());
        assert(seq![e].last() == e);
        assert(exclude_items(Seq::<Seq<char>>::empty()) == Seq::<Seq<char>>::empty());
        assert(trim(e) == e);
        assert(exclude_list_spec(e) =~= seq![lowercase(e)]);
        assert(exclude_list_spec(join_spec(list, sep)) =~= list.map_values(
            |e: Seq<char>| lowercase(e),
        ));
    }
}


/// Normalising keeps a valid threshold and a valid language as they are, and
/// keeps the exclusion entries (lowercased) when each is non-empty and free
/// of surrounding white space and of separators; entries already in lowercase
/// are kept exactly. Normalising a threshold or a language twice changes
/// nothing more.
pub proof fn lemma_sanitized_keeps_valid(ms: u32, list: Seq<Seq<char>>, lang: Seq<char>)
    requires
        forall|i: int| 0 <= i < list.len() ==> plain_entry(#[trigger] list[i]),
    ensures
        long_press_in_range(ms) ==> sanitized_threshold(ms) == ms,
        sanitized_threshold(sanitized_threshold(ms)) == sanitized_threshold(ms),
        exclude_list_spec(join_spec(list, seq![','])) == list.map_values(|e: Seq<char>| lowercase(e)),
        (forall|i: int| 0 <= i < list.len() ==> lowercase(#[trigger] list[i]) == list[i])
            ==> exclude_list_spec(join_spec(list, seq![','])) == list,
        normalize_spec(normalize_spec(lang)) == normalize_spec(lang),
{
    let sep = seq![','];
    assert(forall|i: int| 0 <= i < sep.len() ==> is_list_separator(#[trigger] sep[i]));
    lemma_exclude_list_roundtrip(list, sep);
    if forall|i: int| 0 <= i < list.len() ==> lowercase(#[trigger] list[i]) == list[i] {
        assert(list.map_values(|e: Seq<char>| lowercase(e)) =~= list);
    }
    crate::i18n::lemma_normalize_language(lang, crate::i18n::Lang::Zh);
}


/// Exclusion ignores ASCII case: two names equal up to ASCII case are either
/// both excluded or both not, and a name never matches an entry of another
/// Membership on the exclusion list: an entry anywhere in the list that
/// matches ignoring ASCII case excludes the program, an identical entry
/// always matches, and nothing else excludes it.
pub proof fn lemma_exclusion_membership(exe: Seq<char>, list: Seq<Seq<char>>)
    ensures
        forall|i: int|
            0 <= i < list.len() && eq_ignore_ascii_case_spec(#[trigger] list[i], exe)
                ==> is_excluded_spec(exe, list),
        forall|i: int| 0 <= i < list.len() && #[trigger] list[i] == exe ==> is_excluded_spec(exe, list),
        is_excluded_spec(exe, list) <==> exists|i: int|
            0 <= i < list.len() && (#[trigger] list[i]).len() == exe.len() && (forall|k: int|
                0 <= k < exe.len() ==> #[trigger] ascii_fold(list[i][k]) == ascii_fold(exe[k])),
        list.len() == 0 ==> !is_excluded_spec(exe, list),
{
    assert forall|i: int| 0 <= i < list.len() && #[trigger] list[i] == exe implies is_excluded_spec(
        exe,
        list,
    ) by {
        assert(eq_ignore_ascii_case_spec(list[i], exe));
    }
}

/// The exclusion list is a set of entries: whether a program is excluded
/// from two lists joined is whether it is excluded from either, whatever the
/// order, and a one-entry list excludes exactly the matching program.
pub proof fn lemma_exclusion_join(exe: Seq<char>, a: Seq<Seq<char>>, b: Seq<Seq<char>>, x: Seq<char>)
    ensures
        is_excluded_spec(exe, a + b) == (is_excluded_spec(exe, a) || is_excluded_spec(exe, b)),
        is_excluded_spec(exe, a + b) == is_excluded_spec(exe, b + a),
        is_excluded_spec(exe, seq![x]) == (x.len() == exe.len() && forall|k: int|
            0 <= k < exe.len() ==> #[trigger] ascii_fold(x[k]) == ascii_fold(exe[k])),
{
    let ab = a + b;
    let ba = b + a;
    if is_excluded_spec(exe, a) {
        let i = choose|i: int| 0 <= i < a.len() && eq_ignore_ascii_case_spec(#[trigger] a[i], exe);
        assert(ab[i] == a[i]);
        assert(ba[b.len() + i] == a[i]);
    }
    if is_excluded_spec(exe, b) {
        let i = choose|i: int| 0 <= i < b.len() && eq_ignore_ascii_case_spec(#[trigger] b[i], exe);
        assert(ab[a.len() + i] == b[i]);
        assert(ba[i] == b[i]);
    }
    if is_excluded_spec(exe, ab) {
        let i = choose|i: int| 0 <= i < ab.len() && eq_ignore_ascii_case_spec(#[trigger] ab[i], exe);
        if i < a.len() {
            assert(a[i] == ab[i]);
        } else {
            assert(b[i - a.len()] == ab[i]);
        }
    }
    if is_excluded_spec(exe, ba) {
        let i = choose|i: int| 0 <= i < ba.len() && eq_ignore_ascii_case_spec(#[trigger] ba[i], exe);
        if i < b.len() {
            assert(b[i] == ba[i]);
        } else {
            assert(a[i - b.len()] == ba[i]);
        }
    }
    let one = seq![x];
    if is_excluded_spec(exe, one) {
        let i = choose|i: int| 0 <= i < one.len() && eq_ignore_ascii_case_spec(#[trigger] one[i], exe);
        assert(i == 0);
    }
    if x.len() == exe.len() && forall|k: int|
        0 <= k < exe.len() ==> #[trigger] ascii_fold(x[k]) == ascii_fold(exe[k]) {
        assert(eq_ignore_ascii_case_spec(one[0], exe));
    }
}

/// length (no prefix matching).
pub proof fn lemma_exclusion_ignores_ascii_case(a: Seq<char>, b: Seq<char>, list: Seq<Seq<char>>)
    ensures
        eq_ignore_ascii_case_spec(a, b) ==> (is_excluded_spec(a, list) == is_excluded_spec(b, list)),
        (forall|i: int| 0 <= i < list.len() ==> (#[trigger] list[i]).len() != a.len())
            ==> !is_excluded_spec(a, list),
{
    if eq_ignore_ascii_case_spec(a, b) {
        if is_excluded_spec(a, list) {
            let i = choose|i: int| 0 <= i < list.len() && eq_ignore_ascii_case_spec(#[trigger] list[i], a);
            assert forall|k: int| 0 <= k < list[i].len() implies #[trigger] ascii_fold(list[i][k])
                == ascii_fold(b[k]) by {
                assert(ascii_fold(list[i][k]) == ascii_fold(a[k]));
                assert(ascii_fold(a[k]) == ascii_fold(b[k]));
            }
            assert(eq_ignore_ascii_case_spec(list[i], b));
        }
        if is_excluded_spec(b, list) {
            let i = choose|i: int| 0 <= i < list.len() && eq_ignore_ascii_case_spec(#[trigger] list[i], b);
            assert forall|k: int| 0 <= k < list[i].len() implies #[trigger] ascii_fold(list[i][k])
                == ascii_fold(a[k]) by {
                assert(ascii_fold(list[i][k]) == ascii_fold(b[k]));
                assert(ascii_fold(a[k]) == ascii_fold(b[k]));
            }
            assert(eq_ignore_ascii_case_spec(list[i], a));
        }
    }
}

} // verus!
