//! The executable name of a process, from the image path the system reports.
//!
//! Paths are read as Windows reads them: `\` and `/` separate components,
//! and a path may start with a prefix (`C:`, `\\server\share`, `\\?\...`,
//! `\\.\device`) that is no name. In a verbatim path (`\\?\...`) only `\`
//! separates and `.` is a component of its own.

use vstd::prelude::*;
use crate::text::{chars_of, lowercase, string_from_chars, to_lowercase};
use crate::utf16::{decode_utf16_lossy, decode_utf16_lossy_spec};

verus! {

/// A path separator: `\` or `/`.
pub open spec fn is_separator(c: char) -> bool {
    c == '\\' || c == '/'
}

/// A separator of a path that is (`verbatim`) or is not verbatim.
pub open spec fn is_sep_for(c: char, verbatim: bool) -> bool {
    if verbatim {
        c == '\\'
    } else {
        is_separator(c)
    }
}

/// `c`, with `/` read as `\` (prefixes are recognised that way).
pub open spec fn slash_as_backslash(c: char) -> char {
    if c == '/' {
        '\\'
    } else {
        c
    }
}

/// Position `i` of `p` holds `c`, reading `/` as `\`.
pub open spec fn norm_at(p: Seq<char>, i: int, c: char) -> bool {
    0 <= i < p.len() && slash_as_backslash(p[i]) == c
}

/// An ASCII letter.
pub open spec fn is_ascii_letter(c: char) -> bool {
    let v = c as u32;
    (0x61 <= v <= 0x7A) || (0x41 <= v <= 0x5A)
}

/// A drive (`C:`) starts at position `i` of `p`.
pub open spec fn drive_at(p: Seq<char>, i: int) -> bool {
    0 <= i && i + 1 < p.len() && p[i + 1] == ':' && is_ascii_letter(p[i])
}

/// End of the component of `p` that starts at `from`: the position of the
/// next separator, or the end of `p`.
pub open spec fn comp_end(p: Seq<char>, from: int, verbatim: bool) -> int
    decreases p.len() - from,
{
    if from < 0 || from >= p.len() {
        p.len() as int
    } else if is_sep_for(p[from], verbatim) {
        from
    } else {
        comp_end(p, from + 1, verbatim)
    }
}

/// The prefix of `p`: its length (0 when there is none), whether the path is
/// verbatim, and whether the prefix implies a root (every prefix but a bare
/// drive does).
/// - `\\?\UNC\server\share`, `\\?\C:` and `\\?\name` are verbatim;
/// - `\\.\name` names a device;
/// - `\\server\share` needs both parts;
/// - `C:` is a drive.
pub open spec fn path_prefix(p: Seq<char>) -> (int, bool, bool) {
    let len = p.len() as int;
    if norm_at(p, 0, '\\') && norm_at(p, 1, '\\') {
        if norm_at(p, 2, '?') && norm_at(p, 3, '\\') && p[0] == '\\' && p[1] == '\\' && p[3]
            == '\\' {
            if norm_at(p, 4, 'U') && norm_at(p, 5, 'N') && norm_at(p, 6, 'C') && norm_at(
                p,
                7,
                '\\',
            ) {
                let se = comp_end(p, 8, true);
                let from = if se < len {
                    se + 1
                } else {
                    len
                };
                let sh = comp_end(p, from, true) - from;
                (if sh > 0 {
                    se + 1 + sh
                } else {
                    se
                }, true, true)
            } else if drive_at(p, 4) && (len <= 6 || p[6] == '\\') {
                (6, true, true)
            } else {
                (comp_end(p, 4, true), true, true)
            }
        } else if norm_at(p, 2, '.') && norm_at(p, 3, '\\') {
            (comp_end(p, 4, false), false, true)
        } else {
            let se = comp_end(p, 2, false);
            let from = if se < len {
                se + 1
            } else {
                len
            };
            let sh = comp_end(p, from, false) - from;
            if se > 2 && sh > 0 {
                (se + 1 + sh, false, true)
            } else {
                (0, false, false)
            }
        }
    } else if drive_at(p, 0) {
        (2, false, false)
    } else {
        (0, false, false)
    }
}

/// Where the components of `p` start: after the prefix, after a separator
/// right behind it (the root), and after a leading `.` component of a path
/// without root.
pub open spec fn body_start(p: Seq<char>) -> int {
    let (plen, verbatim, implicit_root) = path_prefix(p);
    let root = plen < p.len() && is_separator(p[plen]);
    let cur = !root && !implicit_root && plen < p.len() && p[plen] == '.' && (plen + 1 == p.len()
        || is_separator(p[plen + 1]));
    plen + (if root {
        1int
    } else {
        0int
    }) + (if cur {
        1int
    } else {
        0int
    })
}

/// The last character of `p` carries no name: it is a separator, or (outside
/// verbatim paths) the `.` of a trailing `.` component.
pub open spec fn tail_is_droppable(p: Seq<char>, verbatim: bool) -> bool {
    p.len() > 0 && (is_sep_for(p.last(), verbatim) || (!verbatim && p.last() == '.' && (p.len()
        == 1 || is_sep_for(p[p.len() - 2], verbatim))))
}

/// `p` without trailing separators and trailing `.` components.
pub open spec fn trim_path_tail(p: Seq<char>, verbatim: bool) -> Seq<char>
    decreases p.len(),
{
    if tail_is_droppable(p, verbatim) {
        trim_path_tail(p.drop_last(), verbatim)
    } else {
        p
    }
}

/// Where the last component of `p` starts: just behind its last separator.
pub open spec fn last_component_start(p: Seq<char>, verbatim: bool) -> int
    decreases p.len(),
{
    if p.len() == 0 {
        0
    } else if is_sep_for(p.last(), verbatim) {
        p.len() as int
    } else {
        last_component_start(p.drop_last(), verbatim)
    }
}

/// The file name of a Windows path: the last component behind the prefix and
/// root, once trailing separators and `.` components are set aside; none
/// when there is no such component or it is `..` (or `.` in a verbatim
/// path).
pub open spec fn file_name_spec(p: Seq<char>) -> Option<Seq<char>> {
    let verbatim = path_prefix(p).1;
    let q = trim_path_tail(p.skip(body_start(p)), verbatim);
    let name = q.skip(last_component_start(q, verbatim));
    if name.len() == 0 || name == seq!['.', '.'] || (verbatim && name == seq!['.']) {
        None
    } else {
        Some(name)
    }
}

/// The lowercase executable name of a process whose image path is given as
/// UTF-16 code units, as the exclusion list compares it.
pub open spec fn exe_name_spec(units: Seq<u16>) -> Option<Seq<char>> {
    match file_name_spec(decode_utf16_lossy_spec(units)) {
        Some(name) => Some(lowercase(name)),
        None => None,
    }
}

/// Whether `c` separates components.
fn sep_for(c: char, verbatim: bool) -> (r: bool)
    ensures
        r == is_sep_for(c, verbatim),
{
    if verbatim {
        c == '\\'
    } else {
        c == '\\' || c == '/'
    }
}

/// Whether position `i` of `v` holds `c`, reading `/` as `\`.
fn norm_at_exec(v: &Vec<char>, i: usize, c: char) -> (r: bool)
    ensures
        r == norm_at(v@, i as int, c),
{
    if i < v.len() {
        let d = v[i];
        if d == '/' {
            c == '\\'
        } else {
            d == c
        }
    } else {
        false
    }
}

/// Whether a drive starts at position `i` of `v`.
fn drive_at_exec(v: &Vec<char>, i: usize) -> (r: bool)
    ensures
        r == drive_at(v@, i as int),
{
    if i < v.len() && v.len() - i > 1 && v[i + 1] == ':' {
        let c = v[i] as u32;
        (0x61 <= c && c <= 0x7A) || (0x41 <= c && c <= 0x5A)
    } else {
        false
    }
}

/// End of the component of `v` that starts at `from`.
fn comp_end_exec(v: &Vec<char>, from: usize, verbatim: bool) -> (r: usize)
    requires
        from <= v@.len(),
    ensures
        r == comp_end(v@, from as int, verbatim),
        from <= r <= v@.len(),
{
    let mut i = from;
    while i < v.len() && !sep_for(v[i], verbatim)
        invariant
            from <= i <= v@.len(),
            comp_end(v@, from as int, verbatim) == comp_end(v@, i as int, verbatim),
        decreases v@.len() - i,
    {
        i = i + 1;
    }
    i
}

/// The prefix of `v`, as `path_prefix` reads it.
fn path_prefix_exec(v: &Vec<char>) -> (r: (usize, bool, bool))
    ensures
        r.0 as int == path_prefix(v@).0,
        r.1 == path_prefix(v@).1,
        r.2 == path_prefix(v@).2,
        r.0 <= v@.len(),
{
    let len = v.len();
    if norm_at_exec(v, 0, '\\') && norm_at_exec(v, 1, '\\') {
        if norm_at_exec(v, 2, '?') && norm_at_exec(v, 3, '\\') && v[0] == '\\' && v[1] == '\\'
            && v[3] == '\\' {
            if norm_at_exec(v, 4, 'U') && norm_at_exec(v, 5, 'N') && norm_at_exec(v, 6, 'C')
                && norm_at_exec(v, 7, '\\') {
                let se = comp_end_exec(v, 8, true);
                let from = if se < len {
                    se + 1
                } else {
                    len
                };
                let e = comp_end_exec(v, from, true);
                let sh = e - from;
                (if sh > 0 {
                    se + 1 + sh
                } else {
                    se
                }, true, true)
            } else if drive_at_exec(v, 4) && (len <= 6 || v[6] == '\\') {
                (6, true, true)
            } else {
                (comp_end_exec(v, 4, true), true, true)
            }
        } else if norm_at_exec(v, 2, '.') && norm_at_exec(v, 3, '\\') {
            (comp_end_exec(v, 4, false), false, true)
        } else {
            let se = comp_end_exec(v, 2, false);
            let from = if se < len {
                se + 1
            } else {
                len
            };
            let e = comp_end_exec(v, from, false);
            let sh = e - from;
            if se > 2 && sh > 0 {
                (se + 1 + sh, false, true)
            } else {
                (0, false, false)
            }
        }
    } else if drive_at_exec(v, 0) {
        (2, false, false)
    } else {
        (0, false, false)
    }
}

/// Whether the region `v[start..end]` ends in a character that names nothing.
fn tail_droppable(v: &Vec<char>, start: usize, end: usize, verbatim: bool) -> (r: bool)
    requires
        start <= end <= v@.len(),
    ensures
        r == tail_is_droppable(v@.subrange(start as int, end as int), verbatim),
{
    if end == start {
        false
    } else {
        let c = v[end - 1];
        sep_for(c, verbatim) || (!verbatim && c == '.' && (end - start == 1 || sep_for(
            v[end - 2],
            verbatim,
        )))
    }
}

/// The file name of the path `v`.
fn file_name(v: &Vec<char>) -> (r: Option<String>)
    ensures
        match file_name_spec(v@) {
            Some(name) => r is Some && r->0@ == name,
            None => r is None,
        },
{
    let (plen, verbatim, implicit_root) = path_prefix_exec(v);
    let n = v.len();
    let root = plen < n && (v[plen] == '\\' || v[plen] == '/');
    let cur = !root && !implicit_root && plen < n && v[plen] == '.' && (plen + 1 == n || v[plen
        + 1] == '\\' || v[plen + 1] == '/');
    let start = plen + (if root {
        1
    } else {
        0
    }) + (if cur {
        1
    } else {
        0
    });
    assert(start == body_start(v@));
    let mut end = n;
    assert(v@.subrange(start as int, n as int) =~= v@.skip(start as int));
    while tail_droppable(v, start, end, verbatim)
        invariant
            start <= end <= n,
            n == v@.len(),
            trim_path_tail(v@.subrange(start as int, end as int), verbatim) == trim_path_tail(
                v@.skip(start as int),
                verbatim,
            ),
        decreases end,
    {
        assert(v@.subrange(start as int, end as int).drop_last() =~= v@.subrange(
            start as int,
            end - 1,
        ));
        end = end - 1;
    }
    let ghost q = v@.subrange(start as int, end as int);
    assert(q == trim_path_tail(v@.skip(start as int), verbatim));
    let mut s = end;
    while s > start && !sep_for(v[s - 1], verbatim)
        invariant
            start <= s <= end <= v@.len(),
            q == v@.subrange(start as int, end as int),
            last_component_start(q, verbatim) == last_component_start(
                v@.subrange(start as int, s as int),
                verbatim,
            ),
        decreases s,
    {
        assert(v@.subrange(start as int, s as int).drop_last() =~= v@.subrange(
            start as int,
            s - 1,
        ));
        s = s - 1;
    }
    assert(last_component_start(v@.subrange(start as int, s as int), verbatim) == s - start);
    assert(q.skip(s - start) =~= v@.subrange(s as int, end as int));
    let len = end - s;
    if len == 0 || (len == 2 && v[s] == '.' && v[s + 1] == '.') || (verbatim && len == 1 && v[s]
        == '.') {
        assert(len == 2 ==> (q.skip(s - start) =~= seq!['.', '.']));
        assert(len == 1 ==> (q.skip(s - start) =~= seq!['.']));
        None
    } else {
        assert(len == 2 ==> q.skip(s - start)[0] != '.' || q.skip(s - start)[1] != '.');
        assert(len == 1 ==> q.skip(s - start)[0] != '.' || !verbatim);
        Some(string_from_chars(v, s, end))
    }
}

/// The lowercase executable name of a process, from its image path in
/// UTF-16 code units; `None` when the path names no file.
pub fn exe_name_from_image_path(units: &[u16]) -> (r: Option<String>)
    ensures
        match exe_name_spec(units@) {
            Some(name) => r is Some && r->0@ == name,
            None => r is None,
        },
{
    let path = decode_utf16_lossy(units);
    let chars = chars_of(path.as_str());
    match file_name(&chars) {
        Some(name) => Some(to_lowercase(name.as_str())),
        None => None,
    }
}

} // verus!
