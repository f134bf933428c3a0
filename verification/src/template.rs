//! Filling the `{}` placeholders of translated message templates.

use vstd::prelude::*;
use crate::config::strings_view;
use crate::text::{chars_of, string_from_chars};

verus! {

/// A placeholder `{}` starts at position `i` of `s`.
pub open spec fn placeholder_at(s: Seq<char>, i: int) -> bool {
    0 <= i && i + 1 < s.len() && s[i] == '{' && s[i + 1] == '}'
}

/// `t` with its own placeholders filled by `args`, read left to right: the
/// first placeholder of the template takes the first argument, the next one
/// the second, and so on. Text that an argument brings in is never scanned
/// again; once the arguments run out, the remaining placeholders stay as
/// they are, and surplus arguments are ignored.
pub open spec fn fill_spec(t: Seq<char>, args: Seq<Seq<char>>) -> Seq<char>
    decreases t.len(),
{
    if t.len() == 0 {
        Seq::<char>::empty()
    } else if placeholder_at(t, 0) && args.len() > 0 {
        args[0] + fill_spec(t.skip(2), args.drop_first())
    } else {
        seq![t[0]] + fill_spec(t.drop_first(), args)
    }
}

/// Fills the `{}` placeholders of `template` with `args`, in order, scanning
/// the template once from left to right. Extra arguments are ignored;
/// missing ones leave placeholders in place.
pub fn tpl(template: &str, args: &[String]) -> (r: String)
    ensures
        r@ == fill_spec(template@, strings_view(args@)),
{
    let t = chars_of(template);
    let ghost view = strings_view(args@);
    let n = t.len();
    let mut out: Vec<char> = Vec::new();
    let mut i: usize = 0;
    let mut k: usize = 0;
    assert(t@.skip(0) =~= t@);
    assert(view.skip(0) =~= view);
    assert(out@ + fill_spec(t@, view) =~= fill_spec(t@, view));
    while i < n
        invariant
            n == t@.len(),
            t@ == template@,
            view == strings_view(args@),
            view.len() == args@.len(),
            i <= n,
            k <= args.len(),
            out@ + fill_spec(t@.skip(i as int), view.skip(k as int)) == fill_spec(t@, view),
        decreases n - i,
    {
        let ghost rest = t@.skip(i as int);
        let ghost avail = view.skip(k as int);
        if i + 1 < n && t[i] == '{' && t[i + 1] == '}' && k < args.len() {
            assert(placeholder_at(rest, 0));
            assert(avail[0] == args@[k as int]@);
            let mut a = chars_of(args[k].as_str());
            assert(rest.skip(2) =~= t@.skip(i + 2));
            assert(avail.drop_first() =~= view.skip(k + 1));
            let ghost before = out@;
            out.append(&mut a);
            assert(out@ + fill_spec(t@.skip(i + 2), view.skip(k + 1)) =~= before + fill_spec(rest, avail));
            i = i + 2;
            k = k + 1;
        } else {
            assert(!(placeholder_at(rest, 0) && avail.len() > 0));
            assert(rest.drop_first() =~= t@.skip(i + 1));
            let ghost before = out@;
            out.push(t[i]);
            assert(out@ + fill_spec(t@.skip(i + 1), avail) =~= before + fill_spec(rest, avail));
            i = i + 1;
        }
    }
    assert(t@.skip(n as int) =~= Seq::<char>::empty());
    assert(out@ =~= fill_spec(t@, view));
    string_from_chars(&out, 0, out.len())
}

/// Filling with no arguments leaves the template unchanged.
pub proof fn lemma_fill_without_args(t: Seq<char>)
    ensures
        fill_spec(t, Seq::<Seq<char>>::empty()) == t,
    decreases t.len(),
{
    if t.len() > 0 {
        lemma_fill_without_args(t.drop_first());
        assert(seq![t[0]] + t.drop_first() =~= t);
    }
}

/// A template without placeholders comes out unchanged, whatever the
/// arguments.
pub proof fn lemma_fill_without_placeholder(t: Seq<char>, args: Seq<Seq<char>>)
    requires
        forall|i: int| !#[trigger] placeholder_at(t, i),
    ensures
        fill_spec(t, args) == t,
    decreases t.len(),
{
    if t.len() > 0 {
        assert(!placeholder_at(t, 0));
        let d = t.drop_first();
        assert forall|i: int| !#[trigger] placeholder_at(d, i) by {
            assert(!placeholder_at(t, i + 1));
        }
        lemma_fill_without_placeholder(d, args);
        assert(seq![t[0]] + d =~= t);
    }
}

/// Text brought in by an argument is not scanned again: a template that is
/// exactly one placeholder gives back the first argument as it is, even when
/// that argument holds placeholders of its own.
pub proof fn lemma_fill_single_placeholder(a: Seq<char>, rest: Seq<Seq<char>>)
    ensures
        fill_spec(seq!['{', '}'], seq![a] + rest) == a,
{
    let t = seq!['{', '}'];
    let args = seq![a] + rest;
    assert(placeholder_at(t, 0));
    assert(args[0] == a);
    assert(t.skip(2) =~= Seq::<char>::empty());
    assert(fill_spec(t.skip(2), args.drop_first()) == Seq::<char>::empty());
    assert(a + Seq::<char>::empty() =~= a);
}

} // verus!
