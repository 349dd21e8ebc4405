//! Verified helpers on strings: conversion between `String` and `Vec<char>`,
//! and splitting command output into lines.

use vstd::prelude::*;
use vstd::std_specs::iter::IteratorSpec;
use vstd::string::StringExecFns;

verus! {

/// Relies on `String::push`: appends the given character to the end of the
/// string.
pub assume_specification[ String::push ](s: &mut String, ch: char)
    ensures
        final(s)@ == old(s)@.push(ch),
;

/// Builds the string holding exactly the characters of `v`, in order.
pub fn string_of_chars(v: &Vec<char>) -> (s: String)
    ensures
        s@ == v@,
{
    let mut s = String::new();
    let mut i: usize = 0;
    while i < v.len()
        invariant
            i <= v.len(),
            s@ == v@.take(i as int),
        decreases v.len() - i,
    {
        s.push(v[i]);
        assert(v@.take(i + 1) =~= v@.take(i as int).push(v@[i as int]));
        i = i + 1;
    }
    assert(v@.take(v.len() as int) =~= v@);
    s
}

/// Collects the characters of `s`, in order.
pub fn chars_of_str(s: &str) -> (v: Vec<char>)
    ensures
        v@ == s@,
{
    broadcast use vstd::string::axiom_spec_iter, vstd::string::next_postcondition;

    let mut it = s.chars();
    let mut v: Vec<char> = Vec::new();
    loop
        invariant
            it.decrease() is Some,
            v@ + it.remaining() == s@,
        ensures
            v@ == s@,
        decreases it.decrease()->0,
    {
        match it.next() {
            Some(c) => {
                v.push(c);
                assert(v@ + it.remaining() =~= s@);
            },
            None => {
                assert(v@ =~= s@);
                break ;
            },
        }
    }
    v
}

/// The segments of `s` between newline characters: one more segment than
/// there are newlines, in order, the newlines themselves excluded.
pub open spec fn split_nl(s: Seq<char>) -> Seq<Seq<char>>
    decreases s.len(),
{
    if s.len() == 0 {
        seq![Seq::<char>::empty()]
    } else if s.last() == '\n' {
        split_nl(s.drop_last()).push(Seq::<char>::empty())
    } else {
        let p = split_nl(s.drop_last());
        p.update(p.len() - 1, p.last().push(s.last()))
    }
}

/// There is always at least one segment.
pub proof fn lemma_split_nl_len(s: Seq<char>)
    ensures
        split_nl(s).len() >= 1,
    decreases s.len(),
{
    if s.len() > 0 {
        lemma_split_nl_len(s.drop_last());
    }
}

/// The lines of `s`: its newline-separated segments, except that a final
/// empty segment (from a trailing newline, or from an empty `s`) is dropped.
pub open spec fn lines_model(s: Seq<char>) -> Seq<Seq<char>> {
    let p = split_nl(s);
    if p.last().len() == 0 {
        p.drop_last()
    } else {
        p
    }
}

/// Splits `s` into its lines, in order.
pub fn lines_of(s: &str) -> (v: Vec<String>)
    ensures
        v.deep_view() == lines_model(s@),
{
    broadcast use vstd::string::axiom_spec_iter, vstd::string::next_postcondition;

    let mut it = s.chars();
    let mut out: Vec<String> = Vec::new();
    let mut cur: String = String::new();
    let ghost mut done: Seq<char> = Seq::empty();
    proof {
        assert(done + it.remaining() =~= s@);
        assert(out.deep_view().push(cur@) =~= split_nl(done));
    }
    loop
        invariant
            it.decrease() is Some,
            done + it.remaining() == s@,
            out.deep_view().push(cur@) == split_nl(done),
        ensures
            done == s@,
            out.deep_view().push(cur@) == split_nl(s@),
        decreases it.decrease()->0,
    {
        let ghost out_old = out.deep_view();
        let ghost cur_old = cur@;
        let ghost done_old = done;
        match it.next() {
            Some(c) => {
                proof {
                    done = done.push(c);
                    assert(done + it.remaining() =~= s@);
                    assert(done.drop_last() =~= done_old);
                }
                if c == '\n' {
                    out.push(cur);
                    cur = String::new();
                    proof {
                        assert(done.last() == '\n');
                        assert(split_nl(done) == split_nl(done_old).push(Seq::<char>::empty()));
                        assert(out.deep_view() =~= out_old.push(cur_old));
                        assert(out.deep_view().push(cur@) =~= split_nl(done));
                    }
                } else {
                    cur.push(c);
                    proof {
                        let p = split_nl(done_old);
                        lemma_split_nl_len(done_old);
                        assert(split_nl(done) == p.update(p.len() - 1, p.last().push(c)));
                        assert(p == out_old.push(cur_old));
                        assert(p.last() == cur_old);
                        assert(out.deep_view().push(cur@) =~= split_nl(done));
                    }
                }
            },
            None => {
                proof {
                    assert(done =~= s@);
                }
                break ;
            },
        }
    }
    if cur.as_str().is_empty() {
        proof {
            let p = split_nl(s@);
            assert(p.last() == cur@);
            assert(p.drop_last() =~= out.deep_view());
        }
        out
    } else {
        let ghost out_old = out.deep_view();
        let ghost cur_old = cur@;
        out.push(cur);
        proof {
            assert(out.deep_view() =~= out_old.push(cur_old));
        }
        out
    }
}

} // verus!
