//! Stream targets and the input list.
//!
//! The input is a newline-delimited text, one network stream address per
//! line. Each line becomes one immutable [`StreamTarget`], numbered in input
//! order. Duplicate addresses are kept: they are independent, unrelated
//! streams. Line endings are `\n` or `\r\n`; a final line needs no ending.

use vstd::prelude::*;
use vstd::string::StrSliceExecFns;

verus! {

/// One configured stream: its position in the input list and its address.
/// Created once at startup and never mutated.
pub struct StreamTarget {
    pub id: usize,
    pub address: String,
}

/// The index of the first `'\n'` in `s`, or `s.len()` if there is none.
pub open spec fn first_newline(s: Seq<char>) -> int
    decreases s.len(),
{
    if s.len() == 0 {
        0
    } else if s[0] == '\n' {
        0
    } else {
        1 + first_newline(s.drop_first())
    }
}

/// A line with a trailing carriage return removed, as a reader of
/// `\r\n`-terminated lines leaves it.
pub open spec fn strip_cr(l: Seq<char>) -> Seq<char> {
    if l.len() > 0 && l.last() == '\r' {
        l.drop_last()
    } else {
        l
    }
}

/// The lines of `s`: split at every `'\n'`, with a carriage return before
/// the `'\n'` stripped; a final chunk without a line ending is kept as it
/// stands, and a trailing line ending adds no empty final line.
pub open spec fn lines_of(s: Seq<char>) -> Seq<Seq<char>>
    decreases s.len(),
    via lines_of_decreases
{
    if s.len() == 0 {
        Seq::empty()
    } else {
        let i = first_newline(s);
        if i == s.len() {
            seq![s]
        } else {
            seq![strip_cr(s.take(i))] + lines_of(s.skip(i + 1))
        }
    }
}

#[via_fn]
proof fn lines_of_decreases(s: Seq<char>) {
    lemma_first_newline_bounds(s);
}

/// `first_newline` indeed names the first newline: it is in bounds, it
/// points at a `'\n'` when one exists, and nothing before it is a `'\n'`.
pub proof fn lemma_first_newline_bounds(s: Seq<char>)
    ensures
        0 <= first_newline(s) <= s.len(),
        first_newline(s) < s.len() ==> s[first_newline(s)] == '\n',
        forall|k: int| 0 <= k < first_newline(s) ==> s[k] != '\n',
    decreases s.len(),
{
    if s.len() > 0 && s[0] != '\n' {
        lemma_first_newline_bounds(s.drop_first());
        assert forall|k: int| 0 <= k < first_newline(s) implies s[k] != '\n' by {
            if k > 0 {
                assert(s.drop_first()[k - 1] != '\n');
            }
        }
    }
}

/// A prefix free of newlines that ends at a newline (or at the end of the
/// text) pins `first_newline` down.
proof fn lemma_first_newline_is(s: Seq<char>, i: int)
    requires
        0 <= i <= s.len(),
        forall|k: int| 0 <= k < i ==> s[k] != '\n',
        i < s.len() ==> s[i] == '\n',
    ensures
        first_newline(s) == i,
    decreases i,
{
    if i > 0 {
        assert forall|k: int| 0 <= k < i - 1 implies s.drop_first()[k] != '\n' by {
            assert(s[k + 1] != '\n');
        }
        lemma_first_newline_is(s.drop_first(), i - 1);
    }
}

/// The views of a sequence of strings.
pub open spec fn seq_views(v: Seq<String>) -> Seq<Seq<char>> {
    v.map_values(|x: String| x@)
}

/// Splits a text into its lines, exactly as [`lines_of`] describes.
pub fn split_lines(s: &str) -> (r: Vec<String>)
    ensures
        seq_views(r@) == lines_of(s@),
    decreases s@.len(),
{
    let n = s.unicode_len();
    if n == 0 {
        let r: Vec<String> = Vec::new();
        proof {
            assert(seq_views(r@) =~~= lines_of(s@));
        }
        return r;
    }
    let mut i: usize = 0;
    while i < n && s.get_char(i) != '\n'
        invariant
            n == s@.len(),
            i <= n,
            forall|k: int| 0 <= k < i ==> s@[k] != '\n',
        decreases n - i,
    {
        i = i + 1;
    }
    proof {
        lemma_first_newline_is(s@, i as int);
    }
    if i == n {
        let line = s.to_owned();
        let mut r: Vec<String> = Vec::new();
        r.push(line);
        proof {
            assert(seq_views(r@) =~~= lines_of(s@));
        }
        return r;
    }
    let line: String = if i > 0 && s.get_char(i - 1) == '\r' {
        s.substring_char(0, i - 1).to_owned()
    } else {
        s.substring_char(0, i).to_owned()
    };
    proof {
        assert(line@ =~= strip_cr(s@.take(i as int)));
    }
    let rest = s.substring_char(i + 1, n);
    let mut tail = split_lines(rest);
    let mut r: Vec<String> = Vec::new();
    r.push(line);
    r.append(&mut tail);
    proof {
        assert(rest@ =~= s@.skip(i as int + 1));
        assert(seq_views(r@) =~~= lines_of(s@));
    }
    r
}

/// Turns the input text into the ordered target list: one target per line,
/// numbered from zero in input order, duplicates kept.
pub fn parse_target_list(text: &str) -> (ts: Vec<StreamTarget>)
    ensures
        ts@.len() == lines_of(text@).len(),
        forall|i: int|
            0 <= i < ts@.len() ==> (#[trigger] ts@[i]).id == i && ts@[i].address@ == lines_of(
                text@,
            )[i],
{
    let mut lines = split_lines(text);
    let mut ts: Vec<StreamTarget> = Vec::new();
    while lines.len() > 0
        invariant
            seq_views(lines@) =~~= lines_of(text@).skip(ts@.len() as int),
            ts@.len() + lines@.len() == lines_of(text@).len(),
            forall|i: int|
                0 <= i < ts@.len() ==> (#[trigger] ts@[i]).id == i && ts@[i].address@ == lines_of(
                    text@,
                )[i],
        decreases lines@.len(),
    {
        let ghost pre_lines = lines@;
        let ghost k = ts@.len() as int;
        let id = ts.len();
        let a = lines.remove(0);
        proof {
            assert(seq_views(pre_lines)[0] == pre_lines[0]@);
            assert(lines_of(text@).skip(k)[0] == lines_of(text@)[k]);
            assert(a@ == lines_of(text@)[k]);
        }
        ts.push(StreamTarget { id, address: a });
        proof {
            assert forall|j: int| 0 <= j < lines@.len() implies seq_views(lines@)[j] == lines_of(
                text@,
            ).skip(k + 1)[j] by {
                assert(seq_views(lines@)[j] == lines@[j]@);
                assert(lines@[j] == pre_lines[j + 1]);
                assert(seq_views(pre_lines)[j + 1] == pre_lines[j + 1]@);
                assert(lines_of(text@).skip(k)[j + 1] == lines_of(text@)[k + j + 1]);
                assert(lines_of(text@).skip(k + 1)[j] == lines_of(text@)[k + j + 1]);
            }
            assert(seq_views(lines@) =~~= lines_of(text@).skip(k + 1));
        }
    }
    ts
}

} // verus!
