//! The command line that the system holds for a browser, and the program
//! that it names.

use crate::text::{chars_of, string_of};
use crate::trusted::is_white_space;
use vstd::prelude::*;

verus! {

/// `s` without the white space it starts with.
pub open spec fn trim_start_of(s: Seq<char>) -> Seq<char>
    decreases s.len(),
{
    if s.len() > 0 && is_white_space(s[0]) {
        trim_start_of(s.drop_first())
    } else {
        s
    }
}

/// `s` without the white space it ends with.
pub open spec fn trim_end_of(s: Seq<char>) -> Seq<char>
    decreases s.len(),
{
    if s.len() > 0 && is_white_space(s.last()) {
        trim_end_of(s.drop_last())
    } else {
        s
    }
}

/// `s` without the white space at both ends.
pub open spec fn trimmed(s: Seq<char>) -> Seq<char> {
    trim_end_of(trim_start_of(s))
}

/// What stands in `s` before its first white space.
pub open spec fn first_word(s: Seq<char>) -> Seq<char>
    decreases s.len(),
{
    if s.len() == 0 || is_white_space(s[0]) {
        Seq::empty()
    } else {
        seq![s[0]] + first_word(s.drop_first())
    }
}

/// `text` behind `head`, where there is a text.
pub open spec fn behind(head: Seq<char>, text: Option<Seq<char>>) -> Option<Seq<char>> {
    match text {
        Some(t) => Some(head + t),
        None => None,
    }
}

/// What stands in `s` before its first double quote, where it has one.
pub open spec fn before_quote(s: Seq<char>) -> Option<Seq<char>>
    decreases s.len(),
{
    if s.len() == 0 {
        None
    } else if s[0] == '"' {
        Some(Seq::empty())
    } else {
        behind(seq![s[0]], before_quote(s.drop_first()))
    }
}

/// The program that a command line names. The line is read without the
/// white space at its ends. Where it opens with a double quote, the program
/// is what stands between that quote and the next, or the whole line where
/// no quote follows; else it is what stands before the first white space.
pub open spec fn executable_in(command: Seq<char>) -> Seq<char> {
    let line = trimmed(command);
    if line.len() > 0 && line[0] == '"' {
        match before_quote(line.drop_first()) {
            Some(path) => path,
            None => line,
        }
    } else {
        first_word(line)
    }
}

/// The characters of `v` from `from` up to `to`.
fn slice_of(v: &Vec<char>, from: usize, to: usize) -> (out: Vec<char>)
    requires
        from <= to <= v.len(),
    ensures
        out@ == v@.subrange(from as int, to as int),
{
    let mut out: Vec<char> = Vec::new();
    let mut i: usize = from;
    while i < to
        invariant
            from <= i <= to <= v.len(),
            out@ == v@.subrange(from as int, i as int),
        decreases to - i,
    {
        out.push(v[i]);
        i += 1;
    }
    out
}

/// Takes the white space off both ends of `s`.
pub fn trim(s: &Vec<char>) -> (out: Vec<char>)
    ensures
        out@ == trimmed(s@),
{
    let n: usize = s.len();
    let mut start: usize = 0;
    assert(s@.subrange(0, n as int) =~= s@);
    while start < n && s[start].is_whitespace()
        invariant
            start <= n == s.len(),
            trim_start_of(s@) == trim_start_of(s@.subrange(start as int, n as int)),
        decreases n - start,
    {
        assert(s@.subrange(start as int, n as int).drop_first() =~= s@.subrange(
            start + 1,
            n as int,
        ));
        start += 1;
    }
    let mut end: usize = n;
    while end > start && s[end - 1].is_whitespace()
        invariant
            start <= end <= n == s.len(),
            trim_end_of(s@.subrange(start as int, n as int)) == trim_end_of(
                s@.subrange(start as int, end as int),
            ),
        decreases end - start,
    {
        assert(s@.subrange(start as int, end as int).drop_last() =~= s@.subrange(
            start as int,
            end - 1,
        ));
        end -= 1;
    }
    slice_of(s, start, end)
}

/// Reads the program out of a command line.
pub fn executable_of(command: &str) -> (program: String)
    ensures
        program@ == executable_in(command@),
{
    let chars = chars_of(command);
    let line = trim(&chars);
    let n: usize = line.len();
    if n > 0 && line[0] == '"' {
        let ghost rest = line@.drop_first();
        let mut k: usize = 1;
        assert(rest.subrange(0, rest.len() as int) =~= rest);
        assert(rest.subrange(0, 0) + rest =~= rest);
        while k < n && line[k] != '"'
            invariant
                1 <= k <= n == line.len(),
                rest == line@.drop_first(),
                before_quote(rest) == behind(
                    rest.subrange(0, k - 1),
                    before_quote(rest.subrange(k - 1, rest.len() as int)),
                ),
            decreases n - k,
        {
            let ghost tail = rest.subrange(k - 1, rest.len() as int);
            assert(tail.drop_first() =~= rest.subrange(k as int, rest.len() as int));
            assert(rest.subrange(0, k - 1) + seq![tail[0]] =~= rest.subrange(0, k as int));
            assert(forall|t: Seq<char>|
                rest.subrange(0, k - 1) + (seq![tail[0]] + t) =~= rest.subrange(0, k as int) + t);
            k += 1;
        }
        if k < n {
            assert(rest.subrange(0, k - 1) + Seq::<char>::empty() =~= rest.subrange(0, k - 1));
            assert(rest.subrange(0, k - 1) =~= line@.subrange(1, k as int));
            string_of(&slice_of(&line, 1, k))
        } else {
            string_of(&line)
        }
    } else {
        let mut k: usize = 0;
        assert(line@.subrange(0, n as int) =~= line@);
        assert(line@.subrange(0, 0) + first_word(line@) =~= first_word(line@));
        while k < n && !line[k].is_whitespace()
            invariant
                k <= n == line.len(),
                first_word(line@) == line@.subrange(0, k as int) + first_word(
                    line@.subrange(k as int, n as int),
                ),
            decreases n - k,
        {
            let ghost tail = line@.subrange(k as int, n as int);
            assert(tail.drop_first() =~= line@.subrange(k + 1, n as int));
            assert(line@.subrange(0, k as int) + (seq![tail[0]] + first_word(tail.drop_first()))
                =~= line@.subrange(0, k + 1) + first_word(tail.drop_first()));
            k += 1;
        }
        assert(line@.subrange(0, k as int) + Seq::<char>::empty() =~= line@.subrange(0, k as int));
        string_of(&slice_of(&line, 0, k))
    }
}

} // verus!
