//! Line search: splits a text into lines the way Rust's `str::lines` does
//! (a line ends at a line feed, an immediately preceding carriage return is
//! dropped, and a last line without a terminator counts), and keeps the
//! lines that contain a query, either exactly or ignoring case.

use vstd::prelude::*;

verus! {

/// The run configuration: what to look for, where, and whether case is
/// ignored.
#[derive(Debug)]
pub struct Config {
    pub query: String,
    pub file_path: String,
    pub ignore_case: bool,
}

impl Config {
    /// Builds the configuration from the command-line words. The first word
    /// is the program name, the second the query, the third the file path.
    /// Whether case is ignored is the caller's decision (it comes from the
    /// process environment, which this library does not read).
    pub fn build(args: &[String], ignore_case: bool) -> (result: Result<Config, &'static str>)
        ensures
            args@.len() < 3 ==> result is Err && result.unwrap_err()@ == "not enough arguments"@,
            args@.len() >= 3 ==> result is Ok && result.unwrap().query@ == args@[1]@
                && result.unwrap().file_path@ == args@[2]@ && result.unwrap().ignore_case
                == ignore_case,
    {
        if args.len() < 3 {
            return Err("not enough arguments");
        }
        let query: String = args[1].clone();
        let file_path: String = args[2].clone();
        Ok(Config { query, file_path, ignore_case })
    }
}

/// `needle` occurs in `hay` starting exactly at position `i`.
pub open spec fn contains_at(hay: Seq<char>, needle: Seq<char>, i: int) -> bool {
    0 <= i && i + needle.len() <= hay.len() && hay.subrange(i, i + needle.len()) == needle
}

/// `needle` occurs somewhere in `hay`.
pub open spec fn contains_seq(hay: Seq<char>, needle: Seq<char>) -> bool {
    exists|i: int| contains_at(hay, needle, i)
}

/// The position of the first line feed at or after `start`, or the length
/// of `s` when there is none.
pub open spec fn next_newline(s: Seq<char>, start: int) -> int
    decreases s.len() - start,
{
    if start < 0 || start >= s.len() {
        s.len() as int
    } else if s[start] == '\n' {
        start
    } else {
        next_newline(s, start + 1)
    }
}

pub proof fn lemma_next_newline(s: Seq<char>, start: int)
    requires
        0 <= start <= s.len(),
    ensures
        start <= next_newline(s, start) <= s.len(),
        next_newline(s, start) < s.len() ==> s[next_newline(s, start)] == '\n',
        forall|k: int| start <= k < next_newline(s, start) ==> s[k] != '\n',
    decreases s.len() - start,
{
    if start < s.len() && s[start] != '\n' {
        lemma_next_newline(s, start + 1);
    }
}

/// A line body with its terminator already cut off: one trailing carriage
/// return is dropped, since the terminator was a carriage return and line
/// feed pair.
pub open spec fn strip_carriage_return(line: Seq<char>) -> Seq<char> {
    if line.len() > 0 && line.last() == '\r' {
        line.drop_last()
    } else {
        line
    }
}

/// The lines of `s` from position `start` on, split as `str::lines` splits:
/// at every line feed, dropping a carriage return that stands right before
/// it, with a last unterminated line kept and no empty line after a final
/// terminator.
pub open spec fn lines_from(s: Seq<char>, start: int) -> Seq<Seq<char>>
    decreases s.len() - start,
    via lines_from_decreases
{
    if start < 0 || start >= s.len() {
        Seq::empty()
    } else {
        let j = next_newline(s, start);
        if j >= s.len() {
            seq![s.subrange(start, s.len() as int)]
        } else {
            seq![strip_carriage_return(s.subrange(start, j))] + lines_from(s, j + 1)
        }
    }
}

#[via_fn]
proof fn lines_from_decreases(s: Seq<char>, start: int) {
    if 0 <= start < s.len() {
        lemma_next_newline(s, start);
    }
}

/// The lines of the whole of `s`.
pub open spec fn spec_lines(s: Seq<char>) -> Seq<Seq<char>> {
    lines_from(s, 0)
}

/// The lines of `contents` that contain `query`.
pub open spec fn matching_lines(contents: Seq<char>, query: Seq<char>) -> Seq<Seq<char>> {
    spec_lines(contents).filter(|line: Seq<char>| contains_seq(line, query))
}

/// The lowercasing that `str::to_lowercase` performs, named; it depends on
/// the characters alone.
pub uninterp spec fn lower_of(s: Seq<char>) -> Seq<char>;

/// The lines of `contents` whose lowercased form contains `query`.
pub open spec fn matching_lines_ignore_case(contents: Seq<char>, query: Seq<char>) -> Seq<
    Seq<char>,
> {
    spec_lines(contents).filter(|line: Seq<char>| contains_seq(lower_of(line), query))
}

/// Relies on `str::to_lowercase`: the result is a function of the
/// characters of `s` alone.
#[verifier::external_body]
fn to_lowercase_string(s: &str) -> (result: String)
    ensures
        result@ == lower_of(s@),
{
    s.to_lowercase()
}

/// Whether `needle` occurs in `hay` starting at `i`; compares the
/// characters one by one.
fn match_at(hay: &str, needle: &str, i: usize, n: usize, m: usize) -> (eq: bool)
    requires
        n == hay@.len(),
        m == needle@.len(),
        i + m <= n,
    ensures
        eq == contains_at(hay@, needle@, i as int),
{
    let mut k: usize = 0;
    while k < m
        invariant
            n == hay@.len(),
            m == needle@.len(),
            i + m <= n,
            k <= m,
            forall|k2: int| 0 <= k2 < k ==> hay@[i + k2] == needle@[k2],
        decreases m - k,
    {
        if hay.get_char(i + k) != needle.get_char(k) {
            proof {
                assert(hay@.subrange(i as int, i + m)[k as int] != needle@[k as int]);
            }
            return false;
        }
        k += 1;
    }
    proof {
        assert(hay@.subrange(i as int, i + m) =~= needle@);
    }
    true
}

/// Whether `needle` occurs anywhere in `hay`.
fn contains_str(hay: &str, needle: &str) -> (found: bool)
    ensures
        found == contains_seq(hay@, needle@),
{
    let n: usize = hay.unicode_len();
    let m: usize = needle.unicode_len();
    if m > n {
        proof {
            assert forall|j: int| !contains_at(hay@, needle@, j) by {}
        }
        return false;
    }
    if m == 0 {
        proof {
            assert(hay@.subrange(0, 0) =~= needle@);
            assert(contains_at(hay@, needle@, 0));
        }
        return true;
    }
    let mut i: usize = 0;
    while i <= n - m
        invariant
            n == hay@.len(),
            m == needle@.len(),
            1 <= m <= n,
            i <= n - m + 1,
            forall|j: int| 0 <= j < i ==> !contains_at(hay@, needle@, j),
        decreases n - m - i + 1,
    {
        if match_at(hay, needle, i, n, m) {
            return true;
        }
        i += 1;
    }
    proof {
        assert forall|j: int| !contains_at(hay@, needle@, j) by {
            if 0 <= j && j + m <= n {
                assert(!contains_at(hay@, needle@, j));
            }
        }
    }
    false
}

/// The position of the first line feed of `s` at or after `start`, or `n`
/// when there is none.
fn find_newline(s: &str, start: usize, n: usize) -> (j: usize)
    requires
        n == s@.len(),
        start <= n,
    ensures
        j == next_newline(s@, start as int),
        start <= j <= n,
{
    let mut j: usize = start;
    while j < n
        invariant
            n == s@.len(),
            start <= j <= n,
            next_newline(s@, start as int) == next_newline(s@, j as int),
        decreases n - j,
    {
        if s.get_char(j) == '\n' {
            return j;
        }
        j += 1;
    }
    j
}

proof fn lemma_filter_singleton(line: Seq<char>, pred: spec_fn(Seq<char>) -> bool)
    ensures
        pred(line) ==> seq![line].filter(pred) == seq![line],
        !pred(line) ==> seq![line].filter(pred) == Seq::<Seq<char>>::empty(),
{
    reveal_with_fuel(Seq::filter, 2);
    assert(seq![line].drop_last() =~= Seq::<Seq<char>>::empty());
    if pred(line) {
        assert(seq![line].filter(pred) =~= seq![line]);
    } else {
        assert(seq![line].filter(pred) =~= Seq::<Seq<char>>::empty());
    }
}

/// The lines of `contents` that contain `query`, as slices of `contents`,
/// in order.
pub fn search<'a>(query: &str, contents: &'a str) -> (result: Vec<&'a str>)
    ensures
        result.deep_view() == matching_lines(contents@, query@),
{
    let ghost pred = |line: Seq<char>| contains_seq(line, query@);
    let n: usize = contents.unicode_len();
    let mut result: Vec<&'a str> = Vec::new();
    let mut start: usize = 0;
    let mut tail_done: bool = false;
    while start < n && !tail_done
        invariant
            n == contents@.len(),
            pred == (|line: Seq<char>| contains_seq(line, query@)),
            start <= n,
            !tail_done ==> matching_lines(contents@, query@) == result.deep_view() + lines_from(
                contents@,
                start as int,
            ).filter(pred),
            tail_done ==> matching_lines(contents@, query@) == result.deep_view(),
        decreases n - start, (if tail_done { 0int } else { 1int }),
    {
        let ghost prev = result.deep_view();
        let j: usize = find_newline(contents, start, n);
        proof {
            lemma_next_newline(contents@, start as int);
        }
        if j == n {
            let line: &'a str = contents.substring_char(start, n);
            if contains_str(line, query) {
                result.push(line);
            }
            proof {
                assert(lines_from(contents@, start as int) =~~= seq![line@]);
                lemma_filter_singleton(line@, pred);
                if pred(line@) {
                    assert(result.deep_view() =~~= prev + seq![line@]);
                } else {
                    assert(result.deep_view() =~~= prev + Seq::<Seq<char>>::empty());
                }
                assert(matching_lines(contents@, query@) == result.deep_view());
            }
            tail_done = true;
        } else {
            let end: usize = if j > start && contents.get_char(j - 1) == '\r' {
                j - 1
            } else {
                j
            };
            let line: &'a str = contents.substring_char(start, end);
            proof {
                assert(line@ =~~= strip_carriage_return(
                    contents@.subrange(start as int, j as int),
                ));
            }
            if contains_str(line, query) {
                result.push(line);
            }
            proof {
                let rest = lines_from(contents@, j + 1);
                assert(lines_from(contents@, start as int) =~~= seq![line@] + rest);
                Seq::<Seq<char>>::filter_distributes_over_add(seq![line@], rest, pred);
                lemma_filter_singleton(line@, pred);
                if pred(line@) {
                    assert(result.deep_view() =~~= prev + seq![line@]);
                } else {
                    assert(result.deep_view() =~~= prev + Seq::<Seq<char>>::empty());
                }
                assert(matching_lines(contents@, query@) =~~= result.deep_view() + rest.filter(
                    pred,
                ));
            }
            start = j + 1;
        }
    }
    proof {
        if !tail_done {
            assert(lines_from(contents@, start as int).filter(pred) =~~= Seq::<
                Seq<char>,
            >::empty());
            assert(matching_lines(contents@, query@) =~~= result.deep_view());
        }
    }
    result
}

/// The lines of `contents` whose lowercased form contains `query`, as
/// slices of `contents`, in order. The query itself is not lowercased.
pub fn search_case_insensitive<'a>(query: &str, contents: &'a str) -> (result: Vec<&'a str>)
    ensures
        result.deep_view() == matching_lines_ignore_case(contents@, query@),
{
    let ghost pred = |line: Seq<char>| contains_seq(lower_of(line), query@);
    let n: usize = contents.unicode_len();
    let mut result: Vec<&'a str> = Vec::new();
    let mut start: usize = 0;
    let mut tail_done: bool = false;
    while start < n && !tail_done
        invariant
            n == contents@.len(),
            pred == (|line: Seq<char>| contains_seq(lower_of(line), query@)),
            start <= n,
            !tail_done ==> matching_lines_ignore_case(contents@, query@) == result.deep_view()
                + lines_from(contents@, start as int).filter(pred),
            tail_done ==> matching_lines_ignore_case(contents@, query@) == result.deep_view(),
        decreases n - start, (if tail_done { 0int } else { 1int }),
    {
        let ghost prev = result.deep_view();
        let j: usize = find_newline(contents, start, n);
        proof {
            lemma_next_newline(contents@, start as int);
        }
        if j == n {
            let line: &'a str = contents.substring_char(start, n);
            let lowered: String = to_lowercase_string(line);
            if contains_str(lowered.as_str(), query) {
                result.push(line);
            }
            proof {
                assert(lines_from(contents@, start as int) =~~= seq![line@]);
                lemma_filter_singleton(line@, pred);
                if pred(line@) {
                    assert(result.deep_view() =~~= prev + seq![line@]);
                } else {
                    assert(result.deep_view() =~~= prev + Seq::<Seq<char>>::empty());
                }
                assert(matching_lines_ignore_case(contents@, query@) == result.deep_view());
            }
            tail_done = true;
        } else {
            let end: usize = if j > start && contents.get_char(j - 1) == '\r' {
                j - 1
            } else {
                j
            };
            let line: &'a str = contents.substring_char(start, end);
            proof {
                assert(line@ =~~= strip_carriage_return(
                    contents@.subrange(start as int, j as int),
                ));
            }
            let lowered: String = to_lowercase_string(line);
            if contains_str(lowered.as_str(), query) {
                result.push(line);
            }
            proof {
                let rest = lines_from(contents@, j + 1);
                assert(lines_from(contents@, start as int) =~~= seq![line@] + rest);
                Seq::<Seq<char>>::filter_distributes_over_add(seq![line@], rest, pred);
                lemma_filter_singleton(line@, pred);
                if pred(line@) {
                    assert(result.deep_view() =~~= prev + seq![line@]);
                } else {
                    assert(result.deep_view() =~~= prev + Seq::<Seq<char>>::empty());
                }
                assert(matching_lines_ignore_case(contents@, query@) =~~= result.deep_view()
                    + rest.filter(pred));
            }
            start = j + 1;
        }
    }
    proof {
        if !tail_done {
            assert(lines_from(contents@, start as int).filter(pred) =~~= Seq::<
                Seq<char>,
            >::empty());
            assert(matching_lines_ignore_case(contents@, query@) =~~= result.deep_view());
        }
    }
    result
}

} // verus!
