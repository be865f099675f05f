//! Non-overlapping substring counting: the pass that scans a file's text and
//! counts how many times the search term occurs.

use vstd::prelude::*;
use vstd::string::StrSliceExecFns;

verus! {

/// Number of non-overlapping occurrences of `term` in `text`: scan left to
/// right, and after a match resume immediately past its end. An empty term
/// never matches.
pub open spec fn spec_count_occurrences(text: Seq<char>, term: Seq<char>) -> nat
    decreases text.len(),
{
    if term.len() == 0 || text.len() < term.len() {
        0
    } else if text.take(term.len() as int) == term {
        1 + spec_count_occurrences(text.skip(term.len() as int), term)
    } else {
        spec_count_occurrences(text.skip(1), term)
    }
}

/// The characters of `s`, in order, as a vector.
pub fn chars_vec(s: &str) -> (v: Vec<char>)
    ensures
        v@ == s@,
{
    let n: usize = s.unicode_len();
    let mut v: Vec<char> = Vec::new();
    let mut i: usize = 0;
    while i < n
        invariant
            i <= n,
            n == s@.len(),
            v@ == s@.take(i as int),
        decreases n - i,
    {
        let c = s.get_char(i);
        v.push(c);
        i = i + 1;
        proof {
            assert(v@ =~= s@.take(i as int));
        }
    }
    proof {
        assert(v@ =~= s@);
    }
    v
}

/// Whether `term` occurs in `text` starting exactly at position `i`.
fn matches_at(text: &Vec<char>, term: &Vec<char>, i: usize) -> (r: bool)
    requires
        i + term@.len() <= text@.len(),
    ensures
        r == (text@.subrange(i as int, i + term@.len()) == term@),
{
    let n: usize = text.len();
    let m: usize = term.len();
    let mut j: usize = 0;
    while j < m
        invariant
            j <= m,
            m == term@.len(),
            n == text@.len(),
            i + m <= n,
            forall|k: int| 0 <= k < j ==> text@[i + k] == term@[k],
        decreases m - j,
    {
        if text[i + j] != term[j] {
            proof {
                assert(text@.subrange(i as int, i + m as int)[j as int] == text@[i + j]);
            }
            return false;
        }
        j = j + 1;
    }
    proof {
        assert(text@.subrange(i as int, i + m as int) =~= term@);
    }
    true
}

/// Counts the non-overlapping occurrences of `term` in `text`, left to right.
pub fn count_occurrences(text: &Vec<char>, term: &Vec<char>) -> (r: usize)
    requires
        term@.len() > 0,
    ensures
        r == spec_count_occurrences(text@, term@),
{
    let n: usize = text.len();
    let m: usize = term.len();
    if m > n {
        return 0;
    }
    let mut i: usize = 0;
    let mut count: usize = 0;
    proof {
        assert(text@.skip(0) =~= text@);
    }
    while i <= n - m
        invariant
            1 <= m <= n,
            n == text@.len(),
            m == term@.len(),
            i <= n,
            count <= i,
            spec_count_occurrences(text@, term@) == count + spec_count_occurrences(
                text@.skip(i as int),
                term@,
            ),
        decreases n - i,
    {
        let ghost rest = text@.skip(i as int);
        proof {
            assert(rest.take(m as int) =~= text@.subrange(i as int, i + m as int));
        }
        if matches_at(text, term, i) {
            proof {
                assert(spec_count_occurrences(rest, term@) == 1 + spec_count_occurrences(
                    rest.skip(m as int),
                    term@,
                ));
                assert(rest.skip(m as int) =~= text@.skip(i + m as int));
            }
            count = count + 1;
            i = i + m;
        } else {
            proof {
                assert(spec_count_occurrences(rest, term@) == spec_count_occurrences(
                    rest.skip(1),
                    term@,
                ));
                assert(rest.skip(1) =~= text@.skip(i + 1 as int));
            }
            i = i + 1;
        }
    }
    proof {
        assert(spec_count_occurrences(text@.skip(i as int), term@) == 0);
    }
    count
}

/// Counts the non-overlapping occurrences of `term` in `content`; an empty
/// term yields zero.
pub fn count_in_text(content: &str, term: &str) -> (r: usize)
    ensures
        r == spec_count_occurrences(content@, term@),
{
    if term.unicode_len() == 0 {
        return 0;
    }
    let text = chars_vec(content);
    let term_chars = chars_vec(term);
    count_occurrences(&text, &term_chars)
}

} // verus!
