//! The report formatter: renders the aggregated result and the
//! configuration as a multi-line report, with counts padded to a fixed
//! field width, a singular/plural rule, and an optional summary line.

use vstd::prelude::*;
use vstd::string::{StrSliceExecFns, StringExecFns};
use crate::options::Options;
use crate::result::{File, FileView, Output, spec_total_occurrences};
use crate::clamp;

verus! {

/// The decimal digit character for `d` (meaningful for `d < 10`).
pub open spec fn spec_digit(d: nat) -> char {
    if d == 0 {
        '0'
    } else if d == 1 {
        '1'
    } else if d == 2 {
        '2'
    } else if d == 3 {
        '3'
    } else if d == 4 {
        '4'
    } else if d == 5 {
        '5'
    } else if d == 6 {
        '6'
    } else if d == 7 {
        '7'
    } else if d == 8 {
        '8'
    } else {
        '9'
    }
}

/// The decimal representation of `n`, most significant digit first, with no
/// leading zeroes (`0` itself is `"0"`).
pub open spec fn spec_decimal(n: nat) -> Seq<char>
    decreases n,
{
    if n < 10 {
        seq![spec_digit(n)]
    } else {
        spec_decimal(n / 10).push(spec_digit(n % 10))
    }
}

/// `count` spaces.
pub open spec fn spec_spaces(count: nat) -> Seq<char> {
    Seq::new(count, |i: int| ' ')
}

/// The padding that follows a rendered count: spaces up to a field width of
/// three; a count of three or more digits gets none.
pub open spec fn spec_padding(times: nat) -> Seq<char> {
    spec_spaces(
        if spec_decimal(times).len() < 3 {
            (3 - spec_decimal(times).len()) as nat
        } else {
            0
        },
    )
}

/// One report line for a record: the count padded to a field of three, the
/// singular `time` for exactly one occurrence and the plural `times`
/// otherwise, then the path.
pub open spec fn spec_file_line(f: FileView) -> Seq<char> {
    "found: "@ + spec_decimal(f.times) + spec_padding(f.times) + (if f.times == 1 {
        " time in: "@
    } else {
        " times in: "@
    }) + f.path
}

/// The report body: one line per record, in order, each preceded by a
/// newline.
pub open spec fn spec_file_lines(files: Seq<FileView>) -> Seq<char>
    decreases files.len(),
{
    if files.len() == 0 {
        Seq::empty()
    } else {
        spec_file_lines(files.drop_last()) + "\n"@ + spec_file_line(files.last())
    }
}

/// The summary line: the term, the total occurrence count with the same
/// singular/plural rule, and the number of matching files.
pub open spec fn spec_summary(files: Seq<FileView>, term: Seq<char>) -> Seq<char> {
    "Keyword: '"@ + term + "' found "@ + spec_decimal(spec_total_occurrences(files)) + (
    if spec_total_occurrences(files) == 1 {
        " time in "@
    } else {
        " times in "@
    }) + spec_decimal(files.len()) + " files"@
}

/// The whole report: an opening rule of `width` `=` characters, the body, a
/// newline and a closing rule, and, iff search is enabled, a newline and
/// the summary line.
pub open spec fn spec_display(
    files: Seq<FileView>,
    find: bool,
    term: Seq<char>,
    width: nat,
) -> Seq<char> {
    let rule = Seq::new(width, |i: int| '=');
    rule + spec_file_lines(files) + "\n"@ + rule + (if find {
        "\n"@ + spec_summary(files, term)
    } else {
        Seq::empty()
    })
}

/// With search disabled the report is exactly the opening rule, the body, a
/// newline and the closing rule: the summary line is absent.
pub proof fn lemma_no_summary_when_disabled(files: Seq<FileView>, term: Seq<char>, width: nat)
    ensures
        spec_display(files, false, term, width) == Seq::new(width, |i: int| '=')
            + spec_file_lines(files) + "\n"@ + Seq::new(width, |i: int| '='),
{
    assert(spec_display(files, false, term, width) =~= Seq::new(width, |i: int| '=')
        + spec_file_lines(files) + "\n"@ + Seq::new(width, |i: int| '='));
}

/// The single-character string for digit `d`.
fn digit_str(d: u128) -> (r: &'static str)
    requires
        d < 10,
    ensures
        r@ == seq![spec_digit(d as nat)],
{
    let r: &'static str = match d {
        0 => "0",
        1 => "1",
        2 => "2",
        3 => "3",
        4 => "4",
        5 => "5",
        6 => "6",
        7 => "7",
        8 => "8",
        _ => "9",
    };
    proof {
        reveal_strlit("0");
        reveal_strlit("1");
        reveal_strlit("2");
        reveal_strlit("3");
        reveal_strlit("4");
        reveal_strlit("5");
        reveal_strlit("6");
        reveal_strlit("7");
        reveal_strlit("8");
        reveal_strlit("9");
        assert(r@ =~= seq![spec_digit(d as nat)]);
    }
    r
}

/// Appends the decimal digits of `n` to `s`.
fn append_decimal(s: &mut String, n: u128)
    ensures
        final(s)@ == old(s)@ + spec_decimal(n as nat),
    decreases n,
{
    if n < 10 {
        s.append(digit_str(n));
    } else {
        append_decimal(s, n / 10);
        s.append(digit_str(n % 10));
        proof {
            assert(final(s)@ =~= old(s)@ + spec_decimal(n as nat));
        }
    }
}

/// Appends `count` copies of the single character of `piece` to `s`.
fn append_repeat(s: &mut String, piece: &str, count: usize)
    requires
        piece@.len() == 1,
    ensures
        final(s)@ == old(s)@ + Seq::new(count as nat, |i: int| piece@[0]),
{
    let mut j: usize = 0;
    proof {
        assert(s@ =~= s@ + Seq::new(0, |i: int| piece@[0]));
    }
    while j < count
        invariant
            j <= count,
            piece@.len() == 1,
            s@ == old(s)@ + Seq::new(j as nat, |i: int| piece@[0]),
        decreases count - j,
    {
        s.append(piece);
        j = j + 1;
        proof {
            assert(Seq::new(j as nat, |i: int| piece@[0]) =~= Seq::new(
                (j - 1) as nat,
                |i: int| piece@[0],
            ) + piece@);
        }
    }
}

/// Appends the report line for `f` to `s`.
fn append_file_line(s: &mut String, f: &File)
    ensures
        final(s)@ == old(s)@ + spec_file_line(f@),
{
    s.append("found: ");
    let mut digits = String::new();
    append_decimal(&mut digits, f.times as u128);
    let digit_count: usize = digits.as_str().unicode_len();
    s.append(digits.as_str());
    let pad: usize = clamp(if digit_count < 3 {
        3 - digit_count
    } else {
        0
    }, 0, 100);
    proof {
        reveal_strlit(" ");
    }
    append_repeat(s, " ", pad);
    if f.times == 1 {
        s.append(" time in: ");
    } else {
        s.append(" times in: ");
    }
    s.append(f.path.as_str());
    proof {
        assert(Seq::new(pad as nat, |i: int| " "@[0]) =~= spec_padding(f@.times));
        assert(final(s)@ =~= old(s)@ + spec_file_line(f@));
    }
}

/// Appends the summary line for `out` and `options` to `s`.
fn append_summary(s: &mut String, out: &Output, options: &Options)
    ensures
        final(s)@ == old(s)@ + spec_summary(out@, options.str_to_find@),
{
    s.append("Keyword: '");
    s.append(options.str_to_find.as_str());
    s.append("' found ");
    let total: u128 = out.total_occurrences();
    append_decimal(s, total);
    if total == 1 {
        s.append(" time in ");
    } else {
        s.append(" times in ");
    }
    let count: usize = out.matching_file_count();
    append_decimal(s, count as u128);
    s.append(" files");
    proof {
        assert(final(s)@ =~= old(s)@ + spec_summary(out@, options.str_to_find@));
    }
}

impl Output {
    /// Renders the whole report for this result. `width` is the visual
    /// width of the horizontal rules, a cosmetic parameter the caller may
    /// take from the terminal.
    pub fn display(&self, options: &Options, width: usize) -> (msg: String)
        ensures
            msg@ == spec_display(self@, options.find, options.str_to_find@, width as nat),
    {
        let ghost rule = Seq::new(width as nat, |i: int| '=');
        let mut msg = String::new();
        proof {
            reveal_strlit("=");
        }
        append_repeat(&mut msg, "=", width);
        proof {
            assert(msg@ =~= rule);
            assert(self@.take(0) =~= Seq::<FileView>::empty());
        }
        let n: usize = self.positively_searched_files.len();
        let mut i: usize = 0;
        while i < n
            invariant
                i <= n,
                n == self.positively_searched_files@.len(),
                rule == Seq::new(width as nat, |k: int| '='),
                msg@ == rule + spec_file_lines(self@.take(i as int)),
            decreases n - i,
        {
            msg.append("\n");
            append_file_line(&mut msg, &self.positively_searched_files[i]);
            i = i + 1;
            proof {
                let files = self@;
                let t1 = files.take(i as int);
                assert(t1.drop_last() =~= files.take(i - 1 as int));
                assert(t1.last() == files[i - 1 as int]);
                assert(msg@ =~= rule + spec_file_lines(t1));
            }
        }
        proof {
            assert(self@.take(n as int) =~= self@);
        }
        msg.append("\n");
        append_repeat(&mut msg, "=", width);
        if options.find {
            msg.append("\n");
            append_summary(&mut msg, self, options);
        }
        proof {
            assert(msg@ =~= spec_display(self@, options.find, options.str_to_find@, width as nat));
        }
        msg
    }
}

} // verus!
