//! Extension-based admission: a file is scanned only when the extension of
//! its name is on a fixed allow-list.

use vstd::prelude::*;
use vstd::string::StrSliceExecFns;
use crate::count::chars_vec;

verus! {

/// Index of the last occurrence of `c` in `s`, or -1 when `c` does not occur.
pub open spec fn spec_last_index(s: Seq<char>, c: char) -> int
    decreases s.len(),
{
    if s.len() == 0 {
        -1
    } else if s.last() == c {
        s.len() - 1
    } else {
        spec_last_index(s.drop_last(), c)
    }
}

/// The final component of `path`: what follows the last `/`, or the whole
/// path when it holds no `/`.
pub open spec fn spec_file_name(path: Seq<char>) -> Seq<char> {
    path.skip(spec_last_index(path, '/') + 1)
}

/// The extension of a file name: what follows the last `.`, or empty when the
/// name holds no `.`.
pub open spec fn spec_extension(name: Seq<char>) -> Seq<char> {
    if spec_last_index(name, '.') == -1 {
        Seq::empty()
    } else {
        name.skip(spec_last_index(name, '.') + 1)
    }
}

/// The fixed allow-list of extensions (case-sensitive, without the dot).
pub open spec fn spec_allowed_extension(ext: Seq<char>) -> bool {
    ||| ext == "txt"@
    ||| ext == "py"@
    ||| ext == "pyw"@
    ||| ext == "c"@
    ||| ext == "cpp"@
    ||| ext == "rs"@
    ||| ext == "bat"@
    ||| ext == "cmd"@
    ||| ext == "toml"@
    ||| ext == "md"@
    ||| ext == "log"@
    ||| ext == "cs"@
}

/// A file is eligible for scanning iff the extension of its final path
/// component is on the allow-list.
pub open spec fn spec_is_eligible(path: Seq<char>) -> bool {
    spec_allowed_extension(spec_extension(spec_file_name(path)))
}

/// Position of the last occurrence of `c` in `v`, searching from the end.
fn find_last(v: &Vec<char>, c: char) -> (r: Option<usize>)
    ensures
        match r {
            Some(i) => i < v@.len() && spec_last_index(v@, c) == i,
            None => spec_last_index(v@, c) == -1,
        },
{
    let mut i: usize = v.len();
    proof {
        assert(v@.take(i as int) =~= v@);
    }
    while i > 0
        invariant
            i <= v@.len(),
            spec_last_index(v@, c) == spec_last_index(v@.take(i as int), c),
        decreases i,
    {
        i = i - 1;
        let ghost prefix = v@.take(i + 1 as int);
        proof {
            assert(prefix.last() == v@[i as int]);
        }
        if v[i] == c {
            return Some(i);
        }
        proof {
            assert(prefix.drop_last() =~= v@.take(i as int));
        }
    }
    None
}

/// Whether two string slices hold the same characters.
pub fn str_eq(a: &str, b: &str) -> (r: bool)
    ensures
        r == (a@ == b@),
{
    let na: usize = a.unicode_len();
    let nb: usize = b.unicode_len();
    if na != nb {
        return false;
    }
    let mut i: usize = 0;
    while i < na
        invariant
            i <= na,
            na == a@.len(),
            na == b@.len(),
            forall|k: int| 0 <= k < i ==> a@[k] == b@[k],
        decreases na - i,
    {
        if a.get_char(i) != b.get_char(i) {
            return false;
        }
        i = i + 1;
    }
    proof {
        assert(a@ =~= b@);
    }
    true
}

/// Whether `ext` is on the allow-list.
fn allowed_extension(ext: &str) -> (r: bool)
    ensures
        r == spec_allowed_extension(ext@),
{
    str_eq(ext, "txt") || str_eq(ext, "py") || str_eq(ext, "pyw") || str_eq(ext, "c") || str_eq(
        ext,
        "cpp",
    ) || str_eq(ext, "rs") || str_eq(ext, "bat") || str_eq(ext, "cmd") || str_eq(ext, "toml")
        || str_eq(ext, "md") || str_eq(ext, "log") || str_eq(ext, "cs")
}

/// Decides admission for the file at `path`: extracts the final path
/// component, then its extension, and checks the allow-list.
pub fn is_eligible(path: &str) -> (r: bool)
    ensures
        r == spec_is_eligible(path@),
{
    let n: usize = path.unicode_len();
    let chars = chars_vec(path);
    let start: usize = match find_last(&chars, '/') {
        Some(i) => i + 1,
        None => 0,
    };
    let name: &str = path.substring_char(start, n);
    proof {
        assert(name@ =~= spec_file_name(path@));
    }
    let name_chars = chars_vec(name);
    let nn: usize = name.unicode_len();
    match find_last(&name_chars, '.') {
        Some(d) => {
            let ext: &str = name.substring_char(d + 1, nn);
            proof {
                assert(ext@ =~= spec_extension(name@));
            }
            allowed_extension(ext)
        },
        None => {
            proof {
                reveal_strlit("");
                assert(""@ =~= spec_extension(name@));
            }
            allowed_extension("")
        },
    }
}

} // verus!
