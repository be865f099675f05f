//! The recursive directory walk: visit a captured directory tree depth
//! first, dispatch eligible files to the scanner, recurse into
//! subdirectories, and merge the results in entry order.

use vstd::prelude::*;
use crate::count::{count_in_text, spec_count_occurrences};
use crate::filter::{is_eligible, spec_is_eligible};
use crate::options::Options;
use crate::result::{File, FileView, Output, lemma_all_positive_merge, spec_all_positive};

verus! {

/// A captured directory: its path and its immediate entries, in the order
/// the filesystem enumerated them. A directory whose enumeration failed is
/// captured with no entries, so an unreadable subtree contributes nothing.
pub struct DirNode {
    pub path: String,
    pub entries: Vec<FsEntry>,
}

/// One directory entry, as the filesystem reported it.
pub enum FsEntry {
    /// A subdirectory, recursed into.
    Dir(DirNode),
    /// A regular file: its path, and its whole text content, or `None` when
    /// it could not be read as text.
    FileNode { path: String, content: Option<String> },
    /// Any other kind of entry (symbolic link, device, ...): ignored.
    Other,
}

/// The records contributed by one read file: exactly one record, carrying
/// the occurrence count, iff search is enabled and the term occurs; an
/// unreadable file (`None`) contributes nothing.
pub open spec fn spec_scan_file(
    path: Seq<char>,
    content: Option<Seq<char>>,
    find: bool,
    term: Seq<char>,
) -> Seq<FileView> {
    match content {
        Option::Some(text) => if find && spec_count_occurrences(text, term) > 0 {
            seq![(FileView { path: path, times: spec_count_occurrences(text, term) })]
        } else {
            Seq::empty()
        },
        Option::None => Seq::empty(),
    }
}

/// The records of a whole directory: its entries' records, concatenated in
/// enumeration order.
pub open spec fn spec_search_dir(d: DirNode, find: bool, term: Seq<char>) -> Seq<FileView>
    decreases d,
{
    spec_search_entries(d.entries@, find, term)
}

/// The records of a sequence of entries, in order.
pub open spec fn spec_search_entries(es: Seq<FsEntry>, find: bool, term: Seq<char>) -> Seq<
    FileView,
>
    decreases es,
{
    if es.len() == 0 {
        Seq::empty()
    } else {
        spec_search_entries(es.drop_last(), find, term) + spec_search_entry(es.last(), find, term)
    }
}

/// The records of one entry: a subdirectory's whole subtree, an eligible
/// file's scan, and nothing for ineligible files or other entry kinds.
pub open spec fn spec_search_entry(e: FsEntry, find: bool, term: Seq<char>) -> Seq<FileView>
    decreases e,
{
    match e {
        FsEntry::Dir(d) => spec_search_dir(d, find, term),
        FsEntry::FileNode { path, content } => if spec_is_eligible(path@) {
            spec_scan_file(
                path@,
                match content {
                    Option::Some(c) => Option::Some(c@),
                    Option::None => Option::None,
                },
                find,
                term,
            )
        } else {
            Seq::empty()
        },
        FsEntry::Other => Seq::empty(),
    }
}

/// Scans one file whose text was already read: emits a record iff search is
/// enabled and the term occurs in the content. `options.path` names the
/// file; a file that could not be read (`None`) contributes nothing.
pub fn search_file(options: &Options, content: Option<&str>) -> (out: Output)
    ensures
        out@ == spec_scan_file(
            options.path@,
            match content {
                Option::Some(c) => Option::Some(c@),
                Option::None => Option::None,
            },
            options.find,
            options.str_to_find@,
        ),
{
    let mut file = File::new(options.path.clone());
    match content {
        Option::Some(text) => {
            if options.find {
                file.times = count_in_text(text, options.str_to_find.as_str());
            }
        },
        Option::None => {},
    }
    Output::from(file)
}

/// Walks a captured directory depth first: recurses into subdirectories,
/// scans eligible files, and merges everything in entry order.
pub fn search_folder(options: &Options, dir: &DirNode) -> (out: Output)
    ensures
        out@ == spec_search_dir(*dir, options.find, options.str_to_find@),
    decreases *dir,
{
    let mut output = Output::default();
    let n: usize = dir.entries.len();
    let mut i: usize = 0;
    let ghost find = options.find;
    let ghost term = options.str_to_find@;
    proof {
        assert(dir.entries@.take(0) =~= Seq::<FsEntry>::empty());
    }
    while i < n
        invariant
            i <= n,
            n == dir.entries@.len(),
            find == options.find,
            term == options.str_to_find@,
            output@ == spec_search_entries(dir.entries@.take(i as int), find, term),
        decreases n - i,
    {
        let entry = &dir.entries[i];
        match entry {
            FsEntry::Dir(sub) => {
                proof {
                    assert(decreases_to!(*dir => dir.entries));
                    assert(decreases_to!(dir.entries => dir.entries@));
                    assert(decreases_to!(dir.entries@ => dir.entries@[i as int]));
                    assert(decreases_to!(dir.entries@[i as int] => *sub));
                }
                let child = options.clone_but_change_path(sub.path.clone());
                let sub_out = search_folder(&child, sub);
                proof {
                    assert(dir.entries@[i as int] == FsEntry::Dir(*sub));
                    assert(sub_out@ == spec_search_entry(dir.entries@[i as int], find, term));
                }
                output.update(sub_out);
            },
            FsEntry::FileNode { path, content } => {
                proof {
                    assert(dir.entries@[i as int] == (FsEntry::FileNode {
                        path: *path,
                        content: *content,
                    }));
                }
                if is_eligible(path.as_str()) {
                    let child = options.clone_but_change_path(path.clone());
                    let content_ref: Option<&str> = match content {
                        Option::Some(c) => Option::Some(c.as_str()),
                        Option::None => Option::None,
                    };
                    let file_out = search_file(&child, content_ref);
                    proof {
                        assert(file_out@ == spec_search_entry(dir.entries@[i as int], find, term));
                    }
                    output.update(file_out);
                }
            },
            FsEntry::Other => {},
        }
        proof {
            let es = dir.entries@;
            let t1 = es.take(i + 1 as int);
            assert(t1.len() == i + 1);
            assert(t1.drop_last() =~= es.take(i as int));
            assert(t1.last() == es[i as int]);
            assert(spec_search_entries(t1, find, term) == spec_search_entries(
                t1.drop_last(),
                find,
                term,
            ) + spec_search_entry(t1.last(), find, term));
            assert(output@ =~= spec_search_entries(t1, find, term));
        }
        i = i + 1;
    }
    proof {
        assert(dir.entries@.take(n as int) =~= dir.entries@);
    }
    output
}

/// Runs a whole search: walks the tree rooted at `dir` and returns the
/// aggregated result.
pub fn search(options: &Options, dir: &DirNode) -> (out: Output)
    ensures
        out@ == spec_search_dir(*dir, options.find, options.str_to_find@),
{
    let mut output = Output::default();
    output.update(search_folder(options, dir));
    proof {
        assert(output@ =~= spec_search_dir(*dir, options.find, options.str_to_find@));
    }
    output
}

/// An empty term never matches, so no entry of `es` contributes a record.
proof fn lemma_empty_term_entries(es: Seq<FsEntry>, find: bool)
    ensures
        spec_search_entries(es, find, Seq::<char>::empty()) == Seq::<FileView>::empty(),
    decreases es,
{
    if es.len() != 0 {
        lemma_empty_term_entries(es.drop_last(), find);
        lemma_empty_term_entry(es.last(), find);
        assert(spec_search_entries(es, find, Seq::<char>::empty()) =~= Seq::<FileView>::empty());
    }
}

/// An empty term never matches, so `e` contributes no record.
proof fn lemma_empty_term_entry(e: FsEntry, find: bool)
    ensures
        spec_search_entry(e, find, Seq::<char>::empty()) == Seq::<FileView>::empty(),
    decreases e,
{
    match e {
        FsEntry::Dir(d) => {
            lemma_empty_term_entries(d.entries@, find);
        },
        FsEntry::FileNode { path, content } => {},
        FsEntry::Other => {},
    }
}

/// An empty search term disables search: whatever the tree holds and
/// whatever the `find` flag says, no file is ever reported.
pub proof fn lemma_empty_term_disables_search(d: DirNode, find: bool)
    ensures
        spec_search_dir(d, find, Seq::<char>::empty()) == Seq::<FileView>::empty(),
{
    lemma_empty_term_entries(d.entries@, find);
}

/// Every record of `es`'s result shows at least one occurrence.
proof fn lemma_only_hits_entries(es: Seq<FsEntry>, find: bool, term: Seq<char>)
    ensures
        spec_all_positive(spec_search_entries(es, find, term)),
    decreases es,
{
    if es.len() != 0 {
        lemma_only_hits_entries(es.drop_last(), find, term);
        lemma_only_hits_entry(es.last(), find, term);
        lemma_all_positive_merge(
            spec_search_entries(es.drop_last(), find, term),
            spec_search_entry(es.last(), find, term),
        );
    }
}

/// Every record of `e`'s result shows at least one occurrence.
proof fn lemma_only_hits_entry(e: FsEntry, find: bool, term: Seq<char>)
    ensures
        spec_all_positive(spec_search_entry(e, find, term)),
    decreases e,
{
    match e {
        FsEntry::Dir(d) => {
            lemma_only_hits_entries(d.entries@, find, term);
        },
        FsEntry::FileNode { path, content } => {},
        FsEntry::Other => {},
    }
}

/// Zero-hit suppression: a file with no occurrence of the term never
/// appears in a result, so every reported record shows `times > 0`.
pub proof fn lemma_only_hits_reported(d: DirNode, find: bool, term: Seq<char>)
    ensures
        spec_all_positive(spec_search_dir(d, find, term)),
{
    lemma_only_hits_entries(d.entries@, find, term);
}

} // verus!
