use dirsearch::clamp;
use dirsearch::count::count_in_text;
use dirsearch::filter::is_eligible;
use dirsearch::notices::{dir_notice, file_notice, read_error_notice, skip_notice};
use dirsearch::options::Options;
use dirsearch::result::{File, Output};
use dirsearch::walk::{search, search_file, search_folder, DirNode, FsEntry};

fn opts(term: &str, silent: bool) -> Options {
    let mut o = Options {
        silent,
        path: String::from("root"),
        find: false,
        str_to_find: String::from(term),
    };
    o.update();
    o
}

fn file_entry(path: &str, content: Option<&str>) -> FsEntry {
    FsEntry::FileNode {
        path: String::from(path),
        content: content.map(String::from),
    }
}

#[test]
fn count_is_non_overlapping() {
    assert_eq!(count_in_text("aaa", "aa"), 1);
}

#[test]
fn count_resumes_after_match() {
    assert_eq!(count_in_text("aaaa", "aa"), 2);
    assert_eq!(count_in_text("aaaaa", "aa"), 2);
    assert_eq!(count_in_text("ababab", "aba"), 1);
}

#[test]
fn count_simple_cases() {
    assert_eq!(count_in_text("hello hello", "hello"), 2);
    assert_eq!(count_in_text("hello", "hello"), 1);
    assert_eq!(count_in_text("help", "hello"), 0);
    assert_eq!(count_in_text("", "hello"), 0);
    assert_eq!(count_in_text("hello", ""), 0);
}

#[test]
fn count_handles_multibyte_text() {
    assert_eq!(count_in_text("h\u{e9}llo h\u{e9}llo", "\u{e9}"), 2);
    assert_eq!(count_in_text("h\u{e9}llo h\u{e9}llo", "h\u{e9}llo"), 2);
    assert_eq!(count_in_text("h\u{e9}llo", "hello"), 0);
}

#[test]
fn eligible_known_extensions() {
    for name in [
        "a.txt", "a.py", "a.pyw", "a.c", "a.cpp", "a.rs", "a.bat", "a.cmd", "a.toml", "a.md",
        "a.log", "a.cs",
    ] {
        assert!(is_eligible(name), "{name} should be eligible");
    }
}

#[test]
fn eligible_notes_md_not_image_png() {
    assert!(is_eligible("notes.md"));
    assert!(!is_eligible("image.png"));
}

#[test]
fn eligible_looks_at_final_component() {
    assert!(is_eligible("root/sub/notes.md"));
    assert!(!is_eligible("root/a.txt/image.png"));
}

#[test]
fn eligible_edge_cases() {
    assert!(!is_eligible("noextension"));
    assert!(!is_eligible("trailingdot."));
    assert!(!is_eligible("archive.tar.gz"));
    assert!(is_eligible("archive.tar.md"));
    assert!(!is_eligible("A.TXT"));
    assert!(is_eligible(".md"));
    assert!(!is_eligible(""));
}

#[test]
fn update_derives_find_from_term() {
    let mut o = Options::default();
    assert!(!o.find);
    o.str_to_find = String::from("needle");
    o.update();
    assert!(o.find);
    o.str_to_find = String::new();
    o.update();
    assert!(!o.find);
}

#[test]
fn default_options() {
    let o = Options::default();
    assert_eq!(o.path, ".");
    assert!(!o.silent);
    assert!(!o.find);
    assert_eq!(o.str_to_find, "");
}

#[test]
fn clone_but_change_path_keeps_the_rest() {
    let o = opts("needle", true);
    let c = o.clone_but_change_path(String::from("elsewhere"));
    assert_eq!(c.path, "elsewhere");
    assert!(c.silent);
    assert!(c.find);
    assert_eq!(c.str_to_find, "needle");
}

#[test]
fn show_with_term() {
    let o = opts("needle", false);
    assert_eq!(
        o.show(),
        "\nSelected path is: root\nSilent mode is off.\nSearch system will track: 'needle'."
    );
}

#[test]
fn show_without_term() {
    let o = opts("", true);
    assert_eq!(
        o.show(),
        "\nSelected path is: root\nSilent mode is on.\nSearch system is desactivated."
    );
}

#[test]
fn scan_file_counts_hits() {
    let o = opts("hello", true);
    let out = search_file(&o, Some("hello hello"));
    assert_eq!(out.positively_searched_files.len(), 1);
    assert_eq!(out.positively_searched_files[0].path, "root");
    assert_eq!(out.positively_searched_files[0].times, 2);
}

#[test]
fn scan_file_zero_hits_suppressed() {
    let o = opts("needle", true);
    let out = search_file(&o, Some("haystack without the word"));
    assert_eq!(out.positively_searched_files.len(), 0);
}

#[test]
fn scan_file_unreadable_contributes_nothing() {
    let o = opts("needle", true);
    let out = search_file(&o, None);
    assert_eq!(out.positively_searched_files.len(), 0);
}

#[test]
fn scan_file_empty_term_never_matches() {
    let o = opts("", true);
    let out = search_file(&o, Some("any content at all"));
    assert_eq!(out.positively_searched_files.len(), 0);
}

#[test]
fn merge_concatenates_in_order() {
    let mut a = Output::from(File {
        path: String::from("a"),
        times: 1,
    });
    let b = Output::from(File {
        path: String::from("b"),
        times: 2,
    });
    a.update(b);
    let paths: Vec<&str> = a
        .positively_searched_files
        .iter()
        .map(|f| f.path.as_str())
        .collect();
    assert_eq!(paths, ["a", "b"]);
}

#[test]
fn merge_is_associative() {
    let make = || {
        [("a", 1), ("b", 2), ("c", 3)].map(|(p, t)| {
            Output::from(File {
                path: String::from(p),
                times: t,
            })
        })
    };
    let [a1, b1, c1] = make();
    let [a2, b2, c2] = make();

    let mut left = a1;
    left.update(b1);
    left.update(c1);

    let mut right = b2;
    right.update(c2);
    let mut right_total = a2;
    right_total.update(right);

    let view = |o: &Output| {
        o.positively_searched_files
            .iter()
            .map(|f| (f.path.clone(), f.times))
            .collect::<Vec<_>>()
    };
    assert_eq!(view(&left), view(&right_total));
    assert_eq!(left.total_occurrences(), right_total.total_occurrences());
}

#[test]
fn aggregate_totals() {
    let mut out = Output::from(File {
        path: String::from("A"),
        times: 2,
    });
    out.update(Output::from(File {
        path: String::from("B"),
        times: 0,
    }));
    out.update(Output::from(File {
        path: String::from("C"),
        times: 5,
    }));
    assert_eq!(out.total_occurrences(), 7);
    assert_eq!(out.matching_file_count(), 2);
}

#[test]
fn pluralization_singular_and_plural() {
    let o = opts("x", true);
    let mut out = Output::from(File {
        path: String::from("one"),
        times: 1,
    });
    out.update(Output::from(File {
        path: String::from("two"),
        times: 2,
    }));
    let msg = out.display(&o, 4);
    assert!(msg.contains("found: 1   time in: one"));
    assert!(msg.contains("found: 2   times in: two"));
    assert!(msg.contains("Keyword: 'x' found 3 times in 2 files"));
}

#[test]
fn summary_singular_for_single_total() {
    let o = opts("x", true);
    let out = Output::from(File {
        path: String::from("one"),
        times: 1,
    });
    let msg = out.display(&o, 4);
    assert!(msg.contains("Keyword: 'x' found 1 time in 1 files"));
}

#[test]
fn summary_plural_for_zero_total() {
    let o = opts("x", true);
    let out = Output::default();
    assert_eq!(
        out.display(&o, 3),
        "===\n===\nKeyword: 'x' found 0 times in 0 files"
    );
}

#[test]
fn line_plural_for_zero_count() {
    let o = opts("", true);
    let out = Output::from(File {
        path: String::from("p"),
        times: 0,
    });
    let mut hand_built = out;
    hand_built.positively_searched_files.push(File {
        path: String::from("q"),
        times: 0,
    });
    assert!(hand_built.display(&o, 3).contains("found: 0   times in: q"));
}

#[test]
fn padding_to_field_width_three() {
    let o = opts("x", true);
    let out = Output::from(File {
        path: String::from("p"),
        times: 7,
    });
    let msg = out.display(&o, 4);
    assert!(msg.contains("found: 7   times in: p"));
}

#[test]
fn no_padding_for_wide_counts() {
    let o = opts("x", true);
    let mut out = Output::from(File {
        path: String::from("p"),
        times: 1234,
    });
    out.update(Output::from(File {
        path: String::from("q"),
        times: 123,
    }));
    let msg = out.display(&o, 4);
    assert!(msg.contains("found: 1234 times in: p"));
    assert!(msg.contains("found: 123 times in: q"));
}

#[test]
fn display_exact_report() {
    let o = opts("x", true);
    let out = Output::from(File {
        path: String::from("p"),
        times: 2,
    });
    assert_eq!(
        out.display(&o, 5),
        "=====\nfound: 2   times in: p\n=====\nKeyword: 'x' found 2 times in 1 files"
    );
}

#[test]
fn display_without_search_has_no_summary() {
    let o = opts("", true);
    let out = Output::default();
    assert_eq!(out.display(&o, 3), "===\n===");
}

#[test]
fn display_with_zero_width_rules() {
    let o = opts("", true);
    let out = Output::default();
    assert_eq!(out.display(&o, 0), "\n");
}

#[test]
fn empty_term_disables_search_over_tree() {
    let o = opts("", true);
    let root = DirNode {
        path: String::from("root"),
        entries: vec![
            file_entry("root/a.txt", Some("anything anything")),
            FsEntry::Dir(DirNode {
                path: String::from("root/sub"),
                entries: vec![file_entry("root/sub/b.txt", Some("anything"))],
            }),
        ],
    };
    let out = search(&o, &root);
    assert_eq!(out.positively_searched_files.len(), 0);
    assert!(!out.display(&o, 3).contains("Keyword"));
}

#[test]
fn recursive_traversal_scenario() {
    let o = opts("hello", true);
    let root = DirNode {
        path: String::from("root"),
        entries: vec![
            file_entry("root/a.txt", Some("hello hello")),
            FsEntry::Dir(DirNode {
                path: String::from("root/sub"),
                entries: vec![file_entry("root/sub/b.txt", Some("hello"))],
            }),
            file_entry("root/c.png", Some("hello")),
        ],
    };
    let out = search(&o, &root);
    let records: Vec<(String, usize)> = out
        .positively_searched_files
        .iter()
        .map(|f| (f.path.clone(), f.times))
        .collect();
    assert_eq!(
        records,
        [
            (String::from("root/a.txt"), 2),
            (String::from("root/sub/b.txt"), 1)
        ]
    );
    assert_eq!(out.total_occurrences(), 3);
    assert_eq!(out.matching_file_count(), 2);
}

#[test]
fn walker_skips_other_entries_and_failed_reads() {
    let o = opts("hello", true);
    let root = DirNode {
        path: String::from("root"),
        entries: vec![
            FsEntry::Other,
            file_entry("root/broken.txt", None),
            FsEntry::Dir(DirNode {
                path: String::from("root/empty"),
                entries: vec![],
            }),
            file_entry("root/ok.txt", Some("hello")),
        ],
    };
    let out = search_folder(&o, &root);
    assert_eq!(out.matching_file_count(), 1);
    assert_eq!(out.positively_searched_files[0].path, "root/ok.txt");
}

#[test]
fn file_new_starts_with_zero() {
    let f = File::new(String::from("p"));
    assert_eq!(f.path, "p");
    assert_eq!(f.times, 0);
}

#[test]
fn clamp_bounds() {
    assert_eq!(clamp(5, 0, 100), 5);
    assert_eq!(clamp(5, 7, 100), 7);
    assert_eq!(clamp(500, 0, 100), 100);
    assert_eq!(clamp(2, 2, 2), 2);
}

#[test]
fn notice_texts() {
    assert_eq!(dir_notice("d"), "Searching in dir: d");
    assert_eq!(file_notice("f"), "Searching in file: f");
    assert_eq!(
        skip_notice("image.png", "png"),
        "Skipped file - bad extension: 'image.png: png'"
    );
    assert_eq!(
        read_error_notice("f", "denied"),
        "Got an error reading the file: f\nError: denied"
    );
}
