use wreckers_radio::blacklist::{
    ensure_blacklist_exists, is_blacklisted, load_blacklist, parse_blacklist, same_entries,
    BLACKLIST_FILE, STARTER,
};
use wreckers_radio::likes::{append_like, field_text, LikeKind};
use wreckers_radio::paths::{
    blacklist_candidate, default_blacklist_path, dialog_dir_and_name, dialog_start, file_name,
    file_name_or_default, ipc_path, join_path, memory_path, parent_path, Host,
};
use wreckers_radio::text::{concat2, concat3, decimal_text, split_lines};

fn strings(items: &[&str]) -> Vec<String> {
    items.iter().map(|s| s.to_string()).collect()
}

fn some(s: &str) -> Option<String> {
    Some(s.to_string())
}

fn in_white_space_list(c: char) -> bool {
    matches!(
        c as u32,
        0x9..=0xD
            | 0x20
            | 0x85
            | 0xA0
            | 0x1680
            | 0x2000..=0x200A
            | 0x2028
            | 0x2029
            | 0x202F
            | 0x205F
            | 0x3000
    )
}

#[test]
fn numbers_in_decimal() {
    for n in [0u64, 1, 9, 10, 11, 99, 100, 101, 1_700_000_000, u64::MAX] {
        assert_eq!(decimal_text(n), n.to_string());
    }
    assert_eq!(decimal_text(1205), "1205");
}

#[test]
fn texts_in_a_row() {
    assert_eq!(concat2("a", "—b"), "a—b");
    assert_eq!(concat3("a", "", "c"), "ac");
}

#[test]
fn lines_end_like_those_of_std() {
    for s in [
        "", "\n", "\n\n", "a", "a\n", "a\nb", "a\r\nb\r\n", "a\rb", "a\r", "\r", "\r\n", "\r\r\n",
        "a\n\r", "a\n\rb\r\r\nc", "é\n—\n", "\n\na",
    ] {
        let expected: Vec<String> = s.lines().map(|l| l.to_string()).collect();
        assert_eq!(split_lines(s), expected, "{:?}", s);
    }
    assert_eq!(split_lines("one\r\ntwo\nthree\r"), strings(&["one", "two", "three\r"]));
}

#[test]
fn blacklist_entries_are_trimmed_and_lower_case() {
    let content = "# comment\n  Foo Fighters \r\n\n\t#also a comment\nÉCOLE\n  \nBar#1";
    assert_eq!(
        parse_blacklist(content),
        strings(&["foo fighters", "école", "bar#1"])
    );
}

#[test]
fn starter_blocks_nothing() {
    assert!(parse_blacklist(STARTER).is_empty());
    assert_eq!(
        STARTER,
        "# One artist or track name per line.\n# Lines starting with '#' are ignored.\n"
    );
}

#[test]
fn every_character_is_an_entry_but_white_space_and_hash() {
    for c in '\0'..=char::MAX {
        let alone = parse_blacklist(&c.to_string());
        assert_eq!(alone.is_empty(), in_white_space_list(c) || c == '#', "{:?}", c);
        if in_white_space_list(c) && c != '\n' {
            assert_eq!(parse_blacklist(&format!("{c}a{c}b{c}")), vec![format!("a{c}b")]);
        }
        for entry in &alone {
            assert_eq!(entry.to_lowercase(), *entry, "{:?}", c);
            assert_eq!(entry.trim(), entry, "{:?}", c);
            assert!(!entry.chars().any(in_white_space_list), "{:?}", c);
        }
        if !alone.is_empty() {
            let first = alone[0].chars().next().unwrap();
            if c.is_ascii() {
                assert_eq!(alone[0], c.to_ascii_lowercase().to_string());
            } else {
                assert!(!first.is_ascii() || first.is_ascii_alphabetic(), "{:?}", c);
                let last = alone[0].chars().last().unwrap();
                assert!(!last.is_ascii() || last.is_ascii_alphabetic(), "{:?}", c);
            }
        }
    }
}

#[test]
fn unreadable_blacklist_is_empty() {
    assert!(load_blacklist(None).is_empty());
    assert_eq!(load_blacklist(some("A\nb")), strings(&["a", "b"]));
}

#[test]
fn lines_are_independent() {
    for (a, b) in [("", ""), ("A", "b"), ("a\r", "#c\nd"), ("x\n", "\ny"), ("#", "z")] {
        let mut expected = parse_blacklist(a);
        expected.extend(parse_blacklist(b));
        assert_eq!(parse_blacklist(&format!("{a}\n{b}")), expected);
    }
}

#[test]
fn comment_changes_nothing() {
    assert_eq!(
        parse_blacklist("abba\n# no more"),
        parse_blacklist("abba")
    );
    assert_eq!(parse_blacklist("  \nabba"), parse_blacklist("abba"));
}

#[test]
fn tracks_match_whatever_their_case() {
    let list = strings(&["abba", "waterloo sunset"]);
    assert!(is_blacklisted("ABBA", "Waterloo", &list));
    assert!(is_blacklisted("The Kinks", "Waterloo Sunset", &list));
    assert!(is_blacklisted("Sabbath", "abbacus", &list));
    assert!(!is_blacklisted("The Kinks", "Lola", &list));
    assert!(!is_blacklisted("", "", &list));
}

#[test]
fn line_of_a_file_keeps_out() {
    let list = parse_blacklist("# mine\nqueen\n  aBBa\t\nkinks");
    assert!(is_blacklisted("ABBA", "SOS", &list));
    assert!(is_blacklisted("abba", "sos", &list));
    assert!(is_blacklisted("x", "Queen", &list));
    assert!(!is_blacklisted("mine", "x", &list));
}

#[test]
fn entry_may_span_artist_and_title() {
    assert!(is_blacklisted("The Kinks", "Lola", &strings(&["kinks lola"])));
    assert!(!is_blacklisted("The Kinks", "Lola", &strings(&["kinkslola"])));
}

#[test]
fn case_of_entries_is_ignored() {
    assert!(is_blacklisted("ABBA", "Waterloo", &strings(&["ABBA"])));
    assert!(is_blacklisted("abba", "waterloo", &strings(&["x", "WaterLOO"])));
    assert!(is_blacklisted("björk", "Jóga", &strings(&["BJÖRK"])));
}

#[test]
fn listed_names_match_in_every_alphabet() {
    for name in ["Björk", "ΟΔΥΣΣΕΑΣ", "Σ", "ΣΑΣ.", "İstanbul", "Кино", "ǅ", "ẞ"] {
        for entry in [name.to_string(), name.to_lowercase()] {
            assert!(is_blacklisted(name, "T", &strings(&[&entry])), "{name}");
            assert!(is_blacklisted("ΑΣ", name, &strings(&["x", &entry])), "{name}");
        }
    }
    assert!(!is_blacklisted("Bjork", "T", &strings(&["björk"])));
}

#[test]
fn texts_around_a_space_have_lower_case_forms_of_their_own() {
    for c in '\0'..=char::MAX {
        for (a, b) in [
            (format!("{c}"), format!("Σ{c}")),
            (format!("{c}Σ"), format!("{c}Σ{c}")),
            (format!("AΣ{c}"), format!("{c}")),
        ] {
            let both = format!("{a} {b}").to_lowercase();
            assert_eq!(both, format!("{} {}", a.to_lowercase(), b.to_lowercase()), "{c:?}");
        }
    }
}

#[test]
fn case_of_other_letters_is_ignored_too() {
    assert!(is_blacklisted("BJÖRK", "Jóga", &strings(&["björk"])));
    assert!(is_blacklisted("x", "ΟΔΟΣ", &strings(&["οδος"])));
}

#[test]
fn empty_blacklist_matches_nothing() {
    assert!(!is_blacklisted("a", "b", &[]));
}

#[test]
fn empty_entry_matches_everything() {
    assert!(is_blacklisted("a", "b", &strings(&[""])));
}

#[test]
fn more_entries_never_let_through() {
    assert!(is_blacklisted("abba", "x", &strings(&["zz", "abba"])));
    assert!(is_blacklisted("abba", "x", &strings(&["abba", "zz"])));
}

#[test]
fn same_entries_compares_in_order() {
    assert!(same_entries(&strings(&["a", "b"]), &strings(&["a", "b"])));
    assert!(!same_entries(&strings(&["a", "b"]), &strings(&["b", "a"])));
    assert!(!same_entries(&strings(&["a"]), &strings(&["a", "b"])));
    assert!(same_entries(&vec![], &vec![]));
}

#[test]
fn existing_file_is_not_overwritten() {
    assert_eq!(ensure_blacklist_exists(true), None);
    assert_eq!(ensure_blacklist_exists(false).as_deref(), Some(STARTER));
}

#[test]
fn dialog_starts_next_to_the_file() {
    assert_eq!(
        dialog_dir_and_name("Blacklist.txt"),
        (".".to_string(), "Blacklist.txt".to_string())
    );
    assert_eq!(
        dialog_dir_and_name("/home/me/mine.txt"),
        ("/home/me".to_string(), "mine.txt".to_string())
    );
    assert_eq!(
        dialog_dir_and_name("lists/"),
        (".".to_string(), "lists".to_string())
    );
    assert_eq!(
        dialog_dir_and_name("/"),
        (".".to_string(), BLACKLIST_FILE.to_string())
    );
    assert_eq!(
        dialog_dir_and_name(""),
        (".".to_string(), BLACKLIST_FILE.to_string())
    );
    assert_eq!(
        dialog_dir_and_name("a/.."),
        ("a".to_string(), BLACKLIST_FILE.to_string())
    );
}

#[test]
fn split_path_joined_again_is_the_path() {
    for (dir, name) in [
        ("a", "b"),
        ("/home/me", "mine.txt"),
        (".", "b.txt"),
        ("..", "b.txt"),
        ("a/..", "b"),
        ("a/./b", "c"),
        ("a//b", "c"),
        ("/a", "..b"),
        ("é.", "—"),
    ] {
        let path = format!("{dir}/{name}");
        assert_eq!(dialog_dir_and_name(&path), (dir.to_string(), name.to_string()));
        if std::path::MAIN_SEPARATOR == '/' {
            assert_eq!(join_path(dir, name), path);
        }
    }
}

/// The components of a path that divides at its slashes.
fn slash_components(path: &str) -> Vec<String> {
    let mut r = Vec::new();
    if path.starts_with('/') {
        r.push("/".to_string());
    } else if path == "." || path.starts_with("./") {
        r.push(".".to_string());
    }
    let pieces = path.split('/').filter(|p| !p.is_empty() && *p != ".");
    r.extend(pieces.map(|p| p.to_string()));
    r
}

#[test]
fn paths_divide_at_their_slashes() {
    let mut paths = vec![String::new()];
    let mut longest = paths.clone();
    for _ in 0..8 {
        longest = longest
            .iter()
            .flat_map(|p| ['/', '.', 'a'].map(|c| format!("{p}{c}")))
            .collect();
        paths.extend(longest.iter().cloned());
    }
    for path in paths.iter().filter(|p| !p.starts_with("//")) {
        let c = slash_components(path);
        let named = c.last().filter(|n| !["/", ".", ".."].contains(&n.as_str()));
        assert_eq!(file_name(path).as_ref(), named, "{path}");
        let parent = parent_path(path);
        assert_eq!(parent.is_some(), !c.is_empty() && c != ["/"], "{path}");
        if let Some(parent) = &parent {
            assert_eq!(slash_components(parent), c[..c.len() - 1], "{path}");
        }
        let (dir, name) = dialog_dir_and_name(path);
        assert_eq!(name, named.map_or("Blacklist.txt", |n| n.as_str()), "{path}");
        if c.len() <= 1 {
            assert_eq!(dir, ".", "{path}");
        } else if named.is_some() {
            let joined = std::path::Path::new(&dir).join(&name);
            assert_eq!(joined, std::path::Path::new(path), "{path}");
            assert_eq!(slash_components(&format!("{dir}/{name}")), c, "{path}");
        }
    }
}

#[test]
fn file_in_the_root_is_split() {
    assert_eq!(dialog_dir_and_name("/b.txt"), ("/".to_string(), "b.txt".to_string()));
    assert_eq!(parent_path("/b.txt").as_deref(), Some("/"));
    for path in ["", "/"] {
        assert_eq!(parent_path(path), None);
        assert_eq!(file_name(path), None);
        assert_eq!(
            dialog_dir_and_name(path),
            (".".to_string(), "Blacklist.txt".to_string())
        );
    }
}

#[test]
fn dialog_start_has_defaults() {
    assert_eq!(
        dialog_start(None, None),
        (".".to_string(), "Blacklist.txt".to_string())
    );
    assert_eq!(
        dialog_start(some(""), some("x")),
        (".".to_string(), "x".to_string())
    );
    assert_eq!(
        dialog_start(some("d"), some("x")),
        ("d".to_string(), "x".to_string())
    );
    assert_eq!(file_name_or_default(None), "Blacklist.txt");
    assert_eq!(file_name_or_default(some("y")), "y");
}

#[test]
fn paths_divide_and_join() {
    assert_eq!(parent_path("a/b"), some("a"));
    assert_eq!(parent_path("a"), some(""));
    assert_eq!(parent_path("/"), None);
    assert_eq!(file_name("a/b.txt"), some("b.txt"));
    assert_eq!(file_name("b.txt"), some("b.txt"));
    assert_eq!(file_name(".."), None);
    if std::path::MAIN_SEPARATOR == '/' {
        assert_eq!(join_path("a", "b"), "a/b");
        assert_eq!(join_path("a/", "b"), "a/b");
        assert_eq!(join_path("", "b"), "b");
        assert_eq!(join_path("a", ""), "a/");
        assert_eq!(join_path("a", "/b"), "/b");
    }
}

#[test]
fn blacklist_next_to_the_program_comes_first() {
    let candidate = blacklist_candidate(some("bin/wreckers"));
    let joined = join_path("bin", BLACKLIST_FILE);
    assert_eq!(candidate, Some(joined.clone()));
    assert_eq!(default_blacklist_path(candidate.clone(), true), joined);
    assert_eq!(default_blacklist_path(candidate, false), "Blacklist.txt");
    assert_eq!(blacklist_candidate(None), None);
    assert_eq!(blacklist_candidate(some("/")), None);
    assert_eq!(default_blacklist_path(None, true), "Blacklist.txt");
}

#[test]
fn liked_tracks_are_under_the_home_directory() {
    if std::path::MAIN_SEPARATOR == '/' {
        assert_eq!(
            memory_path(some("/home/me"), some("other")),
            "/home/me/.local/bin/wreckers.data"
        );
        assert_eq!(
            memory_path(None, some("/users/me/")),
            "/users/me/.local/bin/wreckers.data"
        );
        assert_eq!(memory_path(None, None), "./.local/bin/wreckers.data");
        assert_eq!(memory_path(some(""), None), ".local/bin/wreckers.data");
    }
}

#[test]
fn endpoint_of_each_process() {
    let unix = Host::Unix { temp_dir: "/tmp".to_string() };
    assert_eq!(ipc_path(&unix, 4711), "/tmp/wreckersradio-mpv-4711.sock");
    let slash = Host::Unix { temp_dir: "/tmp/".to_string() };
    assert_eq!(ipc_path(&slash, 1), "/tmp/wreckersradio-mpv-1.sock");
    let none = Host::Unix { temp_dir: String::new() };
    assert_eq!(ipc_path(&none, 1), "wreckersradio-mpv-1.sock");
    assert_eq!(ipc_path(&Host::Windows, 12), "\\\\.\\pipe\\wreckersradio-mpv-12");
    assert_ne!(ipc_path(&unix, 1), ipc_path(&unix, 2));
    assert_ne!(ipc_path(&Host::Windows, 1), ipc_path(&Host::Windows, 11));
}

#[test]
fn line_of_a_like() {
    assert_eq!(
        append_like(1700000000, LikeKind::Like, "ABBA", "SOS"),
        "1700000000\tLIKE\tABBA\tSOS\n"
    );
    assert_eq!(
        append_like(0, LikeKind::ReallyLike, "", "Mamma — Mia"),
        "0\tREALLY_LIKE\t\tMamma — Mia\n"
    );
}

#[test]
fn names_with_tabs_and_newlines_make_one_line_too() {
    assert_eq!(
        append_like(5, LikeKind::Like, "A\nB", "T"),
        "5\tLIKE\tA B\tT\n"
    );
    assert_eq!(
        append_like(5, LikeKind::Like, "a\tb", "c\r\nd\r"),
        "5\tLIKE\ta b\tc\r d\r\n"
    );
    assert_eq!(field_text("a\tb\nc\rd e"), "a b c\rd e");
}

#[test]
fn carriage_return_in_a_name_is_kept() {
    assert_eq!(
        append_like(5, LikeKind::ReallyLike, "A\rB", "T"),
        "5\tREALLY_LIKE\tA\rB\tT\n"
    );
}

#[test]
fn one_line_for_each_like() {
    let first = append_like(7, LikeKind::Like, "a", "b");
    let second = append_like(8, LikeKind::ReallyLike, "c", "d");
    let file = format!("{first}{second}");
    let lines = split_lines(&file);
    assert_eq!(lines, strings(&["7\tLIKE\ta\tb", "8\tREALLY_LIKE\tc\td"]));
    let fields: Vec<&str> = lines[1].split('\t').collect();
    assert_eq!(fields, vec!["8", "REALLY_LIKE", "c", "d"]);
}
