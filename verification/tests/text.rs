use lilac::text::{chars_of, eq_ignore_ascii_case, join, lower_of, parse_u32, replace};

#[test]
fn replace_agrees_with_the_standard_library() {
    let cases = [
        ("", "%F", "x"),
        ("%F", "%F", "song"),
        ("%F.%E", "%F", "song"),
        ("%F%F%F", "%F", ""),
        ("a%", "%F", "x"),
        ("%%F", "%F", "x"),
        ("aaa", "aa", "b"),
        ("aaaa", "aa", "a"),
        ("abcabc", "bc", "bcbc"),
        ("no tokens here", "%T", "Title"),
        ("%T by %A", "%A", "%T"),
        ("\u{00e9}%F\u{4e2d}", "%F", "\u{1F3B5}"),
        ("ab", "abc", "x"),
    ];
    for (s, from, to) in cases {
        assert_eq!(replace(s, from, to), s.replace(from, to));
    }
}

#[test]
fn replace_with_an_empty_pattern_changes_nothing() {
    assert_eq!(replace("abc", "", "x"), "abc");
    assert_eq!(replace("", "", "x"), "");
}

#[test]
fn join_agrees_with_the_standard_library() {
    let cases: [Vec<&str>; 5] =
        [vec![], vec!["one"], vec!["one", "two"], vec!["", "", ""], vec!["a", "", "b, c"]];
    for parts in cases {
        let owned: Vec<String> = parts.iter().map(|p| p.to_string()).collect();
        assert_eq!(join(&owned, ", "), parts.join(", "));
        assert_eq!(join(&owned, ""), parts.join(""));
    }
}

#[test]
fn parse_agrees_with_the_standard_library() {
    let cases = [
        "", "+", "-", "0", "7", "007", "+7", "-7", "-0", "++7", "7+", " 7", "7 ", "7a", "a7",
        "1_000", "0x10", "4294967295", "4294967296", "42949672950", "99999999999999999999",
        "+4294967295", "+4294967296", "\u{0663}", "1.0", "1e3", "3/12",
    ];
    for s in cases {
        assert_eq!(parse_u32(s), s.parse::<u32>().ok(), "on {:?}", s);
    }
}

#[test]
fn parse_reads_exact_values() {
    assert_eq!(parse_u32("12"), Some(12));
    assert_eq!(parse_u32("+0"), Some(0));
    assert_eq!(parse_u32("4294967295"), Some(u32::MAX));
    assert_eq!(parse_u32("twelve"), None);
}

#[test]
fn case_is_ignored_for_ascii_letters_only() {
    let cases = [
        ("", ""),
        ("title", "TITLE"),
        ("TiTlE", "tItLe"),
        ("title", "titles"),
        ("title", "titel"),
        ("a1-b", "A1-B"),
        ("\u{00e9}", "\u{00c9}"),
        ("\u{212a}", "k"),
        ("@", "`"),
        ("[", "{"),
    ];
    for (a, b) in cases {
        assert_eq!(eq_ignore_ascii_case(a, b), a.eq_ignore_ascii_case(b), "on {:?} {:?}", a, b);
    }
}

#[test]
fn folding_a_character_agrees_with_the_standard_library() {
    for c in ['a', 'z', 'A', 'Z', 'M', '@', '[', '0', ' ', '\u{00c9}', '\u{212a}'] {
        assert_eq!(lower_of(c), c.to_ascii_lowercase());
    }
}

#[test]
fn characters_of_a_text_come_in_order() {
    assert_eq!(chars_of("a\u{00e9}\u{1F3B5}"), vec!['a', '\u{00e9}', '\u{1F3B5}']);
    assert_eq!(chars_of(""), Vec::<char>::new());
}
