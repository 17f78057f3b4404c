use rustiq::text::{components_of, decimal_string, join_lines, line_count, split_lines, strip_trailing_newlines, trim_str, paths_equal, to_hex_lower};

fn strings(v: &[&str]) -> Vec<String> {
    v.iter().map(|s| s.to_string()).collect()
}

#[test]
fn decimal_renders_numbers() {
    assert_eq!(decimal_string(0), "0");
    assert_eq!(decimal_string(7), "7");
    assert_eq!(decimal_string(42), "42");
    assert_eq!(decimal_string(1234567), "1234567");
    assert_eq!(decimal_string(usize::MAX), usize::MAX.to_string());
}

#[test]
fn hex_is_lower_case_two_digits_per_byte() {
    assert_eq!(to_hex_lower(&vec![0x00, 0x0f, 0xab, 0xff]), "000fabff");
    assert_eq!(to_hex_lower(&vec![]), "");
}

#[test]
fn split_lines_follows_str_lines() {
    assert_eq!(split_lines("a\nb\r\nc"), strings(&["a", "b", "c"]));
    assert_eq!(split_lines("a\n"), strings(&["a"]));
    assert_eq!(split_lines(""), Vec::<String>::new());
    assert_eq!(split_lines("\n\n"), strings(&["", ""]));
    assert_eq!(split_lines("x\r"), strings(&["x\r"]));
    assert_eq!(split_lines("a\r\n\r\nb\n"), strings(&["a", "", "b"]));
    for s in ["a\nb\r\nc", "a\n", "", "\n\n", "x\r", "héllo\nwörld"] {
        let expected: Vec<String> = s.lines().map(str::to_string).collect();
        assert_eq!(split_lines(s), expected);
    }
}

#[test]
fn line_count_matches_split_lines() {
    for s in ["a\nb\r\nc", "a\n", "", "\n\n", "one", "x\n\ny\n"] {
        assert_eq!(line_count(s), split_lines(s).len());
        assert_eq!(line_count(s), s.lines().count());
    }
}

#[test]
fn trailing_newlines_are_stripped() {
    assert_eq!(strip_trailing_newlines("ab\n\n"), "ab");
    assert_eq!(strip_trailing_newlines("a\nb"), "a\nb");
    assert_eq!(strip_trailing_newlines("\n"), "");
    assert_eq!(strip_trailing_newlines("x\r\n"), "x\r");
}

#[test]
fn join_lines_joins_a_range() {
    let v = strings(&["a", "b", "c", "d"]);
    assert_eq!(join_lines(&v, 1, 3), "b\nc");
    assert_eq!(join_lines(&v, 0, 4), "a\nb\nc\nd");
    assert_eq!(join_lines(&v, 2, 2), "");
}

#[test]
fn paths_compare_by_component() {
    assert_eq!(components_of("a//b/./c/"), vec!["a", "b", "c"]);
    assert_eq!(components_of("/x"), vec!["/", "x"]);
    assert_eq!(components_of("./x"), vec![".", "x"]);
    assert_eq!(components_of("."), vec!["."]);
    assert_eq!(components_of(""), Vec::<String>::new());
    let eq = |a: &str, b: &str| paths_equal(&a.to_string(), &b.to_string());
    for (a, b) in [("a//b", "a/b"), ("a/./b/", "a/b"), ("/a", "a"), ("./a", "a"), ("a/..", "a"), ("", "."), ("a/b", "a/c")] {
        assert_eq!(eq(a, b), std::path::Path::new(a) == std::path::Path::new(b), "{a} vs {b}");
    }
}

#[test]
fn trimming_matches_str_trim() {
    for t in ["  a b  ", "\u{3000}x\u{85}", "\t\n", "", "no", " \u{200b}y\u{a0}", "\u{2028}mid dle\r\n"] {
        assert_eq!(trim_str(t), t.trim(), "{t:?}");
    }
}
