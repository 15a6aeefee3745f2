use lawfirm_agents::text::{fmt_decimal, join_strings, parse_usize, str_equal, trim_by, TrimSet};

#[test]
fn decimal_writes_numbers_as_display_does() {
    assert_eq!(fmt_decimal(0), "0");
    assert_eq!(fmt_decimal(7), "7");
    assert_eq!(fmt_decimal(305), "305");
    assert_eq!(fmt_decimal(u64::MAX), u64::MAX.to_string());
}

#[test]
fn parse_accepts_what_usize_parse_accepts() {
    assert_eq!(parse_usize("42"), Some(42));
    assert_eq!(parse_usize("+7"), Some(7));
    assert_eq!(parse_usize("007"), Some(7));
    assert_eq!(parse_usize("0"), Some(0));
}

#[test]
fn parse_refuses_what_usize_parse_refuses() {
    for s in ["", "+", "-", "-1", "12a", " 1", "1 ", "++1", "1.0", "٣"] {
        assert_eq!(parse_usize(s), None, "{:?}", s);
        assert!(s.parse::<usize>().is_err());
    }
    let too_big = format!("{}0", usize::MAX);
    assert_eq!(parse_usize(&too_big), None);
    assert_eq!(parse_usize(&usize::MAX.to_string()), Some(usize::MAX));
}

#[test]
fn parse_reads_back_decimal() {
    for n in [0u64, 1, 9, 10, 99, 100, 12345, 4294967295] {
        assert_eq!(parse_usize(&fmt_decimal(n)), Some(n as usize));
    }
}

#[test]
fn trim_white_space_matches_str_trim() {
    for s in ["  3\n", "\t\u{a0}x y\u{3000}", "", "   ", "abc", "\u{2028}5\u{85}"] {
        assert_eq!(trim_by(s, TrimSet::WhiteSpace), s.trim());
    }
}

#[test]
fn trim_code_fence_matches_trim_matches() {
    for s in ["```json\n{\"a\": 1}\n```", "json{}nosj", "`", "{x}", "no"] {
        let expected = s.trim_matches(|c| "`json".chars().collect::<Vec<char>>().contains(&c));
        assert_eq!(trim_by(s, TrimSet::CodeFence), expected);
    }
}

#[test]
fn equal_strings() {
    assert!(str_equal("no_info", "no_info"));
    assert!(!str_equal("no_info", "no_inf"));
    assert!(!str_equal("abc", "abd"));
    assert!(str_equal("", ""));
}

#[test]
fn join_matches_slice_join() {
    let parts = vec!["a".to_string(), "bc".to_string(), "".to_string()];
    assert_eq!(join_strings(&parts, "\n- "), parts.join("\n- "));
    assert_eq!(join_strings(&vec![], ", "), "");
    assert_eq!(join_strings(&vec!["one".to_string()], ", "), "one");
}
