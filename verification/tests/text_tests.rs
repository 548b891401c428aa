use ferio_linux_helper::text::{
    chars_of, decimal_string, has_prefix, has_substring, is_whitespace, join_from, split_lines,
    split_words, to_lowercase, trim_char, trim_start_char, trim_ws, with_char, without_last,
};

fn strings(v: &[&str]) -> Vec<String> {
    v.iter().map(|s| s.to_string()).collect()
}

#[test]
fn lines_split_at_newlines_and_drop_carriage_returns() {
    assert_eq!(split_lines("a\nb"), strings(&["a", "b"]));
    assert_eq!(split_lines("a\r\nb\n"), strings(&["a", "b"]));
    assert_eq!(split_lines(""), Vec::<String>::new());
    assert_eq!(split_lines("\n"), strings(&[""]));
    assert_eq!(split_lines("a\r"), strings(&["a\r"]));
    assert_eq!(split_lines("x\n\ny"), strings(&["x", "", "y"]));
}

#[test]
fn lines_agree_with_std() {
    for s in ["", "one", "one\ntwo\r\n\nthree", "\r\n\r\n", "tail\r", "日志\n错误"] {
        let expected: Vec<String> = s.lines().map(|l| l.to_string()).collect();
        assert_eq!(split_lines(s), expected);
    }
}

#[test]
fn words_split_at_any_white_space() {
    assert_eq!(split_words("  eth0   UP  10.0.0.2/24 "), strings(&["eth0", "UP", "10.0.0.2/24"]));
    assert_eq!(split_words(""), Vec::<String>::new());
    assert_eq!(split_words("a\u{3000}b\tc"), strings(&["a", "b", "c"]));
    for s in ["a b", "  x\n y\u{a0}z ", "\u{2003}"] {
        let expected: Vec<String> = s.split_whitespace().map(|w| w.to_string()).collect();
        assert_eq!(split_words(s), expected);
    }
}

#[test]
fn whitespace_is_unicode_white_space() {
    for c in ['\t', '\n', '\r', ' ', '\u{85}', '\u{a0}', '\u{1680}', '\u{2000}', '\u{200a}', '\u{2028}', '\u{3000}'] {
        assert!(is_whitespace(c));
        assert_eq!(is_whitespace(c), c.is_whitespace());
    }
    for c in ['a', '0', '\u{200b}', '日', '_'] {
        assert!(!is_whitespace(c));
    }
}

#[test]
fn trimming() {
    assert_eq!(trim_ws("  hello world \n"), "hello world");
    assert_eq!(trim_ws("\u{3000}x\u{a0}"), "x");
    assert_eq!(trim_ws("   "), "");
    assert_eq!(trim_char("\"Arch Linux\"", '"'), "Arch Linux");
    assert_eq!(trim_char("\"\"a\"", '"'), "a");
    assert_eq!(trim_start_char("●● sshd.service", '●'), " sshd.service");
}

#[test]
fn prefixes_and_substrings() {
    assert!(has_prefix("PRETTY_NAME=\"x\"", "PRETTY_NAME"));
    assert!(!has_prefix("NAME", "NAME="));
    assert!(has_prefix("abc", ""));
    assert!(has_substring("network-manager", "manager"));
    assert!(has_substring("abc", ""));
    assert!(!has_substring("abc", "abcd"));
    assert!(!has_substring("sshd", "ssh-"));
    assert!(has_substring("日志服务", "服务"));
}

#[test]
fn numbers_in_decimal() {
    assert_eq!(decimal_string(0), "0");
    assert_eq!(decimal_string(7), "7");
    assert_eq!(decimal_string(10), "10");
    assert_eq!(decimal_string(12345), "12345");
    assert_eq!(decimal_string(u64::MAX), u64::MAX.to_string());
}

#[test]
fn joining_from_an_index() {
    let parts = strings(&["eth0", "UP", "10.0.0.2/24", "fe80::1/64"]);
    assert_eq!(join_from(&parts, 2, ", "), "10.0.0.2/24, fe80::1/64");
    assert_eq!(join_from(&parts, 4, ", "), "");
    assert_eq!(join_from(&parts, 3, ", "), "fe80::1/64");
}

#[test]
fn lowercase_and_editing() {
    assert_eq!(to_lowercase("KDE Plasma"), "kde plasma");
    assert_eq!(to_lowercase("ÄB"), "äb");
    assert_eq!(without_last("abc"), "ab");
    assert_eq!(without_last(""), "");
    assert_eq!(without_last("日志"), "日");
    assert_eq!(with_char("ss", 'h'), "ssh");
    assert_eq!(chars_of("a日b"), vec!['a', '日', 'b']);
}
