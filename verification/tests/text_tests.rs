use recenter_mouse::text::{
    chars_equal_str, chars_of, push_decimal, str_eq_ignore_ascii_case, str_equal, trim_chars,
};

#[test]
fn trimming_matches_std() {
    for s in ["", "  ", " a ", "\u{2003}x y\u{85}", "\tTab\n", "no-trim", "\u{200b}zero\u{200b}"] {
        let trimmed: String = trim_chars(&chars_of(s)).into_iter().collect();
        assert_eq!(trimmed, s.trim(), "{:?}", s);
    }
}

#[test]
fn comparisons() {
    assert!(str_equal("--once", "--once"));
    assert!(!str_equal("--once", "--Once"));
    assert!(str_eq_ignore_ascii_case("PageUp", "pAGEuP"));
    assert!(!str_eq_ignore_ascii_case("é", "É"));
    assert!(chars_equal_str(&vec!['F', '1'], "F1"));
    assert!(!chars_equal_str(&vec!['F'], "F1"));
}

#[test]
fn decimal_rendering() {
    for n in [0u32, 7, 10, 99, 100, 65535, 4294967295] {
        let mut s = String::from("#");
        push_decimal(&mut s, n);
        assert_eq!(s, format!("#{}", n));
    }
}
