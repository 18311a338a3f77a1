use untrace::text::{parse_bool, parse_u64, parse_usize, split_and_trim, split_at_commas, str_equals, trimmed, join_with_commas, join_decimals};

#[test]
fn booleans() {
    assert_eq!(parse_bool("true"), Some(true));
    assert_eq!(parse_bool("false"), Some(false));
    assert_eq!(parse_bool("True"), None);
    assert_eq!(parse_bool(" true"), None);
    assert_eq!(parse_bool(""), None);
}

#[test]
fn unsigned_numbers() {
    assert_eq!(parse_u64("0"), Some(0));
    assert_eq!(parse_u64("+42"), Some(42));
    assert_eq!(parse_u64("007"), Some(7));
    assert_eq!(parse_u64("18446744073709551615"), Some(u64::MAX));
    assert_eq!(parse_u64("18446744073709551616"), None);
    assert_eq!(parse_u64("184467440737095516150"), None);
    assert_eq!(parse_u64(""), None);
    assert_eq!(parse_u64("+"), None);
    assert_eq!(parse_u64("-1"), None);
    assert_eq!(parse_u64("1 "), None);
    assert_eq!(parse_u64("1a"), None);
    assert_eq!(parse_u64("99999999999999999999x"), None);
    assert_eq!(parse_usize("512"), Some(512));
    for s in ["0", "+1", "12345678901234567890", "x", ""] {
        assert_eq!(parse_u64(s), s.parse::<u64>().ok(), "{}", s);
    }
}

#[test]
fn trimming_and_splitting() {
    assert_eq!(trimmed("  a b \t\n"), "a b");
    assert_eq!(trimmed("\u{3000}x\u{a0}"), "x");
    assert_eq!(trimmed("   "), "");
    assert_eq!(split_at_commas(""), vec![""]);
    assert_eq!(split_at_commas("a,,b,"), vec!["a", "", "b", ""]);
    assert_eq!(split_and_trim(" a , b,c "), vec!["a", "b", "c"]);
    let text = " x ,\u{2003}y\u{2003}, ,z";
    let expected: Vec<String> = text.split(',').map(|s| s.trim().to_string()).collect();
    assert_eq!(split_and_trim(text), expected);
}

#[test]
fn joining() {
    assert_eq!(join_with_commas(&vec!["a".to_string(), "b".to_string()]), "a,b");
    assert_eq!(join_with_commas(&vec![]), "");
    assert_eq!(join_decimals(&vec![3, -4]), "3,-4");
    assert!(str_equals("abc", "abc"));
    assert!(!str_equals("abc", "abd"));
}
