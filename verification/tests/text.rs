use destinypedia::text::{
    decimal_string, ends_with, find_char, replace_spaces, rfind_char, signed_decimal_string,
    starts_with, str_lt, strip_prefix, trim,
};

#[test]
fn trimming_and_replacing() {
    assert_eq!(trim("  a b \t\n"), "a b");
    assert_eq!(trim(" \u{a0} "), "");
    assert_eq!(replace_spaces("a b  c"), "a_b__c");
}

#[test]
fn searching() {
    assert_eq!(find_char("a.b.c", '.'), Some(1));
    assert_eq!(rfind_char("a.b.c", '.'), Some(3));
    assert_eq!(find_char("abc", '.'), None);
    assert!(starts_with("Category:Raids", "Category:"));
    assert!(ends_with("gcmcontinue", "continue"));
    assert_eq!(strip_prefix("File:A.png", "File:"), Some("A.png".to_string()));
    assert_eq!(strip_prefix("A.png", "File:"), None);
}

#[test]
fn numbers_and_order() {
    assert_eq!(decimal_string(0), "0");
    assert_eq!(decimal_string(1024), "1024");
    assert_eq!(signed_decimal_string(i64::MIN), "-9223372036854775808");
    assert!(str_lt("action", "format"));
    assert!(str_lt("gcm", "gcmlimit"));
    assert!(!str_lt("b", "a"));
}
