use splasm::text::{parse_i32, parse_i8, same_text, split_fields, trim_text};

#[test]
fn split_keeps_empty_fields() {
    assert_eq!(split_fields("a,b,,c"), vec!["a", "b", "", "c"]);
    assert_eq!(split_fields(""), vec![""]);
    assert_eq!(split_fields(","), vec!["", ""]);
}

#[test]
fn trim_removes_unicode_whitespace() {
    assert_eq!(trim_text(" \tIREG_B\u{3000}\u{A0}"), "IREG_B");
    assert_eq!(trim_text("  "), "");
    assert_eq!(trim_text("a b"), "a b");
}

#[test]
fn decimal_parsing() {
    assert_eq!(parse_i8("-128"), Some(-128));
    assert_eq!(parse_i8("-129"), None);
    assert_eq!(parse_i8("007"), Some(7));
    assert_eq!(parse_i32("-2147483648"), Some(i32::MIN));
    assert_eq!(parse_i32("2147483648"), None);
    assert_eq!(parse_i32("12a"), None);
    assert_eq!(parse_i32("+"), None);
}

#[test]
fn text_comparison() {
    assert!(same_text("OP_NOP", "OP_NOP"));
    assert!(!same_text("OP_NOP", "OP_NO"));
    assert!(!same_text("OP_NOP", "OP_NOQ"));
}
