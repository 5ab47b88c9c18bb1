use code_asm::text::{
    decimal_string, escape_quotes_string, join_strings, name_strings, prefix_unless_empty,
    push_decimal, signed_decimal_string, wrap_each_strings,
};

fn strings(v: &[&str]) -> Vec<String> {
    v.iter().map(|s| s.to_string()).collect()
}

#[test]
fn join_puts_the_separator_between_neighbours() {
    assert_eq!(join_strings(&strings(&[]), ", "), "");
    assert_eq!(join_strings(&strings(&["a"]), ", "), "a");
    assert_eq!(join_strings(&strings(&["a", "b", "c"]), ", "), "a, b, c");
    assert_eq!(join_strings(&strings(&["", ""]), "-"), "-");
}

#[test]
fn wrap_each_wraps_every_part() {
    assert_eq!(wrap_each_strings(&strings(&[]), "<", ">"), "");
    assert_eq!(wrap_each_strings(&strings(&["a", "b"]), "<", ">"), "<a><b>");
    assert_eq!(wrap_each_strings(&strings(&["a", "b"]), "    ", "\n"), "    a\n    b\n");
}

#[test]
fn prefix_is_left_out_for_empty_text() {
    assert_eq!(prefix_unless_empty(" ", String::new()), "");
    assert_eq!(prefix_unless_empty(" ", String::from("x")), " x");
}

#[test]
fn names_are_copied_in_order() {
    assert_eq!(name_strings(&vec!["b", "a"]), strings(&["b", "a"]));
}

#[test]
fn escape_changes_quotes_only() {
    assert_eq!(escape_quotes_string(""), "");
    assert_eq!(escape_quotes_string("plain \\ text\n"), "plain \\ text\n");
    assert_eq!(escape_quotes_string("\""), "\\\"");
    assert_eq!(escape_quotes_string("he said \"hi\""), "he said \\\"hi\\\"");
}

#[test]
fn decimal_numerals() {
    assert_eq!(decimal_string(0), "0");
    assert_eq!(decimal_string(9), "9");
    assert_eq!(decimal_string(10), "10");
    assert_eq!(decimal_string(1234567890), "1234567890");
    assert_eq!(decimal_string(u128::MAX), u128::MAX.to_string());
    assert_eq!(signed_decimal_string(0), "0");
    assert_eq!(signed_decimal_string(-1), "-1");
    assert_eq!(signed_decimal_string(-120), "-120");
    assert_eq!(signed_decimal_string(i128::MIN), i128::MIN.to_string());
    let mut s = String::from("n=");
    push_decimal(&mut s, 405);
    assert_eq!(s, "n=405");
}
