use rune::text::{
    append_decimal, append_left_aligned, append_signed, append_zero_padded, is_before,
    is_capitalized, sort, split_lines,
};

fn strings(texts: &[&str]) -> Vec<String> {
    texts.iter().map(|t| t.to_string()).collect()
}

#[test]
fn names_are_put_in_order() {
    let sorted = sort(strings(&["b", "ab", "a", "", "b"]));
    assert_eq!(sorted, strings(&["", "a", "ab", "b", "b"]));
    assert!(is_before("a", "ab"));
    assert!(!is_before("ab", "a"));
    assert!(!is_before("a", "a"));
}

#[test]
fn capitalized_by_the_first_character() {
    assert!(is_capitalized("Foo"));
    assert!(!is_capitalized("foo"));
    assert!(is_capitalized("\u{c4}rger"));
    assert!(!is_capitalized(""));
    assert!(!is_capitalized("1A"));
}

#[test]
fn numbers_are_written_in_decimal() {
    let mut text = String::new();
    append_decimal(0, &mut text);
    append_decimal(1234567890, &mut text);
    assert_eq!(text, "01234567890");

    let mut text = String::new();
    append_decimal(u64::MAX as u128 + 1, &mut text);
    assert_eq!(text, "18446744073709551616");

    let mut text = String::new();
    append_signed(i64::MIN, &mut text);
    append_signed(7, &mut text);
    assert_eq!(text, "-92233720368547758087");
}

#[test]
fn numbers_are_padded() {
    let mut text = String::new();
    append_zero_padded(7, 4, &mut text);
    append_zero_padded(12345, 4, &mut text);
    assert_eq!(text, "000712345");

    let mut text = String::new();
    append_left_aligned(7, 4, &mut text);
    append_left_aligned(12345, 4, &mut text);
    assert_eq!(text, "7   12345");
}

#[test]
fn texts_are_split_into_lines() {
    assert_eq!(split_lines(""), strings(&[]));
    assert_eq!(split_lines("a"), strings(&["a"]));
    assert_eq!(split_lines(" a\n\nb\n"), strings(&[" a", "", "b", ""]));
}
