use kavita_discord_rpc::text::{
    chars_of, comes_before, contains, contains_ignoring_case, decimal_text, first_segment,
    nth_segment, push_decimal, same_text, truncate,
};

#[test]
fn decimal_text_writes_sign_and_digits() {
    assert_eq!(decimal_text(0), "0");
    assert_eq!(decimal_text(7), "7");
    assert_eq!(decimal_text(10), "10");
    assert_eq!(decimal_text(-100000), "-100000");
    assert_eq!(decimal_text(i64::MIN), "-9223372036854775808");
    assert_eq!(decimal_text(i64::MAX), "9223372036854775807");
}

#[test]
fn push_decimal_appends_to_what_is_there() {
    let mut s = String::from("Vol. ");
    push_decimal(&mut s, 12);
    assert_eq!(s, "Vol. 12");
    push_decimal(&mut s, -3);
    assert_eq!(s, "Vol. 12-3");
}

#[test]
fn contains_finds_a_piece_and_the_empty_text() {
    assert!(contains("One Piece", "Piece"));
    assert!(contains("One Piece", "One Piece"));
    assert!(contains("One Piece", ""));
    assert!(contains("", ""));
    assert!(!contains("One Piece", "piece"));
    assert!(!contains("ab", "abc"));
    assert!(!contains("", "a"));
    assert!(contains("aab", "ab"));
}

#[test]
fn contains_ignoring_case_folds_both_sides() {
    assert!(contains_ignoring_case("Ecchi", "ecchi"));
    assert!(contains_ignoring_case("slice of life", "LIFE"));
    assert!(contains_ignoring_case("ÉCOLE", "école"));
    assert!(!contains_ignoring_case("Action", "drama"));
    assert!(contains_ignoring_case("Action", ""));
}

#[test]
fn truncate_counts_scalars_not_bytes() {
    let long: String = "é".repeat(150);
    let cut = truncate(long, 100);
    assert_eq!(cut.chars().count(), 100);
    assert_eq!(cut, "é".repeat(100));
    assert_eq!(truncate("short".to_string(), 100), "short");
    assert_eq!(truncate("abc".to_string(), 3), "abc");
    assert_eq!(truncate("abcd".to_string(), 3), "abc");
    assert_eq!(truncate("abcd".to_string(), 0), "");
}

#[test]
fn nth_segment_splits_at_every_separator() {
    assert_eq!(nth_segment("/books/Jane Austen/Emma/emma.epub", '/', 2), Some("Jane Austen".to_string()));
    assert_eq!(nth_segment("/books/Jane Austen/Emma/emma.epub", '/', 0), Some(String::new()));
    assert_eq!(nth_segment("a/b", '/', 1), Some("b".to_string()));
    assert_eq!(nth_segment("a/b", '/', 2), None);
    assert_eq!(nth_segment("a/b/", '/', 2), Some(String::new()));
    assert_eq!(nth_segment("a//c", '/', 1), Some(String::new()));
    assert_eq!(nth_segment("", '/', 0), Some(String::new()));
    assert_eq!(nth_segment("", '/', 1), None);
    assert_eq!(nth_segment("日本/語/テキスト", '/', 2), Some("テキスト".to_string()));
}

#[test]
fn first_segment_stops_at_the_first_separator() {
    assert_eq!(first_segment("2024-05-01T12:00:00.1234567", '.'), "2024-05-01T12:00:00");
    assert_eq!(first_segment("no separator", '.'), "no separator");
    assert_eq!(first_segment(".x", '.'), "");
    assert_eq!(first_segment("3-5", '-'), "3");
    assert_eq!(first_segment("", '-'), "");
}

#[test]
fn comes_before_is_dictionary_order() {
    assert!(comes_before("2024-05-01T10:00:00", "2024-05-01T10:00:01"));
    assert!(!comes_before("2024-05-01T10:00:01", "2024-05-01T10:00:00"));
    assert!(!comes_before("same", "same"));
    assert!(comes_before("", "a"));
    assert!(!comes_before("a", ""));
    assert!(comes_before("ab", "abc"));
    assert!(comes_before("Z", "a"));
    assert!(comes_before("z", "é"));
    let pairs = ["", "a", "ab", "b", "é", "日本"];
    for x in pairs {
        for y in pairs {
            assert_eq!(comes_before(x, y), x < y);
        }
    }
}

#[test]
fn same_text_compares_characters() {
    assert!(same_text("-100000", "-100000"));
    assert!(!same_text("-100000", "-1000000"));
    assert!(!same_text("-100000", "-100001"));
    assert!(same_text("", ""));
}

#[test]
fn chars_of_lists_scalars() {
    assert_eq!(chars_of("aé日"), vec!['a', 'é', '日']);
    assert_eq!(chars_of(""), Vec::<char>::new());
}
