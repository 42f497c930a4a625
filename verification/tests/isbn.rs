use ez_books::isbn::{
    classify_identifier, classify_prefixed_identifier, clean_identifier, normalize_identifiers,
    strip_isbn_prefix, Classification,
};

fn isbn13(raw: &str) -> Option<String> {
    match classify_identifier(raw) {
        Classification::Isbn13(s) => Some(s),
        _ => None,
    }
}

fn isbn10(raw: &str) -> Option<String> {
    match classify_identifier(raw) {
        Classification::Isbn10(s) => Some(s),
        _ => None,
    }
}

fn discarded(raw: &str) -> bool {
    matches!(classify_identifier(raw), Classification::Discarded)
}

#[test]
fn thirteen_digits_with_a_book_prefix_are_an_isbn13() {
    assert_eq!(isbn13("9780123456789"), Some("9780123456789".to_string()));
    assert_eq!(isbn13("978-0-123-45678-9"), Some("9780123456789".to_string()));
    assert_eq!(isbn13("979 0 123 45678 9"), Some("9790123456789".to_string()));
    assert_eq!(isbn13(" - 9-7-8-0-1-2-3-4-5-6-7-8-9 - "), Some("9780123456789".to_string()));
}

#[test]
fn thirteen_digits_without_a_book_prefix_are_no_isbn13() {
    assert!(discarded("9770123456789"));
    assert!(discarded("1234567890123"));
    assert!(discarded("978012345678"));
    assert!(discarded("97801234567890"));
    assert!(discarded("978012345678X"));
}

#[test]
fn ten_characters_with_nine_digits_are_an_isbn10() {
    assert_eq!(isbn10("0123456789"), Some("0123456789".to_string()));
    assert_eq!(isbn10("0-123-45678-X"), Some("012345678X".to_string()));
    assert_eq!(isbn10("0 123 45678 x"), Some("012345678x".to_string()));
    assert_eq!(isbn10("X123456789"), Some("X123456789".to_string()));
    assert!(discarded("01234567XX"));
    assert!(discarded("012345678"));
    assert!(discarded("01234567890"));
}

#[test]
fn identifiers_that_name_isbn_are_read_without_the_word() {
    assert_eq!(isbn13("ISBN:978-0-123-45678-9"), Some("9780123456789".to_string()));
    assert_eq!(isbn13("isbn: 9780123456789"), Some("9780123456789".to_string()));
    assert_eq!(isbn13("urn:isbn:9780123456789"), None);
    assert_eq!(isbn13("Isbn 1234567890123"), Some("1234567890123".to_string()));
    assert_eq!(isbn10("isbn:012345678x"), Some("012345678X".to_string()));
    assert!(discarded("ISBN abcdefghij"));
    assert!(discarded("ISBN:abcdefghij"));
    assert!(discarded("ISBN:01234567xx"));
    assert_eq!(isbn10("ISBN x123456789"), Some("X123456789".to_string()));
    assert_eq!(isbn10("ISBNISBN:0123456789"), Some("0123456789".to_string()));
    assert!(discarded("ISBN"));
    assert!(discarded("ISBN:12345"));
    assert!(discarded("ISBN:978012345678X"));
}

#[test]
fn everything_else_is_discarded() {
    assert!(discarded(""));
    assert!(discarded("urn:uuid:6ba7b810-9dad-11d1-80b4-00c04fd430c8"));
    assert!(discarded("http://example.com/book"));
    assert!(discarded("---   ---"));
    assert!(discarded("٩٧٨٠١٢٣٤٥٦٧٨٩"));
}

#[test]
fn the_word_is_removed_from_left_to_right() {
    assert_eq!(strip_isbn_prefix("ISBN:978-0"), "9780");
    assert_eq!(strip_isbn_prefix("ISISBNBN"), "ISBN");
    assert_eq!(strip_isbn_prefix("A-ISBN B:ISBN"), "AB");
    assert_eq!(strip_isbn_prefix(""), "");
    assert_eq!(clean_identifier("a-b c:d"), "abc:d");
    assert_eq!(clean_identifier(""), "");
}

#[test]
fn prefixed_classification_takes_the_upper_case_text() {
    assert!(matches!(
        classify_prefixed_identifier("isbn:9780123456789"),
        Classification::Discarded
    ));
    match classify_prefixed_identifier("ISBN:9780123456789") {
        Classification::Isbn13(s) => assert_eq!(s, "9780123456789"),
        other => panic!("{:?}", other),
    }
    assert!(matches!(
        classify_prefixed_identifier("9780123456789"),
        Classification::Discarded
    ));
}

#[test]
fn of_each_kind_the_first_identifier_is_kept() {
    let ids: Vec<String> = [
        "urn:uuid:1234",
        "0-123-45678-X",
        "978-0-123-45678-9",
        "9791111111111",
        "1111111111",
    ]
    .iter()
    .map(|s| s.to_string())
    .collect();
    let found = normalize_identifiers(&ids);
    assert_eq!(found.isbn_13, Some("9780123456789".to_string()));
    assert_eq!(found.isbn_10, Some("012345678X".to_string()));
    assert_eq!(found.preferred(), Some("9780123456789".to_string()));
}

#[test]
fn no_identifier_no_isbn() {
    let found = normalize_identifiers(&vec![]);
    assert_eq!(found.isbn_13, None);
    assert_eq!(found.isbn_10, None);
    assert_eq!(found.preferred(), None);
    let found = normalize_identifiers(&vec!["x".to_string(), "urn:uuid:1".to_string()]);
    assert_eq!(found.isbn_13, None);
    assert_eq!(found.isbn_10, None);
}

#[test]
fn an_isbn10_alone_is_preferred() {
    let found = normalize_identifiers(&vec!["0123456789".to_string()]);
    assert_eq!(found.isbn_13, None);
    assert_eq!(found.preferred(), Some("0123456789".to_string()));
}

#[test]
fn ten_characters_without_digits_are_no_isbn10_under_the_word_either() {
    let found = normalize_identifiers(&vec!["ISBN:abcdefghij".to_string()]);
    assert_eq!(found.isbn_10, None);
    assert_eq!(found.isbn_13, None);
    assert!(matches!(
        classify_prefixed_identifier("ISBN:ABCDEFGHIJ"),
        Classification::Discarded
    ));
    match classify_prefixed_identifier("ISBN:012345678X") {
        Classification::Isbn10(s) => assert_eq!(s, "012345678X"),
        other => panic!("{:?}", other),
    }
}

#[test]
fn what_is_found_has_the_shape_of_an_isbn() {
    let ids: Vec<String> = [
        "ISBN:abcdefghij",
        "isbn 0-123-45678-x",
        "ISBN: 979-1-234-56789-0",
        "x",
    ]
    .iter()
    .map(|s| s.to_string())
    .collect();
    let found = normalize_identifiers(&ids);
    let ten = found.isbn_10.unwrap();
    assert_eq!(ten, "012345678X");
    assert_eq!(ten.chars().count(), 10);
    assert!(ten.chars().filter(|c| c.is_ascii_digit()).count() >= 9);
    assert!(!ten.contains('-') && !ten.contains(' '));
    let thirteen = found.isbn_13.unwrap();
    assert_eq!(thirteen, "9791234567890");
    assert!(thirteen.chars().all(|c| c.is_ascii_digit()));
}
