use docuparse::contains_real_words;
use docuparse::metadata::non_empty;
use docuparse::text::{pdfium_page_index, text_layer_from_raw};
use docuparse::unicode::char_is_whitespace;

#[test]
fn real_words_doc_examples() {
    assert!(contains_real_words("Hello world", 3));
    assert!(!contains_real_words("123 !@# ---", 3));
    assert!(!contains_real_words("", 3));
}

#[test]
fn real_words_unicode_letters() {
    assert!(contains_real_words("Größe äöü", 3));
    assert!(contains_real_words("  Straße  ", 6));
}

#[test]
fn real_words_count_codepoints_not_bytes() {
    // "äöü" is three codepoints but six bytes.
    assert!(!contains_real_words("äöü", 4));
    assert!(contains_real_words("äöü", 3));
}

#[test]
fn real_words_token_must_be_purely_alphabetic() {
    assert!(!contains_real_words("abc1 de2f", 3));
    assert!(contains_real_words("abc1 defg", 3));
    assert!(!contains_real_words("ab cd ef", 3));
}

#[test]
fn real_words_whitespace_only() {
    assert!(!contains_real_words(" \t\n\r ", 0));
    assert!(contains_real_words("\tx\n", 0));
    assert!(contains_real_words("\tx\n", 1));
    assert!(!contains_real_words("\tx\n", 2));
}

#[test]
fn real_words_last_token_counts() {
    assert!(contains_real_words("1234 5678 words", 5));
}

#[test]
fn test_non_empty() {
    assert_eq!(non_empty(""), None);
    assert_eq!(non_empty("   "), None);
    assert_eq!(non_empty("\t\n\r"), None);
    assert_eq!(non_empty("Rust"), Some("Rust".to_owned()));
    assert_eq!(non_empty("  hello  "), Some("hello".to_owned()));
    assert_eq!(non_empty("\n title \n"), Some("title".to_owned()));
    assert_eq!(non_empty("  John   Doe  "), Some("John   Doe".to_owned()));
}

#[test]
fn non_empty_is_stable_on_its_output() {
    let once = non_empty("\u{a0} spaced out \u{3000}").unwrap();
    assert_eq!(once, "spaced out");
    assert_eq!(non_empty(&once), Some(once.clone()));
}

#[test]
fn text_layer_blank_is_none() {
    assert_eq!(text_layer_from_raw(String::new()), None);
    assert_eq!(text_layer_from_raw(" \r\n\t ".to_owned()), None);
}

#[test]
fn text_layer_keeps_raw_text() {
    assert_eq!(
        text_layer_from_raw("  Page one\n".to_owned()),
        Some("  Page one\n".to_owned())
    );
}

#[test]
fn white_space_is_the_unicode_property() {
    for c in ['\t', '\n', '\u{0B}', '\u{0C}', '\r', ' ', '\u{85}', '\u{A0}', '\u{1680}', '\u{2000}', '\u{200A}', '\u{2028}', '\u{2029}', '\u{202F}', '\u{205F}', '\u{3000}'] {
        assert!(char_is_whitespace(c));
        assert_eq!(char_is_whitespace(c), c.is_whitespace());
    }
    for c in ['a', '0', '\u{08}', '\u{0E}', '\u{200B}', '\u{FEFF}', '\u{180E}', '\u{1FFF}', '\u{200C}'] {
        assert!(!char_is_whitespace(c));
        assert_eq!(char_is_whitespace(c), c.is_whitespace());
    }
}

#[test]
fn page_index_handed_to_pdfium() {
    assert_eq!(pdfium_page_index(0, 3), 0);
    assert_eq!(pdfium_page_index(2, 3), 2);
    assert_eq!(pdfium_page_index(3, 3), 3);
    assert_eq!(pdfium_page_index(65_536, 1), 1);
    assert_eq!(pdfium_page_index(u32::MAX, 0), 0);
}
