//! Tests of the payload validator through its public parsing entry point:
//! exact captured values, the page default, and each rejection cause.

use manga_progress::payload::{parse_progress_update, Field, ValidationError};

#[test]
fn captures_all_four_fields() {
    let u = parse_progress_update(br#"{"manga":"One Piece","source":"mangadex","chapter":5,"page":12}"#)
        .expect("well-formed body");
    assert_eq!(u.manga, "One Piece");
    assert_eq!(u.source, "mangadex");
    assert_eq!(u.chapter, 5);
    assert_eq!(u.page, 12);
}

#[test]
fn page_defaults_to_zero() {
    let u = parse_progress_update(br#"{"manga":"m","source":"s","chapter":3}"#)
        .expect("well-formed body");
    assert_eq!(u.chapter, 3);
    assert_eq!(u.page, 0);
}

#[test]
fn later_duplicate_key_overwrites() {
    // The parser keeps one value per key; the scan then sees a single pair.
    let u = parse_progress_update(br#"{"manga":"first","manga":"second","source":"s","chapter":1}"#)
        .expect("well-formed body");
    assert_eq!(u.manga, "second");
    assert_eq!(u.source, "s");
    assert_eq!(u.chapter, 1);
}

#[test]
fn each_rejection_cause() {
    assert!(matches!(
        parse_progress_update(&[0xc3, 0x28]),
        Err(ValidationError::BadEncoding)
    ));
    assert!(matches!(
        parse_progress_update(b"{ broken"),
        Err(ValidationError::BadSyntax(_))
    ));
    assert!(matches!(
        parse_progress_update(b"\"just a string\""),
        Err(ValidationError::NotObject)
    ));
    assert!(matches!(
        parse_progress_update(br#"{"manga":null,"source":"s","chapter":1}"#),
        Err(ValidationError::WrongType(Field::Manga))
    ));
    assert!(matches!(
        parse_progress_update(br#"{"manga":"m","source":[],"chapter":1}"#),
        Err(ValidationError::WrongType(Field::Source))
    ));
    assert!(matches!(
        parse_progress_update(br#"{"manga":"m","source":"s","chapter":true}"#),
        Err(ValidationError::WrongType(Field::Chapter))
    ));
    assert!(matches!(
        parse_progress_update(br#"{"manga":"m","source":"s","chapter":1,"page":{}}"#),
        Err(ValidationError::WrongType(Field::Page))
    ));
    assert!(matches!(
        parse_progress_update(br#"{"manga":"m","chapter":1}"#),
        Err(ValidationError::MissingMandatory)
    ));
}

#[test]
fn fractional_number_is_out_of_range() {
    // A fractional chapter is a number, but not a `u32`.
    assert!(matches!(
        parse_progress_update(br#"{"manga":"m","source":"s","chapter":1.5}"#),
        Err(ValidationError::WrongType(Field::Chapter))
    ));
}

#[test]
fn empty_body_is_a_syntax_error() {
    assert!(matches!(
        parse_progress_update(b""),
        Err(ValidationError::BadSyntax(_))
    ));
}
