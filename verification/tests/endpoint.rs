//! Scenario tests for the update endpoint: authentication, validation and
//! the exact responses the handler owes.

use manga_progress::handler::{handle_update, internal_error_response, respond};
use manga_progress::identity::{get_id_from_session, get_user_entry, init_server, AuthError};

fn claim(id: &str) -> Option<String> {
    Some(id.to_string())
}

#[test]
fn accepted_full_body() {
    let server = init_server();
    let body = br#"{"manga":"One Piece","source":"mangadex","chapter":5}"#;
    let r = handle_update(claim("a"), &server, body);
    assert_eq!(r.status, 200);
    assert_eq!(r.body, "OK");
}

#[test]
fn no_claim_is_unauthorized() {
    let server = init_server();
    let body = br#"{"manga":"One Piece","source":"mangadex","chapter":5}"#;
    let r = handle_update(None, &server, body);
    assert_eq!(r.status, 401);
    assert_eq!(r.body, "You need to log in!");

    // Whatever the body held, even garbage.
    let r = handle_update(None, &server, b"not json at all");
    assert_eq!(r.status, 401);
    assert_eq!(r.body, "You need to log in!");
}

#[test]
fn unregistered_claim_is_not_found() {
    let server = init_server();
    let body = br#"{"manga":"One Piece","source":"mangadex","chapter":5}"#;
    let r = handle_update(claim("z"), &server, body);
    assert_eq!(r.status, 404);
    assert_eq!(r.body, "Unknown user");
}

#[test]
fn missing_source_is_bad_request() {
    let server = init_server();
    let body = br#"{"manga":"One Piece","chapter":5}"#;
    let r = handle_update(claim("a"), &server, body);
    assert_eq!(r.status, 400);
    assert_eq!(r.body, "'manga', 'source' and 'chapter' are mandatory");
    assert!(r.body.contains("source"));
}

#[test]
fn wrong_typed_chapter_is_bad_request() {
    let server = init_server();
    let body = br#"{"manga":"One Piece","source":"x","chapter":"five"}"#;
    let r = handle_update(claim("a"), &server, body);
    assert_eq!(r.status, 400);
    assert_eq!(r.body, "chapter should be a number");
}

#[test]
fn wrong_typed_manga_source_and_page() {
    let server = init_server();

    let r = handle_update(claim("b"), &server, br#"{"manga":7,"source":"x","chapter":5}"#);
    assert_eq!(r.status, 400);
    assert_eq!(r.body, "manga should be a string");

    let r = handle_update(claim("b"), &server, br#"{"manga":"m","source":3,"chapter":5}"#);
    assert_eq!(r.status, 400);
    assert_eq!(r.body, "source should be a string");

    let r = handle_update(claim("b"), &server, br#"{"manga":"m","source":"x","chapter":5,"page":"two"}"#);
    assert_eq!(r.status, 400);
    assert_eq!(r.body, "page should be a number");
}

#[test]
fn first_violation_wins() {
    let server = init_server();
    // Both chapter and page are wrong-typed; chapter stands first.
    let body = br#"{"chapter":"five","page":"two","manga":1}"#;
    let r = handle_update(claim("c"), &server, body);
    assert_eq!(r.status, 400);
    assert_eq!(r.body, "chapter should be a number");
}

#[test]
fn out_of_range_chapter_is_rejected_like_wrong_type() {
    let server = init_server();
    let r = handle_update(claim("a"), &server, br#"{"manga":"m","source":"s","chapter":-3}"#);
    assert_eq!(r.status, 400);
    assert_eq!(r.body, "chapter should be a number");

    let r = handle_update(claim("a"), &server, br#"{"manga":"m","source":"s","chapter":5000000000}"#);
    assert_eq!(r.status, 400);
    assert_eq!(r.body, "chapter should be a number");
}

#[test]
fn unknown_extra_fields_are_ignored() {
    let server = init_server();
    let body = br#"{"manga":"m","source":"s","chapter":1,"volume":3,"note":"hi"}"#;
    let r = handle_update(claim("d"), &server, body);
    assert_eq!(r.status, 200);
    assert_eq!(r.body, "OK");
}

#[test]
fn identical_submission_twice_gives_identical_response() {
    let server = init_server();
    let body = br#"{"manga":"One Piece","source":"mangadex","chapter":5}"#;
    let first = handle_update(claim("a"), &server, body);
    let second = handle_update(claim("a"), &server, body);
    assert_eq!(first.status, 200);
    assert_eq!(second.status, first.status);
    assert_eq!(second.body, first.body);
}

#[test]
fn non_object_and_malformed_bodies() {
    let server = init_server();

    let r = handle_update(claim("e"), &server, br#"[1,2,3]"#);
    assert_eq!(r.status, 400);
    assert_eq!(r.body, "Expected JSON object");

    let r = handle_update(claim("e"), &server, b"{ not json");
    assert_eq!(r.status, 400);
    assert!(r.body.starts_with("Expected JSON: "));

    let r = handle_update(claim("e"), &server, &[0xff, 0xfe, 0x80]);
    assert_eq!(r.status, 400);
    assert_eq!(r.body, "Expected UTF-8 text");
}

#[test]
fn empty_object_names_the_mandatory_fields() {
    let server = init_server();
    let r = handle_update(claim("a"), &server, b"{}");
    assert_eq!(r.status, 400);
    assert_eq!(r.body, "'manga', 'source' and 'chapter' are mandatory");
}

#[test]
fn respond_skips_validation_on_auth_failure() {
    let r = respond(Some(AuthError::Unauthorized), b"{}");
    assert_eq!(r.status, 401);
    let r = respond(Some(AuthError::NotFound), b"{}");
    assert_eq!(r.status, 404);
    let r = respond(None, br#"{"manga":"m","source":"s","chapter":2}"#);
    assert_eq!(r.status, 200);
    assert_eq!(r.body, "OK");
}

#[test]
fn internal_error_carries_the_diagnostic() {
    let r = internal_error_response("poisoned lock");
    assert_eq!(r.status, 500);
    assert_eq!(r.body, "cannot get server info: poisoned lock");
}

#[test]
fn session_claim_resolution() {
    let server = init_server();

    assert_eq!(get_id_from_session(&None), Err(AuthError::Unauthorized));
    assert_eq!(get_id_from_session(&claim("a")), Ok(&"a".to_string()));

    let u = get_user_entry(&claim("c"), &server).expect("registered user");
    assert_eq!(u.id, "c");
    assert_eq!(u.login, "c");

    assert!(matches!(get_user_entry(&None, &server), Err(AuthError::Unauthorized)));
    assert!(matches!(get_user_entry(&claim("z"), &server), Err(AuthError::NotFound)));
}
