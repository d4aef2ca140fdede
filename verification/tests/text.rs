use ec_secrets::catchers::{
    bad_gateway, bad_request, catcher, conflict, forbidden, gateway_timeout, internal_error,
    method_not_allowed, not_found, payload_too_large, request_timeout, service_unavailable,
    teapot, too_many_requests, unauthorized, unsupported_media_type,
};
use ec_secrets::encoding::{same_object_id, to_hex_lower, valid_object_id};
use ec_secrets::errors::ErrorKind;
use ec_secrets::text::{bearer_token, chars_of, is_blank, whitespace};

#[test]
fn hex_is_lowercase_and_high_digit_first() {
    assert_eq!(to_hex_lower(&[]), "");
    assert_eq!(to_hex_lower(&[0x00, 0x0f, 0xa0, 0xff, 0x9a]), "000fa0ff9a");
    assert_eq!(to_hex_lower(&[0xde, 0xad, 0xbe, 0xef]), "deadbeef");
}

#[test]
fn object_ids_are_24_hex_characters() {
    assert!(valid_object_id("0123456789abcdef01234567"));
    assert!(valid_object_id("0123456789ABCDEF01234567"));
    assert!(valid_object_id(&bson::oid::ObjectId::new().to_hex()));
    assert!(!valid_object_id(""));
    assert!(!valid_object_id("0123456789abcdef0123456"));
    assert!(!valid_object_id("0123456789abcdef012345678"));
    assert!(!valid_object_id("0123456789abcdef0123456z"));
    assert!(!valid_object_id("0123456789abcdef 1234567"));
    assert!(!valid_object_id("\u{ff10}123456789abcdef01234567"));
}

#[test]
fn bearer_token_is_read_from_the_header() {
    assert_eq!(bearer_token("Bearer abc.def").as_deref(), Some("abc.def"));
    assert_eq!(bearer_token("Bearer   abc  ").as_deref(), Some("abc"));
    assert_eq!(bearer_token("Bearer Bearer abc").as_deref(), Some("abc"));
    assert_eq!(bearer_token("Bearer ").as_deref(), Some(""));
    assert_eq!(bearer_token("Bearer \t\u{2003}x y\u{3000}\n").as_deref(), Some("x y"));
    assert_eq!(bearer_token("Bearer  Bearer abc").as_deref(), Some("Bearer abc"));
    assert_eq!(bearer_token("Bearer"), None);
    assert_eq!(bearer_token("bearer abc"), None);
    assert_eq!(bearer_token(" Bearer abc"), None);
    assert_eq!(bearer_token("Basic abc"), None);
    assert_eq!(bearer_token(""), None);
}

#[test]
fn bearer_token_agrees_with_the_standard_library() {
    for header in ["Bearer a", "Bearer  a b ", "Bearer Bearer Bearer", "Bearer \u{a0}z\u{85}", "Bearer Bear er "] {
        let expected = header.trim_start_matches("Bearer ").trim();
        assert!(header.starts_with("Bearer "));
        assert_eq!(bearer_token(header).as_deref(), Some(expected));
    }
}

#[test]
fn blank_is_empty_or_whitespace_only() {
    assert!(is_blank(""));
    assert!(is_blank(" \t\r\n"));
    assert!(is_blank("\u{a0}\u{1680}\u{2000}\u{200a}\u{2028}\u{2029}\u{202f}\u{205f}\u{3000}\u{85}"));
    assert!(!is_blank("a"));
    assert!(!is_blank("  a  "));
    assert!(!is_blank("\u{200b}"));
}

#[test]
fn whitespace_agrees_with_the_standard_library() {
    for n in 0u32..0x3100 {
        if let Some(c) = char::from_u32(n) {
            assert_eq!(whitespace(c), c.is_whitespace());
        }
    }
    assert_eq!(chars_of("a\u{2603}b"), vec!['a', '\u{2603}', 'b']);
}

#[test]
fn error_kinds_have_their_status() {
    assert_eq!(ErrorKind::Validation.status(), 400);
    assert_eq!(ErrorKind::Auth.status(), 401);
    assert_eq!(ErrorKind::NotFound.status(), 404);
    assert_eq!(ErrorKind::Conflict.status(), 409);
    assert_eq!(ErrorKind::Crypto.status(), 500);
    assert_eq!(ErrorKind::Persistence.status(), 500);
}

#[test]
fn catchers_have_their_bodies() {
    assert_eq!(bad_request(), "Bad Request.");
    assert_eq!(unauthorized(), "Unauthorized access.");
    assert_eq!(forbidden(), "Forbidden: You don't have permission to access this resource.");
    assert_eq!(not_found(), "Resource not found.");
    assert_eq!(method_not_allowed(), "Method Not Allowed.");
    assert_eq!(request_timeout(), "Request Timeout.");
    assert_eq!(conflict(), "The request could not be completed due to a conflict.");
    assert_eq!(payload_too_large(), "Payload Too Large.");
    assert_eq!(unsupported_media_type(), "Unsupported Media Type.");
    assert_eq!(teapot(), "I'm a teapot. \u{2615}");
    assert_eq!(too_many_requests(), "Too Many Requests. Slow down!");
    assert_eq!(internal_error(), "Internal Server Error.");
    assert_eq!(bad_gateway(), "Bad Gateway.");
    assert_eq!(service_unavailable(), "Service Unavailable.");
    assert_eq!(gateway_timeout(), "Gateway Timeout.");
    assert_eq!(catcher(404), Some("Resource not found."));
    assert_eq!(catcher(418), Some("I'm a teapot. \u{2615}"));
    assert_eq!(catcher(200), None);
    assert_eq!(catcher(501), None);
}

#[test]
fn identifiers_compare_without_regard_to_the_case_of_hex_letters() {
    assert!(same_object_id("0123456789abcdef01234567", "0123456789ABCDEF01234567"));
    assert!(same_object_id("abc", "ABC"));
    assert!(same_object_id("", ""));
    assert!(!same_object_id("0123456789abcdef01234567", "0123456789abcdef01234568"));
    assert!(!same_object_id("abc", "abcd"));
    assert!(!same_object_id("g", "G"));
    assert!(!same_object_id("z", "Z"));
}

#[test]
fn object_ids_are_what_the_driver_of_the_store_reads() {
    for id in [
        "",
        "0123456789abcdef01234567",
        "0123456789ABCDEF01234567",
        "aAbBcCdDeEfF001122334455",
        "0123456789abcdef0123456",
        "0123456789abcdef012345678",
        "0123456789abcdef0123456g",
        "0123456789abcdef0123456G",
        "0123456789abcdef0123456/",
        "0123456789abcdef0123456:",
        "0123456789abcdef0123456@",
        "0123456789abcdef0123456`",
        " 123456789abcdef01234567",
        "\u{ff10}123456789abcdef01234567",
        "\u{e9}123456789abcdef0123456",
    ] {
        assert_eq!(valid_object_id(id), bson::oid::ObjectId::parse_str(id).is_ok());
    }
}
