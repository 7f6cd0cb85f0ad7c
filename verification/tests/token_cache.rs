use renku_cli::httpclient::auth::TokenRecord;
use renku_cli::httpclient::cache::{
    encode_token_record, parse_token_record, token_file, token_write_plan, Error,
};

fn full_record() -> TokenRecord {
    TokenRecord {
        created_at: 1700000000,
        access_token: "eyJhbGciOiJSUzI1NiJ9.payload.sig".to_string(),
        token_type: "Bearer".to_string(),
        expires_in: Some(3600),
        refresh_token: Some("refresh-123".to_string()),
        id_token: Some("id-456".to_string()),
    }
}

#[test]
fn round_trip_full_record() {
    let r = full_record();
    let text = encode_token_record(&r);
    let back = parse_token_record(text.as_str()).unwrap();
    assert_eq!(back, r);
}

#[test]
fn round_trip_minimal_record() {
    let r = TokenRecord {
        created_at: 0,
        access_token: String::new(),
        token_type: "bearer".to_string(),
        expires_in: None,
        refresh_token: None,
        id_token: None,
    };
    let text = encode_token_record(&r);
    let back = parse_token_record(text.as_str()).unwrap();
    assert_eq!(back, r);
}

#[test]
fn round_trip_awkward_characters() {
    let r = TokenRecord {
        created_at: 42,
        access_token: "with \"quotes\" and \\backslash\\".to_string(),
        token_type: "line\nbreak\tand tab".to_string(),
        expires_in: Some(u64::MAX),
        refresh_token: Some("héllo wörld ∞".to_string()),
        id_token: None,
    };
    let text = encode_token_record(&r);
    let back = parse_token_record(text.as_str()).unwrap();
    assert_eq!(back, r);
}

#[test]
fn encoded_document_is_exact() {
    let r = TokenRecord {
        created_at: 7,
        access_token: "a".to_string(),
        token_type: "bearer".to_string(),
        expires_in: Some(60),
        refresh_token: None,
        id_token: None,
    };
    let text = encode_token_record(&r);
    assert_eq!(
        text,
        "{\"created_at\":7,\"response\":{\"access_token\":\"a\",\"token_type\":\"bearer\",\
         \"expires_in\":60,\"refresh_token\":null,\"id_token\":null}}"
    );
}

#[test]
fn control_characters_are_escaped() {
    let r = TokenRecord {
        created_at: 1,
        access_token: "a\u{1}b".to_string(),
        token_type: "t".to_string(),
        expires_in: None,
        refresh_token: None,
        id_token: None,
    };
    let text = encode_token_record(&r);
    assert!(text.contains("a\\u0001b"));
    assert_eq!(parse_token_record(text.as_str()).unwrap(), r);
}

#[test]
fn malformed_documents_are_refused() {
    assert_eq!(parse_token_record(""), Err(Error::JsonDecode));
    assert_eq!(parse_token_record("{}"), Err(Error::JsonDecode));
    let half = "{\"created_at\":7,\"response\":{\"access_token\":\"a\"";
    assert_eq!(parse_token_record(half), Err(Error::JsonDecode));
    let trailing = "{\"created_at\":7,\"response\":{\"access_token\":\"a\",\"token_type\":\"b\",\
                    \"expires_in\":null,\"refresh_token\":null,\"id_token\":null}} ";
    assert_eq!(parse_token_record(trailing), Err(Error::JsonDecode));
}

#[test]
fn expires_at_adds_lifetime_to_issuance() {
    let mut r = full_record();
    assert_eq!(r.expires_at(), Some(1700000000 + 3600));
    r.expires_in = None;
    assert_eq!(r.expires_at(), None);
    r.expires_in = Some(u64::MAX);
    assert_eq!(r.expires_at(), None);
}

#[test]
fn write_plan_restricts_to_owner() {
    let r = full_record();
    let plan = token_write_plan(&r, "/home/someone/.local/share/renku-cli");
    assert_eq!(plan.mode, 0o600);
    assert_eq!(plan.path, "/home/someone/.local/share/renku-cli/token.json");
    assert_eq!(plan.contents, encode_token_record(&r));
}

#[test]
fn token_file_lives_in_cache_dir() {
    assert_eq!(token_file("/tmp/cache"), "/tmp/cache/token.json");
}

#[test]
fn large_numbers_round_trip() {
    let r = TokenRecord {
        created_at: u64::MAX,
        access_token: "t".to_string(),
        token_type: "bearer".to_string(),
        expires_in: Some(0),
        refresh_token: None,
        id_token: None,
    };
    let text = encode_token_record(&r);
    assert!(text.contains("18446744073709551615"));
    assert_eq!(parse_token_record(text.as_str()).unwrap(), r);
}

#[test]
fn numbers_past_the_range_are_refused() {
    let too_big = "{\"created_at\":18446744073709551616,\"response\":{\"access_token\":\"a\",\
                   \"token_type\":\"b\",\"expires_in\":null,\"refresh_token\":null,\
                   \"id_token\":null}}";
    assert_eq!(parse_token_record(too_big), Err(Error::JsonDecode));
}
