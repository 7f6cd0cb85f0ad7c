use renku_cli::httpclient::auth::{
    access_token, issuer_url, session_from_response, token_from_response, AuthError, PollPhase,
    PollResponse, PollState, DEFAULT_POLL_INTERVAL,
};
use renku_cli::data::renku_url::RenkuUrl;

fn session(interval: Option<u64>, expires_in: u64) -> renku_cli::httpclient::auth::DeviceAuthorizationSession {
    session_from_response(
        "renku-cli".to_string(),
        "https://renkulab.io/auth/realms/Renku/protocol/openid-connect/token".to_string(),
        "device-code-xyz".to_string(),
        "ABCD-EFGH".to_string(),
        "https://renkulab.io/device".to_string(),
        Some("https://renkulab.io/device?user_code=ABCD-EFGH".to_string()),
        interval,
        expires_in,
    )
}

#[test]
fn poll_count_is_bounded_by_lifetime_over_interval() {
    // interval 2, lifetime 7: at most 7 / 2 + 1 = 4 requests may go out.
    let s = session(Some(2), 7);
    let mut p = PollState::start(&s);
    let mut requests = 0u64;
    loop {
        match p.next_request() {
            Some(d) => {
                assert_eq!(d, 2);
                requests += 1;
                p.on_response(PollResponse::AuthorizationPending);
            }
            None => break,
        }
    }
    assert_eq!(requests, 3);
    assert!(requests <= 7 / 2 + 1);
    assert_eq!(p.phase, PollPhase::Expired);
    assert_eq!(p.requests, 3);
}

#[test]
fn slow_down_doubles_the_interval() {
    let s = session(Some(3), 1000);
    let mut p = PollState::start(&s);
    assert_eq!(p.next_request(), Some(3));
    p.on_response(PollResponse::SlowDown);
    assert_eq!(p.interval, 6);
    assert_eq!(p.next_request(), Some(6));
    p.on_response(PollResponse::SlowDown);
    assert_eq!(p.interval, 12);
    assert_eq!(p.phase, PollPhase::Pending);
}

#[test]
fn terminal_answers_move_to_terminal_phases() {
    let s = session(Some(1), 100);

    let mut p = PollState::start(&s);
    p.next_request().unwrap();
    p.on_response(PollResponse::Approved);
    assert_eq!(p.phase, PollPhase::Approved);

    let mut p = PollState::start(&s);
    p.next_request().unwrap();
    p.on_response(PollResponse::AccessDenied);
    assert_eq!(p.phase, PollPhase::Denied);

    let mut p = PollState::start(&s);
    p.next_request().unwrap();
    p.on_response(PollResponse::ExpiredToken);
    assert_eq!(p.phase, PollPhase::Expired);

    let mut p = PollState::start(&s);
    p.next_request().unwrap();
    p.on_response(PollResponse::TransportFailure);
    assert_eq!(p.phase, PollPhase::TransportError);
}

#[test]
fn missing_or_zero_interval_gets_a_usable_default() {
    assert_eq!(session(None, 10).interval, DEFAULT_POLL_INTERVAL);
    assert_eq!(session(Some(0), 10).interval, 1);
    assert_eq!(session(Some(9), 10).interval, 9);
}

#[test]
fn session_keeps_verification_data() {
    let s = session(Some(5), 300);
    assert_eq!(
        s.authorization_url(),
        "https://renkulab.io/device?user_code=ABCD-EFGH"
    );
    let uc = s.user_code();
    assert_eq!(uc.user_code, "ABCD-EFGH");
    assert_eq!(
        uc.render(),
        "Please visit this url and authorize this application:\n\
         https://renkulab.io/device?user_code=ABCD-EFGH\nUser-Code: ABCD-EFGH"
    );
}

#[test]
fn token_record_carries_issuance_time() {
    let t = token_from_response(
        12345,
        "tok".to_string(),
        "bearer".to_string(),
        Some(10),
        None,
        None,
    );
    assert_eq!(t.created_at, 12345);
    assert_eq!(t.expires_at(), Some(12355));
    assert_eq!(access_token(&t), "tok");
}

#[test]
fn issuer_url_joins_the_realm_path() {
    let base = RenkuUrl::parse("https://renkulab.io").unwrap();
    let issuer = issuer_url(&base).unwrap();
    assert_eq!(issuer.as_str(), "https://renkulab.io/auth/realms/Renku");
}

#[test]
fn auth_errors_render_their_reason() {
    let e = AuthError::Discover { message: "boom".to_string() };
    assert_eq!(
        e.render(),
        "Error retrieving authentication provider metadata: boom"
    );
    let e = AuthError::CodeExchange { message: "nope".to_string() };
    assert_eq!(e.render(), "Error exchanging tokens: nope");
}
