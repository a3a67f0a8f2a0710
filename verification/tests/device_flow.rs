use opsctl::auth::{AuthError, OAuthEndpoint, device_authorization_form, revocation_form, token_request_form};
use opsctl::device_flow::{
    device_name, device_name_from, DevicePoll, TokenPollResponse, TokenResponse,
    MAX_INTERVAL_NANOS, NANOS_PER_SECOND,
};
use opsctl::text::{eq_ignore_ascii_case, trim};

fn token(access_token: &str, token_type: &str) -> TokenResponse {
    TokenResponse {
        access_token: access_token.to_string(),
        token_type: token_type.to_string(),
        expires_in: 3600,
    }
}

fn rejected(error: Option<&str>) -> TokenPollResponse {
    TokenPollResponse::Rejected {
        status: 400,
        error: error.map(str::to_string),
    }
}

#[test]
fn device_name_falls_back_to_the_operating_system() {
    assert_eq!(device_name_from(None, "linux"), "Opsd CLI on linux");
    assert_eq!(
        device_name_from(Some("\u{7}bell".to_string()), "macos"),
        "Opsd CLI on macos"
    );
    assert_eq!(
        device_name_from(Some(" build-box \n".to_string()), "linux"),
        "build-box"
    );
    let name = device_name("linux");
    assert!(!name.is_empty() && name.chars().count() <= 80);
}

#[test]
fn device_names_of_eighty_characters_are_kept() {
    let name = "b".repeat(80);
    assert_eq!(device_name_from(Some(format!(" {name} ")), "linux"), name);
}

#[test]
fn normalized_device_names_are_stable() {
    let once = device_name_from(Some("\t Kevin’s MacBook \u{2003}".to_string()), "linux");
    assert_eq!(once, "Kevin’s MacBook");
    assert_eq!(device_name_from(Some(once.clone()), "linux"), once);
}

#[test]
fn trimming_removes_unicode_whitespace_only_at_the_ends() {
    assert_eq!(trim("\u{3000} a b \u{a0}"), "a b");
    assert_eq!(trim(""), "");
    assert_eq!(trim(" \n "), "");
}

#[test]
fn bearer_tokens_match_without_regard_to_ascii_case() {
    assert!(eq_ignore_ascii_case("BeArEr", "bearer"));
    assert!(!eq_ignore_ascii_case("bearers", "bearer"));
    assert!(!eq_ignore_ascii_case("mac", "bearer"));
}

#[test]
fn polling_starts_at_the_advertised_interval_and_at_least_a_second() {
    assert_eq!(DevicePoll::new(600, 5).interval_nanos(), 5 * NANOS_PER_SECOND);
    assert_eq!(DevicePoll::new(600, 0).interval_nanos(), NANOS_PER_SECOND);
}

#[test]
fn polling_stops_before_the_device_code_expires() {
    let poll = DevicePoll::new(10, 5);
    assert_eq!(poll.next_wait(0).unwrap(), 5 * NANOS_PER_SECOND);
    assert_eq!(poll.next_wait(4 * NANOS_PER_SECOND).unwrap(), 5 * NANOS_PER_SECOND);
    assert!(matches!(
        poll.next_wait(5 * NANOS_PER_SECOND),
        Err(AuthError::DeviceAuthorizationExpired)
    ));
    assert!(matches!(
        poll.next_wait(u128::MAX),
        Err(AuthError::DeviceAuthorizationExpired)
    ));
}

#[test]
fn slow_down_lengthens_the_interval_by_five_seconds() {
    let mut poll = DevicePoll::new(600, 5);
    assert!(matches!(poll.handle_response(rejected(Some("slow_down"))), Ok(None)));
    assert_eq!(poll.interval_nanos(), 10 * NANOS_PER_SECOND);
    assert!(matches!(
        poll.handle_response(rejected(Some("authorization_pending"))),
        Ok(None)
    ));
    assert_eq!(poll.interval_nanos(), 10 * NANOS_PER_SECOND);
}

#[test]
fn slow_down_saturates_at_the_longest_interval() {
    let mut poll = DevicePoll::new(600, u64::MAX - 1);
    assert!(matches!(poll.handle_response(rejected(Some("slow_down"))), Ok(None)));
    assert_eq!(poll.interval_nanos(), MAX_INTERVAL_NANOS);
    assert!(matches!(poll.handle_response(rejected(Some("slow_down"))), Ok(None)));
    assert_eq!(poll.interval_nanos(), MAX_INTERVAL_NANOS);
}

#[test]
fn token_endpoint_answers_end_or_continue_polling() {
    let mut poll = DevicePoll::new(600, 5);
    assert!(matches!(
        poll.handle_response(rejected(Some("expired_token"))),
        Err(AuthError::DeviceAuthorizationExpired)
    ));
    assert!(matches!(
        poll.handle_response(rejected(Some("access_denied"))),
        Err(AuthError::Protocol(code)) if code == "access_denied"
    ));
    assert!(matches!(
        poll.handle_response(rejected(None)),
        Err(AuthError::UnexpectedResponse { endpoint: OAuthEndpoint::Token, status: 400 })
    ));
    match poll.handle_response(TokenPollResponse::Issued(token("abc", "Bearer"))) {
        Ok(Some(issued)) => assert_eq!(issued.access_token, "abc"),
        _ => panic!("a bearer token ends polling"),
    }
    assert!(matches!(
        poll.handle_response(TokenPollResponse::Issued(token("abc", "mac"))),
        Err(AuthError::UnsupportedTokenType)
    ));
    assert!(matches!(
        poll.handle_response(TokenPollResponse::Issued(token("", "bearer"))),
        Err(AuthError::UnsupportedTokenType)
    ));
}

fn fields(form: Vec<opsctl::auth::FormField>) -> Vec<(String, String)> {
    form.into_iter().map(|f| (f.name.to_string(), f.value)).collect()
}

#[test]
fn oauth_requests_carry_the_client_identifier() {
    let s = |a: &str, b: &str| (a.to_string(), b.to_string());
    assert_eq!(
        fields(device_authorization_form("laptop")),
        vec![s("client_id", "opsctl"), s("device_name", "laptop")]
    );
    assert_eq!(
        fields(token_request_form("code-1")),
        vec![
            s("grant_type", "urn:ietf:params:oauth:grant-type:device_code"),
            s("device_code", "code-1"),
            s("client_id", "opsctl"),
        ]
    );
    assert_eq!(
        fields(revocation_form("tok")),
        vec![
            s("token", "tok"),
            s("token_type_hint", "access_token"),
            s("client_id", "opsctl"),
        ]
    );
}

#[test]
fn character_classes_follow_the_unicode_lists() {
    assert_eq!(trim("\u{85}\u{2028}x\u{205f}"), "x");
    assert_eq!(trim("\u{180e}x"), "\u{180e}x");
    assert!(device_name_from(Some("a\u{9f}b".to_string()), "linux") == "Opsd CLI on linux");
    assert_eq!(device_name_from(Some("a\u{a0}b".to_string()), "linux"), "a\u{a0}b");
}

#[test]
fn polling_grants_a_bounded_number_of_waits() {
    let poll = DevicePoll::new(30, 5);
    let mut elapsed: u128 = 0;
    let mut waits = 0;
    while let Ok(wait) = poll.next_wait(elapsed) {
        elapsed += wait;
        waits += 1;
    }
    assert_eq!(waits, 5);
    assert!(waits * 5 < 30);
}
