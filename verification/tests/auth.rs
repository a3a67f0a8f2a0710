use opsctl::auth::{oauth_rejection, AccessToken, AuthError, OAuthEndpoint, ServerUrl};
use opsctl::device_flow::{normalize_device_name, poll_action, PollAction};
use opsctl::web_url::{ParsedUrl, UrlRejection};

fn url(text: &str) -> ParsedUrl {
    ParsedUrl::parse(text).unwrap()
}

#[test]
fn production_server_url_derives_application_routes() {
    let server = ServerUrl::production().unwrap();

    assert_eq!(server.as_url().as_str(), "https://api.opsd.sh/");
    assert_eq!(
        server.device_authorization_url(),
        "https://api.opsd.sh/oauth/device/authorization"
    );
    assert_eq!(
        server.public_api_base_url(),
        "https://api.opsd.sh/v1/"
    );
    assert_eq!(
        server.revocation_url(),
        "https://api.opsd.sh/oauth/revoke"
    );
}

#[test]
fn server_urls_reject_embedded_credentials_and_non_http_schemes() {
    assert!(matches!(
        ServerUrl::from_override(url("https://user@example.com/")),
        Err(AuthError::InvalidServerUrl(_))
    ));
    assert!(matches!(
        ServerUrl::from_override(url("ftp://api.opsd.sh/")),
        Err(AuthError::InvalidServerUrl(_))
    ));
    assert!(matches!(
        ServerUrl::from_override(url("https://api.opsd.sh/v1/")),
        Err(AuthError::InvalidServerUrl(_))
    ));
}

#[test]
fn device_polling_errors_have_explicit_actions() {
    assert_eq!(
        poll_action("authorization_pending").unwrap(),
        PollAction::Pending
    );
    assert_eq!(poll_action("slow_down").unwrap(), PollAction::SlowDown);
    assert_eq!(poll_action("expired_token").unwrap(), PollAction::Expired);
    assert!(matches!(
        poll_action("invalid_client"),
        Err(AuthError::Protocol(error)) if error == "invalid_client"
    ));
}

#[test]
fn access_token_debug_output_is_redacted() {
    let token = AccessToken("secret-token".to_string());

    assert_eq!(token.debug_text(), "AccessToken([REDACTED])");
}

#[test]
fn device_names_are_trimmed_and_validated() {
    assert_eq!(
        normalize_device_name("  Kevin’s MacBook  ").as_deref(),
        Some("Kevin’s MacBook")
    );
    assert!(normalize_device_name("line\nbreak").is_none());
    assert!(normalize_device_name("   ").is_none());
    assert!(normalize_device_name(&"a".repeat(81)).is_none());
}

#[test]
fn server_url_rejections_name_the_first_failed_rule() {
    let reason = |text: &str| match ServerUrl::from_override(url(text)) {
        Err(AuthError::InvalidServerUrl(reason)) => Some(reason),
        _ => None,
    };
    assert_eq!(reason("ftp://user@api.opsd.sh/v1/"), Some(UrlRejection::UnsupportedScheme));
    assert_eq!(reason("https://user:pw@api.opsd.sh/"), Some(UrlRejection::EmbeddedCredentials));
    assert_eq!(reason("https://:pw@api.opsd.sh/"), Some(UrlRejection::EmbeddedCredentials));
    assert_eq!(reason("https://api.opsd.sh/?x=1"), Some(UrlRejection::NotRoot));
    assert_eq!(reason("https://api.opsd.sh/#top"), Some(UrlRejection::NotRoot));
    assert_eq!(reason("http://localhost:8080"), None);
    assert_eq!(
        UrlRejection::UnsupportedScheme.message(),
        "scheme must be HTTP or HTTPS"
    );
    assert_eq!(UrlRejection::MissingHost.message(), "host is required");
    assert_eq!(
        UrlRejection::EmbeddedCredentials.message(),
        "credentials are not permitted"
    );
    assert_eq!(
        UrlRejection::NotRoot.message(),
        "path, query, and fragment must be empty"
    );
}

#[test]
fn non_web_urls_are_rejected_for_their_scheme() {
    assert_eq!(
        url("mailto:someone@example.com").root_rejection(),
        Some(UrlRejection::UnsupportedScheme)
    );
}

#[test]
fn local_server_routes_follow_the_override() {
    let server = ServerUrl::from_override(url("http://localhost:8080")).unwrap();
    assert_eq!(server.as_str(), "http://localhost:8080/");
    assert_eq!(
        server.token_url(),
        "http://localhost:8080/oauth/token"
    );
    assert_eq!(
        server.endpoint_url(OAuthEndpoint::Revocation),
        "http://localhost:8080/oauth/revoke"
    );
    assert_eq!(
        server.public_api_base_url(),
        "http://localhost:8080/v1/"
    );
}

#[test]
fn oauth_rejections_prefer_the_oauth_error_code() {
    assert!(matches!(
        oauth_rejection(OAuthEndpoint::Revocation, 400, Some("invalid_token".to_string())),
        AuthError::Protocol(code) if code == "invalid_token"
    ));
    assert!(matches!(
        oauth_rejection(OAuthEndpoint::DeviceAuthorization, 502, None),
        AuthError::UnexpectedResponse { endpoint: OAuthEndpoint::DeviceAuthorization, status: 502 }
    ));
    assert_eq!(OAuthEndpoint::Token.path(), "/oauth/token");
    assert_eq!(OAuthEndpoint::DeviceAuthorization.route(), "oauth/device/authorization");
}

#[test]
fn access_token_gives_back_the_token() {
    let token = AccessToken("secret-token".to_string());
    assert_eq!(token.into_inner(), "secret-token");
}

#[test]
fn unparsable_urls_are_refused_by_the_parser() {
    assert!(ParsedUrl::parse("not a url").is_none());
    assert!(ParsedUrl::parse("").is_none());
}
