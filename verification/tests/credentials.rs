use std::path::PathBuf;

use opsctl::auth::{AuthError, ServerUrl};
use opsctl::credentials::{
    access_token, access_token_at, credential_status, credentials_at, credentials_path_from,
    mode_is_private, new_credentials, status_at, timestamp_from, unix_timestamp,
    CredentialStatus, CredentialsPath, Logout, LogoutAction, LogoutEvent, StoredCredentials,
    CREDENTIALS_FILE_MODE,
};
use opsctl::device_flow::TokenResponse;
use opsctl::web_url::ParsedUrl;

fn joined(path: CredentialsPath<PathBuf>) -> PathBuf {
    path.components
        .iter()
        .fold(path.directory, |directory, component| directory.join(component))
}

fn server(text: &str) -> ServerUrl {
    ServerUrl::from_override(ParsedUrl::parse(text).unwrap()).unwrap()
}

fn saved(server_url: &str, expires_at: u64) -> StoredCredentials {
    StoredCredentials {
        server_url: server_url.to_string(),
        access_token: "secret-token".to_string(),
        expires_at,
    }
}

#[test]
fn credentials_use_the_opsctl_platform_config_directory() {
    let path = credentials_path_from(None, Some(PathBuf::from("platform-config"))).unwrap();

    assert_eq!(
        joined(path),
        PathBuf::from("platform-config")
            .join("opsctl")
            .join("credentials.json")
    );
}

#[test]
fn credentials_config_override_replaces_the_platform_directory() {
    let path = credentials_path_from(
        Some(PathBuf::from("override-config")),
        Some(PathBuf::from("platform-config")),
    )
    .unwrap();

    assert_eq!(
        joined(path),
        PathBuf::from("override-config").join("credentials.json")
    );
}

#[test]
fn credentials_require_a_config_directory() {
    assert!(matches!(
        credentials_path_from::<PathBuf>(None, None),
        Err(AuthError::ConfigDirectoryUnavailable)
    ));
}

#[test]
fn saved_credentials_pass_the_permission_check() {
    assert!(mode_is_private(CREDENTIALS_FILE_MODE));
    assert!(mode_is_private(0o100600));
    assert!(!mode_is_private(0o644));
    assert!(!mode_is_private(0o601));
}

#[test]
fn clock_readings_before_the_epoch_are_invalid() {
    assert_eq!(timestamp_from(Some(5)).unwrap(), 5);
    assert!(matches!(timestamp_from(None), Err(AuthError::InvalidSystemTime)));
    assert!(unix_timestamp().unwrap() > 1_600_000_000);
}

#[test]
fn credentials_expire_after_the_token_lifetime() {
    let production = server("https://api.opsd.sh/");
    let token = TokenResponse {
        access_token: "tok".to_string(),
        token_type: "bearer".to_string(),
        expires_in: 3600,
    };
    let credentials = credentials_at(&production, &token, 100).unwrap();
    assert_eq!(credentials.server_url, "https://api.opsd.sh/");
    assert_eq!(credentials.access_token, "tok");
    assert_eq!(credentials.expires_at, 3700);
    assert!(matches!(
        credentials_at(&production, &token, u64::MAX - 10),
        Err(AuthError::InvalidSystemTime)
    ));
    let fresh = new_credentials(&production, &token).unwrap();
    assert!(fresh.expires_at > 3600);
}

#[test]
fn saved_tokens_are_used_only_for_their_server_until_they_expire() {
    let production = server("https://api.opsd.sh/");
    assert!(matches!(access_token(None, &production), Err(AuthError::NotLoggedIn)));
    match access_token(Some(saved("http://localhost:8080/", u64::MAX)), &production) {
        Err(AuthError::ServerMismatch { saved, requested }) => {
            assert_eq!(saved, "http://localhost:8080/");
            assert_eq!(requested, "https://api.opsd.sh/");
        }
        _ => panic!("a credential of another server is refused"),
    }
    assert!(matches!(
        access_token(Some(saved("https://api.opsd.sh/", 1)), &production),
        Err(AuthError::CredentialsExpired)
    ));
    let token = access_token(Some(saved("https://api.opsd.sh/", u64::MAX)), &production).unwrap();
    assert_eq!(token.into_inner(), "secret-token");
    assert!(matches!(
        access_token_at(saved("https://api.opsd.sh/", 10), 10),
        Err(AuthError::CredentialsExpired)
    ));
    assert_eq!(
        access_token_at(saved("https://api.opsd.sh/", 11), 10).unwrap().into_inner(),
        "secret-token"
    );
}

#[test]
fn status_reports_the_remaining_lifetime() {
    let production = server("https://api.opsd.sh/");
    assert!(matches!(
        credential_status(None, &production),
        Ok(CredentialStatus::NotLoggedIn)
    ));
    assert!(matches!(
        credential_status(Some(saved("http://localhost:8080/", 5)), &production),
        Ok(CredentialStatus::OtherServer { saved }) if saved == "http://localhost:8080/"
    ));
    assert!(matches!(
        credential_status(Some(saved("https://api.opsd.sh/", 5)), &production),
        Ok(CredentialStatus::Expired)
    ));
    assert!(matches!(
        status_at(&saved("https://api.opsd.sh/", 130), 100),
        CredentialStatus::Active { remaining_secs: 30 }
    ));
    assert!(matches!(
        status_at(&saved("https://api.opsd.sh/", 100), 100),
        CredentialStatus::Expired
    ));
}

#[test]
fn logout_removes_the_credential_only_after_revocation() {
    let production = server("https://api.opsd.sh/");
    let mut logout = Logout::new();
    match logout.step(
        &production,
        LogoutEvent::CredentialsLoaded(Some(saved("https://api.opsd.sh/", 5))),
    ) {
        LogoutAction::RevokeToken(token) => assert_eq!(token, "secret-token"),
        other => panic!("expected a revocation, got {other:?}"),
    }
    assert!(matches!(
        logout.step(&production, LogoutEvent::RevocationSucceeded),
        LogoutAction::RemoveCredential
    ));
    assert!(matches!(
        logout.step(&production, LogoutEvent::RevocationSucceeded),
        LogoutAction::KeepCredential
    ));
}

#[test]
fn failed_revocation_keeps_the_credential() {
    let production = server("https://api.opsd.sh/");
    let mut logout = Logout::new();
    assert!(matches!(
        logout.step(&production, LogoutEvent::RevocationSucceeded),
        LogoutAction::KeepCredential
    ));
    assert!(matches!(
        logout.step(
            &production,
            LogoutEvent::CredentialsLoaded(Some(saved("https://api.opsd.sh/", 5)))
        ),
        LogoutAction::RevokeToken(_)
    ));
    assert!(matches!(
        logout.step(&production, LogoutEvent::RevocationFailed),
        LogoutAction::KeepCredential
    ));
}

#[test]
fn logout_without_a_matching_credential_revokes_nothing() {
    let production = server("https://api.opsd.sh/");
    assert!(matches!(
        Logout::new().step(&production, LogoutEvent::CredentialsLoaded(None)),
        LogoutAction::ReportNotLoggedIn
    ));
    assert!(matches!(
        Logout::new().step(
            &production,
            LogoutEvent::CredentialsLoaded(Some(saved("http://localhost:8080/", 5)))
        ),
        LogoutAction::Fail(AuthError::ServerMismatch { .. })
    ));
}
