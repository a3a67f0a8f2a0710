//! The saved credential: where it lives, what it holds, which access it
//! grants at a given time, and how logging out disposes of it.

use vstd::prelude::*;
use vstd::string::*;
use crate::auth::{AccessToken, AuthError, ServerUrl};
use crate::device_flow::TokenResponse;
use crate::text::same_text;

verus! {

/// The name of the file that holds the credential.
pub const CREDENTIALS_FILE_NAME: &'static str = "credentials.json";

/// The directory of this CLI inside the platform's configuration directory.
pub const CONFIG_DIRECTORY_NAME: &'static str = "opsctl";

/// The Unix permissions of the directory that holds the credential.
pub const CREDENTIALS_DIRECTORY_MODE: u32 = 0o700;

/// The Unix permissions of the credential file.
pub const CREDENTIALS_FILE_MODE: u32 = 0o600;

/// Where the credential file lives: `components` joined, in order, under
/// `directory`.
pub struct CredentialsPath<D> {
    pub directory: D,
    pub components: Vec<&'static str>,
}

/// Where the credential file lives: directly in the directory that the user
/// chose, if any, else in this CLI's directory inside the platform's
/// configuration directory.
pub fn credentials_path_from<D>(
    override_directory: Option<D>,
    platform_config_directory: Option<D>,
) -> (r: Result<CredentialsPath<D>, AuthError>)
    ensures
        match override_directory {
            Some(d) => r matches Ok(p) && p.directory == d && p.components@ == seq![
                CREDENTIALS_FILE_NAME,
            ],
            None => match platform_config_directory {
                Some(d) => r matches Ok(p) && p.directory == d && p.components@ == seq![
                    CONFIG_DIRECTORY_NAME,
                    CREDENTIALS_FILE_NAME,
                ],
                None => r matches Err(AuthError::ConfigDirectoryUnavailable),
            },
        },
{
    let mut components: Vec<&'static str> = Vec::new();
    match override_directory {
        Some(directory) => {
            components.push(CREDENTIALS_FILE_NAME);
            assert(components@ =~= seq![CREDENTIALS_FILE_NAME]);
            Ok(CredentialsPath { directory, components })
        },
        None => match platform_config_directory {
            Some(directory) => {
                components.push(CONFIG_DIRECTORY_NAME);
                components.push(CREDENTIALS_FILE_NAME);
                assert(components@ =~= seq![CONFIG_DIRECTORY_NAME, CREDENTIALS_FILE_NAME]);
                Ok(CredentialsPath { directory, components })
            },
            None => Err(AuthError::ConfigDirectoryUnavailable),
        },
    }
}

/// Whether Unix permission bits keep a file from every user but its owner.
pub open spec fn spec_mode_is_private(mode: u32) -> bool {
    mode & 0o077u32 == 0
}

/// Whether Unix permission bits keep a file from every user but its owner;
/// a credential file for which this fails is refused.
pub fn mode_is_private(mode: u32) -> (r: bool)
    ensures
        r == spec_mode_is_private(mode),
{
    mode & 0o077 == 0
}

/// The permissions that the credential is saved with pass the check that
/// loading it applies.
pub proof fn lemma_saved_mode_is_private()
    ensures
        spec_mode_is_private(CREDENTIALS_FILE_MODE),
        spec_mode_is_private(CREDENTIALS_DIRECTORY_MODE),
{
    assert(0o600u32 & 0o077u32 == 0) by (bit_vector);
    assert(0o700u32 & 0o077u32 == 0) by (bit_vector);
}

/// Reads the system clock as whole seconds since the Unix epoch, through
/// `std::time::SystemTime::now` and `duration_since`; `None` where the clock
/// is before the epoch. Nothing is claimed of the value: it is the time.
#[verifier::external_body]
fn seconds_since_unix_epoch() -> Option<u64> {
    std::time::SystemTime::now().duration_since(std::time::UNIX_EPOCH).ok().map(|d| d.as_secs())
}

/// The time for a reading of the clock: the seconds since the Unix epoch, or
/// `InvalidSystemTime` where the clock is before it.
pub fn timestamp_from(seconds: Option<u64>) -> (r: Result<u64, AuthError>)
    ensures
        match seconds {
            Some(s) => r == Ok::<u64, AuthError>(s),
            None => r matches Err(AuthError::InvalidSystemTime),
        },
{
    match seconds {
        Some(s) => Ok(s),
        None => Err(AuthError::InvalidSystemTime),
    }
}

/// The current time in whole seconds since the Unix epoch.
pub fn unix_timestamp() -> (r: Result<u64, AuthError>)
    ensures
        r matches Err(e) ==> e is InvalidSystemTime,
{
    timestamp_from(seconds_since_unix_epoch())
}

/// The credential that the CLI saves after logging in.
#[derive(Clone, Debug)]
pub struct StoredCredentials {
    /// The server that issued the token, as URL text.
    pub server_url: String,
    pub access_token: String,
    /// Seconds since the Unix epoch at which the token expires.
    pub expires_at: u64,
}

/// Whether the credential was issued by `server`.
pub open spec fn issued_by(credentials: StoredCredentials, server: ServerUrl) -> bool {
    credentials.server_url@ == server@.href
}

/// The time at which a token issued at `issued_at` for `lifetime` seconds
/// expires.
pub open spec fn expiry_time(issued_at: u64, lifetime: u64) -> int {
    issued_at + lifetime
}

/// The credential for a token that `server` issued at `now`, which expires
/// `expires_in` seconds later; `InvalidSystemTime` where that time overflows.
pub fn credentials_at(server: &ServerUrl, token: &TokenResponse, now: u64) -> (r: Result<
    StoredCredentials,
    AuthError,
>)
    ensures
        now + token.expires_in > u64::MAX ==> r matches Err(AuthError::InvalidSystemTime),
        now + token.expires_in <= u64::MAX ==> (r matches Ok(c) && issued_by(c, *server)
            && c.access_token@ == token.access_token@ && c.expires_at == now + token.expires_in),
{
    if token.expires_in > u64::MAX - now {
        Err(AuthError::InvalidSystemTime)
    } else {
        Ok(StoredCredentials {
            server_url: String::from_str(server.as_str()),
            access_token: token.access_token.clone(),
            expires_at: now + token.expires_in,
        })
    }
}

/// The credential for a token that `server` has just issued.
pub fn new_credentials(server: &ServerUrl, token: &TokenResponse) -> (r: Result<
    StoredCredentials,
    AuthError,
>)
    ensures
        r matches Ok(c) ==> issued_by(c, *server) && c.access_token@ == token.access_token@
            && exists|now: u64| c.expires_at == #[trigger] expiry_time(now, token.expires_in),
        r matches Err(e) ==> e is InvalidSystemTime,
{
    let now: u64 = unix_timestamp()?;
    let r = credentials_at(server, token, now);
    proof {
        if r is Ok {
            assert(r->Ok_0.expires_at == expiry_time(now, token.expires_in));
        }
    }
    r
}

/// The error for a credential that another server issued.
fn server_mismatch(credentials: &StoredCredentials, server: &ServerUrl) -> (r: AuthError)
    ensures
        r matches AuthError::ServerMismatch { saved, requested } && saved@
            == credentials.server_url@ && requested@ == server@.href,
{
    AuthError::ServerMismatch {
        saved: credentials.server_url.clone(),
        requested: String::from_str(server.as_str()),
    }
}

/// The access that a credential issued by the selected server grants at
/// `now`: its token until it expires.
pub open spec fn spec_access_token_at(credentials: StoredCredentials, now: u64) -> Result<
    AccessToken,
    AuthError,
> {
    if credentials.expires_at <= now {
        Err(AuthError::CredentialsExpired)
    } else {
        Ok(AccessToken(credentials.access_token))
    }
}

/// The access that a credential grants at `now`: its token until it expires.
pub fn access_token_at(credentials: StoredCredentials, now: u64) -> (r: Result<
    AccessToken,
    AuthError,
>)
    ensures
        r == spec_access_token_at(credentials, now),
{
    if credentials.expires_at <= now {
        Err(AuthError::CredentialsExpired)
    } else {
        Ok(AccessToken(credentials.access_token))
    }
}

/// The access token for requests to `server`, from the saved credential.
pub fn access_token(credentials: Option<StoredCredentials>, server: &ServerUrl) -> (r: Result<
    AccessToken,
    AuthError,
>)
    ensures
        match credentials {
            None => r matches Err(AuthError::NotLoggedIn),
            Some(c) => if !issued_by(c, *server) {
                r matches Err(AuthError::ServerMismatch { saved, requested }) && saved@
                    == c.server_url@ && requested@ == server@.href
            } else {
                r matches Err(AuthError::InvalidSystemTime) || exists|now: u64|
                    r == spec_access_token_at(c, now)
            },
        },
{
    match credentials {
        None => Err(AuthError::NotLoggedIn),
        Some(c) => {
            if !same_text(c.server_url.as_str(), server.as_str()) {
                return Err(server_mismatch(&c, server));
            }
            let now: u64 = unix_timestamp()?;
            access_token_at(c, now)
        },
    }
}

/// What the saved credential means for the selected server.
#[derive(Clone, Debug)]
pub enum CredentialStatus {
    /// No credential is saved.
    NotLoggedIn,
    /// The credential was issued by the server `saved`.
    OtherServer { saved: String },
    /// The credential has expired.
    Expired,
    /// The credential is valid for `remaining_secs` more seconds.
    Active { remaining_secs: u64 },
}

/// The status at `now` of a credential issued by the selected server.
pub open spec fn spec_status_at(credentials: StoredCredentials, now: u64) -> CredentialStatus {
    if credentials.expires_at <= now {
        CredentialStatus::Expired
    } else {
        CredentialStatus::Active { remaining_secs: (credentials.expires_at - now) as u64 }
    }
}

/// The status at `now` of a credential issued by the selected server.
pub fn status_at(credentials: &StoredCredentials, now: u64) -> (r: CredentialStatus)
    ensures
        r == spec_status_at(*credentials, now),
{
    if credentials.expires_at <= now {
        CredentialStatus::Expired
    } else {
        CredentialStatus::Active { remaining_secs: credentials.expires_at - now }
    }
}

/// A credential saved for a token that lasts `expires_in` seconds from
/// `issued_at` grants that token at every time before it expires, and at no
/// time after.
pub proof fn lemma_credentials_last_their_lifetime(
    credentials: StoredCredentials,
    issued_at: u64,
    expires_in: u64,
    now: u64,
)
    requires
        credentials.expires_at == issued_at + expires_in,
    ensures
        now < issued_at + expires_in ==> spec_access_token_at(credentials, now) == Ok::<
            AccessToken,
            AuthError,
        >(AccessToken(credentials.access_token)),
        now >= issued_at + expires_in ==> spec_access_token_at(credentials, now) matches Err(
            AuthError::CredentialsExpired,
        ),
{
}

/// The status of a credential says it is active exactly when it grants its
/// token, and the seconds it reports remain are those until it expires.
pub proof fn lemma_status_agrees_with_access(credentials: StoredCredentials, now: u64)
    ensures
        (spec_status_at(credentials, now) is Active) == (spec_access_token_at(
            credentials,
            now,
        ) is Ok),
        spec_status_at(credentials, now) matches CredentialStatus::Active { remaining_secs }
            ==> now + remaining_secs == credentials.expires_at,
{
}

/// What the saved credential means for `server`.
pub fn credential_status(credentials: Option<StoredCredentials>, server: &ServerUrl) -> (r: Result<
    CredentialStatus,
    AuthError,
>)
    ensures
        match credentials {
            None => r matches Ok(CredentialStatus::NotLoggedIn),
            Some(c) => if !issued_by(c, *server) {
                r matches Ok(CredentialStatus::OtherServer { saved }) && saved@ == c.server_url@
            } else {
                r matches Err(AuthError::InvalidSystemTime) || exists|now: u64|
                    r == Ok::<CredentialStatus, AuthError>(spec_status_at(c, now))
            },
        },
{
    match credentials {
        None => Ok(CredentialStatus::NotLoggedIn),
        Some(c) => {
            if !same_text(c.server_url.as_str(), server.as_str()) {
                return Ok(CredentialStatus::OtherServer { saved: c.server_url });
            }
            let now: u64 = unix_timestamp()?;
            Ok(status_at(&c, now))
        },
    }
}

/// Where a logout stands.
#[derive(Clone, Copy, Debug, PartialEq, Eq, Structural)]
pub enum LogoutStage {
    /// The saved credential is being read.
    AwaitingCredentials,
    /// The server is revoking the saved token.
    AwaitingRevocation,
    /// Nothing is left to do.
    Done,
}

/// What happened since the last step of a logout.
pub enum LogoutEvent {
    /// The saved credential was read; `None` where there is none.
    CredentialsLoaded(Option<StoredCredentials>),
    /// The server revoked the token.
    RevocationSucceeded,
    /// Revoking the token failed.
    RevocationFailed,
}

/// What a logout does next.
#[derive(Debug)]
pub enum LogoutAction {
    /// Tell the user that there is nothing to log out of.
    ReportNotLoggedIn,
    /// Stop with this error; the credential stays.
    Fail(AuthError),
    /// Ask the server to revoke this access token.
    RevokeToken(String),
    /// Delete the saved credential.
    RemoveCredential,
    /// Leave the saved credential as it is.
    KeepCredential,
}

/// A logout from one server: the token is revoked on the server before the
/// saved credential is removed, and a failed revocation leaves the
/// credential in place so that the logout can be retried.
pub struct Logout {
    stage: LogoutStage,
}

impl Logout {
    /// Where the logout stands.
    pub closed spec fn stage(self) -> LogoutStage {
        self.stage
    }

    /// A logout that has not read the credential yet.
    pub fn new() -> (r: Logout)
        ensures
            r.stage() == LogoutStage::AwaitingCredentials,
    {
        Logout { stage: LogoutStage::AwaitingCredentials }
    }

    /// The next action of a logout from `server`, given what just happened.
    pub fn step(&mut self, server: &ServerUrl, event: LogoutEvent) -> (r: LogoutAction)
        ensures
            match (old(self).stage(), event) {
                (LogoutStage::AwaitingCredentials, LogoutEvent::CredentialsLoaded(None)) => {
                    &&& r is ReportNotLoggedIn
                    &&& final(self).stage() == LogoutStage::Done
                },
                (LogoutStage::AwaitingCredentials, LogoutEvent::CredentialsLoaded(Some(c))) => {
                    if issued_by(c, *server) {
                        &&& r matches LogoutAction::RevokeToken(t) && t@ == c.access_token@
                        &&& final(self).stage() == LogoutStage::AwaitingRevocation
                    } else {
                        &&& r matches LogoutAction::Fail(AuthError::ServerMismatch { saved, requested })
                            && saved@ == c.server_url@ && requested@ == server@.href
                        &&& final(self).stage() == LogoutStage::Done
                    }
                },
                (LogoutStage::AwaitingRevocation, LogoutEvent::RevocationSucceeded) => {
                    &&& r is RemoveCredential
                    &&& final(self).stage() == LogoutStage::Done
                },
                (LogoutStage::AwaitingRevocation, LogoutEvent::RevocationFailed) => {
                    &&& r is KeepCredential
                    &&& final(self).stage() == LogoutStage::Done
                },
                _ => {
                    &&& r is KeepCredential
                    &&& final(self).stage() == old(self).stage()
                },
            },
            r is RemoveCredential ==> old(self).stage() == LogoutStage::AwaitingRevocation
                && event is RevocationSucceeded,
    {
        match (self.stage, event) {
            (LogoutStage::AwaitingCredentials, LogoutEvent::CredentialsLoaded(None)) => {
                self.stage = LogoutStage::Done;
                LogoutAction::ReportNotLoggedIn
            },
            (LogoutStage::AwaitingCredentials, LogoutEvent::CredentialsLoaded(Some(c))) => {
                if same_text(c.server_url.as_str(), server.as_str()) {
                    self.stage = LogoutStage::AwaitingRevocation;
                    LogoutAction::RevokeToken(c.access_token)
                } else {
                    self.stage = LogoutStage::Done;
                    LogoutAction::Fail(server_mismatch(&c, server))
                }
            },
            (LogoutStage::AwaitingRevocation, LogoutEvent::RevocationSucceeded) => {
                self.stage = LogoutStage::Done;
                LogoutAction::RemoveCredential
            },
            (LogoutStage::AwaitingRevocation, LogoutEvent::RevocationFailed) => {
                self.stage = LogoutStage::Done;
                LogoutAction::KeepCredential
            },
            _ => LogoutAction::KeepCredential,
        }
    }
}

} // verus!
