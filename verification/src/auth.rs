//! The Opsd server the CLI talks to, the OAuth routes derived from it, the
//! errors of authentication, and the access token it hands out.

use vstd::prelude::*;
use vstd::string::*;
use crate::web_url::{plain_route, root_url_rejection, url_join, url_parse, ParsedUrl, UrlRejection, UrlView};

verus! {

/// The OAuth client identifier of this CLI.
pub const CLIENT_ID: &'static str = "opsctl";

/// The grant type of the OAuth device authorization flow.
pub const DEVICE_GRANT_TYPE: &'static str = "urn:ietf:params:oauth:grant-type:device_code";

/// The kind of token a revocation request names.
pub const TOKEN_TYPE_HINT: &'static str = "access_token";

/// The server that the CLI uses unless told otherwise.
pub const PRODUCTION_SERVER_URL: &'static str = "https://api.opsd.sh/";

/// The OAuth endpoints of an Opsd server.
#[derive(Clone, Copy, Debug, PartialEq, Eq, Structural)]
pub enum OAuthEndpoint {
    DeviceAuthorization,
    Token,
    Revocation,
}

impl OAuthEndpoint {
    /// The route of the endpoint, relative to the server URL.
    pub open spec fn spec_route(self) -> Seq<char> {
        match self {
            OAuthEndpoint::DeviceAuthorization => "oauth/device/authorization"@,
            OAuthEndpoint::Token => "oauth/token"@,
            OAuthEndpoint::Revocation => "oauth/revoke"@,
        }
    }

    /// The route of the endpoint, relative to the server URL.
    pub fn route(&self) -> (r: &'static str)
        ensures
            r@ == self.spec_route(),
    {
        match self {
            OAuthEndpoint::DeviceAuthorization => "oauth/device/authorization",
            OAuthEndpoint::Token => "oauth/token",
            OAuthEndpoint::Revocation => "oauth/revoke",
        }
    }

    /// The absolute path of the endpoint, as error messages name it.
    pub open spec fn spec_path(self) -> Seq<char> {
        match self {
            OAuthEndpoint::DeviceAuthorization => "/oauth/device/authorization"@,
            OAuthEndpoint::Token => "/oauth/token"@,
            OAuthEndpoint::Revocation => "/oauth/revoke"@,
        }
    }

    /// The absolute path of the endpoint, as error messages name it.
    pub fn path(&self) -> (r: &'static str)
        ensures
            r@ == self.spec_path(),
    {
        match self {
            OAuthEndpoint::DeviceAuthorization => "/oauth/device/authorization",
            OAuthEndpoint::Token => "/oauth/token",
            OAuthEndpoint::Revocation => "/oauth/revoke",
        }
    }
}

/// The ways in which authenticating the CLI fails.
#[derive(Clone, Debug)]
pub enum AuthError {
    /// The server URL given on the command line is refused.
    InvalidServerUrl(UrlRejection),
    /// No configuration directory is known for this user.
    ConfigDirectoryUnavailable,
    /// No credential is saved.
    NotLoggedIn,
    /// The saved credential was issued by another server.
    ServerMismatch { saved: String, requested: String },
    /// The saved credential has expired.
    CredentialsExpired,
    /// An OAuth endpoint answered with a status and no OAuth error.
    UnexpectedResponse { endpoint: OAuthEndpoint, status: u16 },
    /// The OAuth server rejected the request with the given error code.
    Protocol(String),
    /// The device authorization expired before it was approved.
    DeviceAuthorizationExpired,
    /// The OAuth server issued a token that is not a bearer token.
    UnsupportedTokenType,
    /// The system clock is before the Unix epoch, or the expiry overflows.
    InvalidSystemTime,
}

/// The error that a rejected OAuth request yields: `Protocol` with the OAuth
/// error code where the response carried one, else `UnexpectedResponse` with
/// the endpoint and the HTTP status.
pub fn oauth_rejection(endpoint: OAuthEndpoint, status: u16, error: Option<String>) -> (r: AuthError)
    ensures
        match error {
            Some(code) => r matches AuthError::Protocol(c) && c@ == code@,
            None => r == (AuthError::UnexpectedResponse { endpoint, status }),
        },
{
    match error {
        Some(code) => AuthError::Protocol(code),
        None => AuthError::UnexpectedResponse { endpoint, status },
    }
}

/// An Opsd server: an `http` or `https` URL with a host, no credentials, the
/// root path and no query or fragment.
#[derive(Debug, PartialEq, Eq)]
pub struct ServerUrl {
    url: ParsedUrl,
}

impl ServerUrl {
    #[verifier::type_invariant]
    spec fn is_service_origin(self) -> bool {
        root_url_rejection(self.url@) is None
    }
}

impl View for ServerUrl {
    type V = UrlView;

    closed spec fn view(&self) -> UrlView {
        self.url@
    }
}

impl ServerUrl {
    /// The server URL given on the command line, if it is acceptable.
    pub fn from_override(url: ParsedUrl) -> (r: Result<ServerUrl, AuthError>)
        ensures
            match root_url_rejection(url@) {
                Some(reason) => r == Err::<ServerUrl, AuthError>(AuthError::InvalidServerUrl(reason)),
                None => r matches Ok(server) && server@ == url@,
            },
    {
        match url.root_rejection() {
            Some(reason) => Err(AuthError::InvalidServerUrl(reason)),
            None => Ok(ServerUrl { url }),
        }
    }

    /// The production server, `https://api.opsd.sh/`.
    pub fn production() -> (r: Option<ServerUrl>)
        ensures
            match url_parse(PRODUCTION_SERVER_URL@) {
                Some(u) => match r {
                    Some(server) => server@ == u && root_url_rejection(u) is None,
                    None => root_url_rejection(u) is Some,
                },
                None => r is None,
            },
    {
        match ParsedUrl::parse(PRODUCTION_SERVER_URL) {
            Some(url) => match ServerUrl::from_override(url) {
                Ok(server) => Some(server),
                Err(_) => None,
            },
            None => None,
        }
    }

    /// The URL of the server.
    pub fn as_url(&self) -> (r: &ParsedUrl)
        ensures
            r@ == self@,
            root_url_rejection(self@) is None,
    {
        proof {
            use_type_invariant(self);
        }
        &self.url
    }

    /// The URL of the server as text.
    pub fn as_str(&self) -> (r: &str)
        ensures
            r@ == self@.href,
            root_url_rejection(self@) is None,
    {
        proof {
            use_type_invariant(self);
        }
        self.url.as_str()
    }

    /// The URL that the plain route `path` resolves to against the server
    /// URL: the server URL's text followed by the route.
    fn join(&self, path: &str) -> (r: String)
        requires
            plain_route(path@),
        ensures
            r@ == self@.href + path@,
            url_join(self@.href, path@) == Some(r@),
    {
        proof {
            use_type_invariant(self);
        }
        self.url.join(path).unwrap()
    }

    /// The base URL of the public API, `v1/` under the server URL.
    pub fn public_api_base_url(&self) -> (r: String)
        ensures
            r@ == self@.href + "v1/"@,
            url_join(self@.href, "v1/"@) == Some(r@),
    {
        proof {
            lemma_api_route_is_plain();
        }
        self.join("v1/")
    }

    /// The URL of one of the OAuth endpoints of the server.
    pub fn endpoint_url(&self, endpoint: OAuthEndpoint) -> (r: String)
        ensures
            r@ == self@.href + endpoint.spec_route(),
            url_join(self@.href, endpoint.spec_route()) == Some(r@),
    {
        proof {
            lemma_endpoint_routes_are_plain(endpoint);
        }
        self.join(endpoint.route())
    }

    /// The URL of the device authorization endpoint.
    pub fn device_authorization_url(&self) -> (r: String)
        ensures
            r@ == self@.href + "oauth/device/authorization"@,
            url_join(self@.href, "oauth/device/authorization"@) == Some(r@),
    {
        self.endpoint_url(OAuthEndpoint::DeviceAuthorization)
    }

    /// The URL of the token endpoint.
    pub fn token_url(&self) -> (r: String)
        ensures
            r@ == self@.href + "oauth/token"@,
            url_join(self@.href, "oauth/token"@) == Some(r@),
    {
        self.endpoint_url(OAuthEndpoint::Token)
    }

    /// The URL of the token revocation endpoint.
    pub fn revocation_url(&self) -> (r: String)
        ensures
            r@ == self@.href + "oauth/revoke"@,
            url_join(self@.href, "oauth/revoke"@) == Some(r@),
    {
        self.endpoint_url(OAuthEndpoint::Revocation)
    }
}

/// The route of the public API is a plain route.
proof fn lemma_api_route_is_plain()
    ensures
        plain_route("v1/"@),
{
    reveal_strlit("v1/");
}

/// The routes of the OAuth endpoints are plain routes.
proof fn lemma_endpoint_routes_are_plain(endpoint: OAuthEndpoint)
    ensures
        plain_route(endpoint.spec_route()),
{
    reveal_strlit("oauth/device/authorization");
    reveal_strlit("oauth/token");
    reveal_strlit("oauth/revoke");
}

/// An opaque OAuth access token.
pub struct AccessToken(pub String);

impl AccessToken {
    /// The token itself.
    pub fn into_inner(self) -> (r: String)
        ensures
            r == self.0,
    {
        self.0
    }

    /// How the token shows in debugging output: never the token itself.
    pub fn debug_text(&self) -> (r: &'static str)
        ensures
            r@ == "AccessToken([REDACTED])"@,
    {
        "AccessToken([REDACTED])"
    }
}

/// A field of a form-encoded OAuth request.
pub struct FormField {
    pub name: &'static str,
    pub value: String,
}

/// The view of a form: its names and values as text.
pub open spec fn form_text(fields: Seq<FormField>) -> Seq<(Seq<char>, Seq<char>)> {
    fields.map_values(|f: FormField| (f.name@, f.value@))
}

/// The form that starts a device authorization for this CLI.
pub fn device_authorization_form(device_name: &str) -> (r: Vec<FormField>)
    ensures
        form_text(r@) == seq![("client_id"@, CLIENT_ID@), ("device_name"@, device_name@)],
{
    let mut form: Vec<FormField> = Vec::new();
    form.push(FormField { name: "client_id", value: String::from_str(CLIENT_ID) });
    form.push(FormField { name: "device_name", value: String::from_str(device_name) });
    assert(form_text(form@) =~= seq![("client_id"@, CLIENT_ID@), ("device_name"@, device_name@)]);
    form
}

/// The form that asks the token endpoint whether a device code was approved.
pub fn token_request_form(device_code: &str) -> (r: Vec<FormField>)
    ensures
        form_text(r@) == seq![
            ("grant_type"@, DEVICE_GRANT_TYPE@),
            ("device_code"@, device_code@),
            ("client_id"@, CLIENT_ID@),
        ],
{
    let mut form: Vec<FormField> = Vec::new();
    form.push(FormField { name: "grant_type", value: String::from_str(DEVICE_GRANT_TYPE) });
    form.push(FormField { name: "device_code", value: String::from_str(device_code) });
    form.push(FormField { name: "client_id", value: String::from_str(CLIENT_ID) });
    assert(form_text(form@) =~= seq![
        ("grant_type"@, DEVICE_GRANT_TYPE@),
        ("device_code"@, device_code@),
        ("client_id"@, CLIENT_ID@),
    ]);
    form
}

/// The form that revokes an access token.
pub fn revocation_form(access_token: &str) -> (r: Vec<FormField>)
    ensures
        form_text(r@) == seq![
            ("token"@, access_token@),
            ("token_type_hint"@, TOKEN_TYPE_HINT@),
            ("client_id"@, CLIENT_ID@),
        ],
{
    let mut form: Vec<FormField> = Vec::new();
    form.push(FormField { name: "token", value: String::from_str(access_token) });
    form.push(FormField { name: "token_type_hint", value: String::from_str(TOKEN_TYPE_HINT) });
    form.push(FormField { name: "client_id", value: String::from_str(CLIENT_ID) });
    assert(form_text(form@) =~= seq![
        ("token"@, access_token@),
        ("token_type_hint"@, TOKEN_TYPE_HINT@),
        ("client_id"@, CLIENT_ID@),
    ]);
    form
}

} // verus!
