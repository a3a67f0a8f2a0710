//! URLs as the library reads them: the text of a parsed URL and its parts,
//! and the rule that a configured base URL must be a bare web origin.

use vstd::prelude::*;
use crate::text::same_text;

verus! {

/// The parts of a parsed URL, as text.
pub struct UrlView {
    /// The whole URL, as the parser writes it out.
    pub href: Seq<char>,
    pub scheme: Seq<char>,
    pub host: Option<Seq<char>>,
    pub username: Seq<char>,
    pub password: Option<Seq<char>>,
    pub path: Seq<char>,
    pub query: Option<Seq<char>>,
    pub fragment: Option<Seq<char>>,
}

/// What `url::Url::parse` makes of `input`: `None` where it refuses the text,
/// else the parts of the URL it returns.
pub uninterp spec fn url_parse(input: Seq<char>) -> Option<UrlView>;

/// The text of the URL that `url::Url::join` gives for `input` against the
/// URL that `base` parses to; `None` where either step fails.
pub uninterp spec fn url_join(base: Seq<char>, input: Seq<char>) -> Option<Seq<char>>;

/// The text of the URL that `base` parses to once `(name, value)` has been
/// appended to its query with `form_urlencoded::Serializer::append_pair`;
/// `None` where `base` does not parse.
pub uninterp spec fn url_with_query_pair(
    base: Seq<char>,
    name: Seq<char>,
    value: Seq<char>,
) -> Option<Seq<char>>;

/// The text of an optional string.
pub open spec fn opt_text(o: Option<String>) -> Option<Seq<char>> {
    match o {
        Some(s) => Some(s@),
        None => None,
    }
}

/// A URL accepted by the URL parser, held as the text of its parts.
#[derive(Clone, Debug, PartialEq, Eq)]
pub struct ParsedUrl {
    href: String,
    scheme: String,
    host: Option<String>,
    username: String,
    password: Option<String>,
    path: String,
    query: Option<String>,
    fragment: Option<String>,
}

impl View for ParsedUrl {
    type V = UrlView;

    closed spec fn view(&self) -> UrlView {
        UrlView {
            href: self.href@,
            scheme: self.scheme@,
            host: opt_text(self.host),
            username: self.username@,
            password: opt_text(self.password),
            path: self.path@,
            query: opt_text(self.query),
            fragment: opt_text(self.fragment),
        }
    }
}

/// Calls `url::Url::parse` and copies out the text of the parts the library
/// reads. The contract claims that the result is what `url_parse` names for
/// the input; what the parser accepts and how it normalises is left unsaid.
#[verifier::external_body]
fn parse_with_url_crate(input: &str) -> (r: Option<ParsedUrl>)
    ensures
        match r {
            Some(u) => url_parse(input@) == Some(u@),
            None => url_parse(input@) is None,
        },
{
    let u = url::Url::parse(input).ok()?;
    let text = |s: Option<&str>| s.map(String::from);
    Some(ParsedUrl {
        href: u.as_str().into(), scheme: u.scheme().into(), host: text(u.host_str()),
        username: u.username().into(), password: text(u.password()), path: u.path().into(),
        query: text(u.query()), fragment: text(u.fragment()),
    })
}

/// Whether `c` may stand in a plain route: a small ASCII letter, a digit,
/// `-` or `/`.
pub open spec fn route_char(c: char) -> bool {
    ('a' <= c && c <= 'z') || ('0' <= c && c <= '9') || c == '-' || c == '/'
}

/// A plain relative route: not empty, not starting with `/`, and made of
/// small ASCII letters, digits, `-` and `/` only, so that it has no scheme,
/// no `.` segment, no query, no fragment and nothing to percent-encode.
pub open spec fn plain_route(route: Seq<char>) -> bool {
    &&& route.len() > 0
    &&& route[0] != '/'
    &&& forall|i: int| 0 <= i < route.len() ==> route_char(#[trigger] route[i])
}

/// Calls `url::Url::join` on the URL that the text of `base` parses to and
/// writes the result out as text. The contract claims that the result is what
/// `url_join` names for the two arguments, and, where `base` is a bare
/// `http`/`https` origin and `input` a plain route, that it is the text of
/// `base` followed by `input`: the parser's relative-path state keeps the
/// scheme, host and port, drops the last segment of the base path (nothing,
/// for the path `/`), and appends the route's segments unchanged.
#[verifier::external_body]
fn join_with_url_crate(base: &ParsedUrl, input: &str) -> (r: Option<String>)
    ensures
        opt_text(r) == url_join(base@.href, input@),
        root_url_rejection(base@) is None && plain_route(input@) ==> opt_text(r) == Some(
            base@.href + input@,
        ),
{
    url::Url::parse(&base.href).ok()?.join(input).ok().map(String::from)
}

/// Calls `form_urlencoded::Serializer::append_pair` on the query of the URL
/// that `base` parses to, through `url::Url::query_pairs_mut`, and writes the
/// URL out as text. The contract claims that the result is what
/// `url_with_query_pair` names for the three arguments.
#[verifier::external_body]
pub(crate) fn append_query_pair_with_url_crate(base: &str, name: &str, value: &str) -> (r: Option<String>)
    ensures
        opt_text(r) == url_with_query_pair(base@, name@, value@),
{
    let mut u = url::Url::parse(base).ok()?;
    u.query_pairs_mut().append_pair(name, value);
    Some(u.into())
}

/// Why a URL is refused as the base of a service.
#[derive(Clone, Copy, Debug, PartialEq, Eq, Structural)]
pub enum UrlRejection {
    /// The scheme is neither `http` nor `https`.
    UnsupportedScheme,
    /// The URL names no host.
    MissingHost,
    /// The URL carries a user name or a password.
    EmbeddedCredentials,
    /// The URL has a path other than `/`, a query or a fragment.
    NotRoot,
}

/// The reason, if any, for which `u` cannot serve as the base URL of a
/// service; the checks are made in this order.
pub open spec fn root_url_rejection(u: UrlView) -> Option<UrlRejection> {
    if !(u.scheme == "http"@ || u.scheme == "https"@) {
        Some(UrlRejection::UnsupportedScheme)
    } else if u.host is None {
        Some(UrlRejection::MissingHost)
    } else if u.username.len() != 0 || u.password is Some {
        Some(UrlRejection::EmbeddedCredentials)
    } else if u.path != "/"@ || u.query is Some || u.fragment is Some {
        Some(UrlRejection::NotRoot)
    } else {
        None
    }
}

impl UrlRejection {
    /// The sentence that explains the rejection.
    pub open spec fn spec_message(self) -> Seq<char> {
        match self {
            UrlRejection::UnsupportedScheme => "scheme must be HTTP or HTTPS"@,
            UrlRejection::MissingHost => "host is required"@,
            UrlRejection::EmbeddedCredentials => "credentials are not permitted"@,
            UrlRejection::NotRoot => "path, query, and fragment must be empty"@,
        }
    }

    /// The sentence that explains the rejection.
    pub fn message(&self) -> (r: &'static str)
        ensures
            r@ == self.spec_message(),
    {
        match self {
            UrlRejection::UnsupportedScheme => "scheme must be HTTP or HTTPS",
            UrlRejection::MissingHost => "host is required",
            UrlRejection::EmbeddedCredentials => "credentials are not permitted",
            UrlRejection::NotRoot => "path, query, and fragment must be empty",
        }
    }
}

impl ParsedUrl {
    /// Parses `input` as a URL.
    pub fn parse(input: &str) -> (r: Option<ParsedUrl>)
        ensures
            match r {
                Some(u) => url_parse(input@) == Some(u@),
                None => url_parse(input@) is None,
            },
    {
        parse_with_url_crate(input)
    }

    /// The whole URL as text.
    pub fn as_str(&self) -> (r: &str)
        ensures
            r@ == self@.href,
    {
        self.href.as_str()
    }

    /// The reason, if any, for which this URL cannot serve as the base URL of
    /// a service.
    pub fn root_rejection(&self) -> (r: Option<UrlRejection>)
        ensures
            r == root_url_rejection(self@),
    {
        let scheme = self.scheme.as_str();
        if !(same_text(scheme, "http") || same_text(scheme, "https")) {
            Some(UrlRejection::UnsupportedScheme)
        } else if self.host.is_none() {
            Some(UrlRejection::MissingHost)
        } else if !self.username.as_str().is_empty() || self.password.is_some() {
            Some(UrlRejection::EmbeddedCredentials)
        } else if !same_text(self.path.as_str(), "/") || self.query.is_some()
            || self.fragment.is_some() {
            Some(UrlRejection::NotRoot)
        } else {
            None
        }
    }

    /// The text of the URL that `input` resolves to against this URL.
    pub fn join(&self, input: &str) -> (r: Option<String>)
        ensures
            opt_text(r) == url_join(self@.href, input@),
            root_url_rejection(self@) is None && plain_route(input@) ==> (r matches Some(t)
                && t@ == self@.href + input@),
    {
        join_with_url_crate(self, input)
    }
}

} // verus!
