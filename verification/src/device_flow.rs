//! The OAuth device authorization flow: the name this device gives itself,
//! the answers of the token endpoint, and the schedule of polling it.

use vstd::prelude::*;
use vstd::string::*;
use crate::auth::{AuthError, OAuthEndpoint};
use crate::text::{
    all_whitespace, char_is_whitespace, lemma_trim_removes_padding, lemma_trimmed_is_inside_padding,
    ascii_case_insensitive_eq, contains_control, eq_ignore_ascii_case, has_control,
    lemma_trimmed_idempotent, same_text, trim, trimmed,
};
use crate::web_url::opt_text;

verus! {

/// The most characters a device name may have.
pub const MAX_DEVICE_NAME_CHARACTERS: usize = 80;

/// The device name made of `name`: the text trimmed of surrounding
/// whitespace, where it is not empty, has at most
/// `MAX_DEVICE_NAME_CHARACTERS` characters and no control character.
pub open spec fn spec_normalize_device_name(name: Seq<char>) -> Option<Seq<char>> {
    let t = trimmed(name);
    if t.len() == 0 || t.len() > MAX_DEVICE_NAME_CHARACTERS || has_control(t) {
        None
    } else {
        Some(t)
    }
}

/// The device name made of `name`, if it makes one.
pub fn normalize_device_name(name: &str) -> (r: Option<String>)
    ensures
        opt_text(r) == spec_normalize_device_name(name@),
        0 < trimmed(name@).len() <= MAX_DEVICE_NAME_CHARACTERS && !has_control(trimmed(name@))
            ==> opt_text(r) == Some(trimmed(name@)),
        r is None ==> trimmed(name@).len() == 0 || trimmed(name@).len() > MAX_DEVICE_NAME_CHARACTERS
            || has_control(trimmed(name@)),
{
    let t = trim(name);
    let n: usize = t.unicode_len();
    if n == 0 || n > MAX_DEVICE_NAME_CHARACTERS || contains_control(t) {
        None
    } else {
        Some(String::from_str(t))
    }
}

/// A device name is its own device name: the names that
/// `normalize_device_name` gives back are trimmed, not empty, at most
/// `MAX_DEVICE_NAME_CHARACTERS` long and free of control characters, and
/// normalizing one again gives it back unchanged.
pub proof fn lemma_device_name_is_stable(name: Seq<char>)
    ensures
        spec_normalize_device_name(name) matches Some(n) ==> {
            &&& 0 < n.len() <= MAX_DEVICE_NAME_CHARACTERS
            &&& !has_control(n)
            &&& trimmed(n) == n
            &&& spec_normalize_device_name(n) == Some(n)
        },
{
    lemma_trimmed_idempotent(name);
}

/// A usable name survives: a name that does not start or end with
/// whitespace, has at most `MAX_DEVICE_NAME_CHARACTERS` characters and no
/// control character is the device name of itself surrounded by any
/// whitespace.
pub proof fn lemma_device_name_keeps_usable_names(
    before: Seq<char>,
    body: Seq<char>,
    after: Seq<char>,
)
    requires
        all_whitespace(before),
        all_whitespace(after),
        0 < body.len() <= MAX_DEVICE_NAME_CHARACTERS,
        !char_is_whitespace(body[0]),
        !char_is_whitespace(body.last()),
        !has_control(body),
    ensures
        spec_normalize_device_name(before + body + after) == Some(body),
{
    lemma_trim_removes_padding(before, body, after);
}

/// A name is refused only for being blank, too long, or holding a control
/// character: for a name surrounded by whitespace, there is no device name
/// exactly when the name inside has more than `MAX_DEVICE_NAME_CHARACTERS`
/// characters or a control character; a name of whitespace alone has none;
/// and whatever device name there is, is the name inside its surrounding
/// whitespace.
pub proof fn lemma_device_name_refusals(
    before: Seq<char>,
    body: Seq<char>,
    after: Seq<char>,
    name: Seq<char>,
)
    requires
        all_whitespace(before),
        all_whitespace(after),
        body.len() > 0,
        !char_is_whitespace(body[0]),
        !char_is_whitespace(body.last()),
    ensures
        (spec_normalize_device_name(before + body + after) is None) == (body.len()
            > MAX_DEVICE_NAME_CHARACTERS || has_control(body)),
        all_whitespace(name) ==> spec_normalize_device_name(name) is None,
        spec_normalize_device_name(name) matches Some(n) ==> exists|b: Seq<char>, a: Seq<char>|
            #![trigger all_whitespace(b), all_whitespace(a)]
            all_whitespace(b) && all_whitespace(a) && name == b + n + a,
{
    lemma_trim_removes_padding(before, body, after);
    lemma_trimmed_is_inside_padding(name);
    if spec_normalize_device_name(name) is Some {
        let t = trimmed(name);
        let (b, a) = choose|b: Seq<char>, a: Seq<char>|
            all_whitespace(b) && all_whitespace(a) && name == b + t + a;
        assert(all_whitespace(b) && all_whitespace(a) && name == b + t + a);
        assert(spec_normalize_device_name(name) == Some(t));
    }
    if all_whitespace(name) {
        let t = trimmed(name);
        let (b, a) = choose|b: Seq<char>, a: Seq<char>|
            all_whitespace(b) && all_whitespace(a) && name == b + t + a;
        if t.len() > 0 {
            assert(name[b.len() as int] == t[0]);
            lemma_trimmed_idempotent(name);
            assert(char_is_whitespace(name[b.len() as int]));
        }
    }
}

/// The name a device without a usable host name goes by.
pub open spec fn fallback_device_name(os: Seq<char>) -> Seq<char> {
    "Opsd CLI on "@ + os
}

/// The device name for a host name, if the system gave one, on the operating
/// system `os`.
pub open spec fn spec_device_name(hostname: Option<Seq<char>>, os: Seq<char>) -> Seq<char> {
    match hostname {
        Some(h) => match spec_normalize_device_name(h) {
            Some(n) => n,
            None => fallback_device_name(os),
        },
        None => fallback_device_name(os),
    }
}

/// The device name for a host name, if the system gave one, on the operating
/// system `os`.
pub fn device_name_from(hostname: Option<String>, os: &str) -> (r: String)
    ensures
        r@ == spec_device_name(opt_text(hostname), os@),
{
    let normalized = match hostname {
        Some(h) => normalize_device_name(h.as_str()),
        None => None,
    };
    match normalized {
        Some(n) => n,
        None => String::from_str("Opsd CLI on ").concat(os),
    }
}

/// Calls `hostname::get` and keeps the name where it is valid Unicode.
/// Nothing is claimed of the result: it is whatever the system reports.
#[verifier::external_body]
fn system_host_name() -> Option<String> {
    hostname::get().ok()?.into_string().ok()
}

/// The name this device gives itself when it asks for authorization: its
/// host name where that makes a device name, else a name made of `os`.
pub fn device_name(os: &str) -> (r: String)
    ensures
        r@ == fallback_device_name(os@) || spec_normalize_device_name(r@) == Some(r@),
{
    let hostname = system_host_name();
    let ghost h = opt_text(hostname);
    let r = device_name_from(hostname, os);
    proof {
        if let Some(text) = h {
            lemma_device_name_is_stable(text);
        }
    }
    r
}

/// What to do about an OAuth error that the token endpoint answers with
/// while the user has not approved the device yet.
#[derive(Clone, Copy, Debug, PartialEq, Eq, Structural)]
pub enum PollAction {
    /// Keep polling at the same interval.
    Pending,
    /// Keep polling, more slowly.
    SlowDown,
    /// Give up: the device code has expired.
    Expired,
}

/// The action for an OAuth error code of the token endpoint, where it has one.
pub open spec fn spec_poll_action(error: Seq<char>) -> Option<PollAction> {
    if error == "authorization_pending"@ {
        Some(PollAction::Pending)
    } else if error == "slow_down"@ {
        Some(PollAction::SlowDown)
    } else if error == "expired_token"@ {
        Some(PollAction::Expired)
    } else {
        None
    }
}

/// The action for an OAuth error code of the token endpoint; any other code
/// is a `Protocol` error that carries it.
pub fn poll_action(error: &str) -> (r: Result<PollAction, AuthError>)
    ensures
        match spec_poll_action(error@) {
            Some(action) => r == Ok::<PollAction, AuthError>(action),
            None => r matches Err(AuthError::Protocol(code)) && code@ == error@,
        },
{
    if same_text(error, "authorization_pending") {
        Ok(PollAction::Pending)
    } else if same_text(error, "slow_down") {
        Ok(PollAction::SlowDown)
    } else if same_text(error, "expired_token") {
        Ok(PollAction::Expired)
    } else {
        Err(AuthError::Protocol(String::from_str(error)))
    }
}

/// A token issued by the token endpoint.
#[derive(Clone, Debug)]
pub struct TokenResponse {
    pub access_token: String,
    pub token_type: String,
    /// Seconds until the token expires.
    pub expires_in: u64,
}

/// Whether the CLI can use an issued token: a bearer token, whatever the
/// case of the type's name, that is not empty.
pub open spec fn usable_token(token: TokenResponse) -> bool {
    ascii_case_insensitive_eq(token.token_type@, "bearer"@) && token.access_token@.len() > 0
}

/// What the token endpoint answered to one poll.
pub enum TokenPollResponse {
    /// A success status, with the token it issued.
    Issued(TokenResponse),
    /// Any other status, with the OAuth error code where the body carried one.
    Rejected { status: u16, error: Option<String> },
}

/// Nanoseconds in a second.
pub const NANOS_PER_SECOND: u128 = 1_000_000_000;

/// How much longer the interval gets when the server asks to slow down.
pub const SLOW_DOWN_INCREMENT_NANOS: u128 = 5_000_000_000;

/// The longest interval there is: `u64::MAX` seconds and 999 999 999
/// nanoseconds, where a longer one saturates.
pub const MAX_INTERVAL_NANOS: u128 = 18_446_744_073_709_551_615_999_999_999;

/// The interval after a request to slow down: five seconds longer, up to
/// `MAX_INTERVAL_NANOS`.
pub open spec fn slowed_interval(interval: int) -> int {
    if interval + SLOW_DOWN_INCREMENT_NANOS > MAX_INTERVAL_NANOS {
        MAX_INTERVAL_NANOS as int
    } else {
        interval + SLOW_DOWN_INCREMENT_NANOS
    }
}

/// Slowing down never shortens the interval and never takes it past the
/// longest interval there is.
pub proof fn lemma_slowing_down_never_shortens(interval: int)
    requires
        NANOS_PER_SECOND <= interval <= MAX_INTERVAL_NANOS,
    ensures
        interval <= slowed_interval(interval) <= MAX_INTERVAL_NANOS,
        interval + SLOW_DOWN_INCREMENT_NANOS <= MAX_INTERVAL_NANOS ==> slowed_interval(interval)
            == interval + SLOW_DOWN_INCREMENT_NANOS,
{
}

/// The schedule of polling the token endpoint during one device
/// authorization: the interval between polls, and the time, counted from the
/// start of polling, at which the device code expires.
pub struct DevicePoll {
    interval_nanos: u128,
    expires_in_nanos: u128,
}

impl DevicePoll {
    #[verifier::type_invariant]
    spec fn well_formed(self) -> bool {
        &&& NANOS_PER_SECOND <= self.interval_nanos <= MAX_INTERVAL_NANOS
        &&& self.expires_in_nanos <= u64::MAX as int * NANOS_PER_SECOND
    }

    /// The interval between polls, in nanoseconds.
    pub closed spec fn interval(self) -> int {
        self.interval_nanos as int
    }

    /// The time after the start of polling at which the device code expires,
    /// in nanoseconds.
    pub closed spec fn expires_in(self) -> int {
        self.expires_in_nanos as int
    }

    /// The schedule for a device code that expires in `expires_in_secs`
    /// seconds and asks for polls every `interval_secs` seconds, and at
    /// least every second.
    pub fn new(expires_in_secs: u64, interval_secs: u64) -> (r: DevicePoll)
        ensures
            r.interval() == (if interval_secs == 0 { 1 } else { interval_secs as int })
                * NANOS_PER_SECOND,
            r.expires_in() == expires_in_secs as int * NANOS_PER_SECOND,
    {
        let secs: u64 = if interval_secs == 0 { 1 } else { interval_secs };
        assert(secs * NANOS_PER_SECOND <= MAX_INTERVAL_NANOS) by (nonlinear_arith)
            requires secs <= u64::MAX;
        assert(expires_in_secs * NANOS_PER_SECOND <= u64::MAX as int * NANOS_PER_SECOND)
            by (nonlinear_arith) requires expires_in_secs <= u64::MAX;
        DevicePoll {
            interval_nanos: secs as u128 * NANOS_PER_SECOND,
            expires_in_nanos: expires_in_secs as u128 * NANOS_PER_SECOND,
        }
    }

    /// The interval between polls, in nanoseconds.
    pub fn interval_nanos(&self) -> (r: u128)
        ensures
            r == self.interval(),
    {
        self.interval_nanos
    }

    /// How long to wait before the next poll, `elapsed_nanos` after polling
    /// started: the interval, unless the device code would have expired by
    /// then, in which case the authorization has expired.
    pub fn next_wait(&self, elapsed_nanos: u128) -> (r: Result<u128, AuthError>)
        ensures
            elapsed_nanos + self.interval() >= self.expires_in() ==> r matches Err(
                AuthError::DeviceAuthorizationExpired,
            ),
            elapsed_nanos + self.interval() < self.expires_in() ==> (r matches Ok(wait) && wait
                == self.interval()),
    {
        proof {
            use_type_invariant(self);
        }
        if elapsed_nanos >= self.expires_in_nanos
            || self.interval_nanos >= self.expires_in_nanos - elapsed_nanos {
            Err(AuthError::DeviceAuthorizationExpired)
        } else {
            Ok(self.interval_nanos)
        }
    }

    /// The outcome of one poll: the token where the server issued a usable
    /// one, nothing where polling goes on, else the error that ends it. A
    /// request to slow down makes the interval five seconds longer.
    pub fn handle_response(&mut self, response: TokenPollResponse) -> (r: Result<
        Option<TokenResponse>,
        AuthError,
    >)
        ensures
            final(self).expires_in() == old(self).expires_in(),
            match response {
                TokenPollResponse::Issued(token) => {
                    &&& final(self).interval() == old(self).interval()
                    &&& usable_token(token) ==> r == Ok::<Option<TokenResponse>, AuthError>(
                        Some(token),
                    )
                    &&& !usable_token(token) ==> r matches Err(AuthError::UnsupportedTokenType)
                },
                TokenPollResponse::Rejected { status, error: None } => {
                    &&& final(self).interval() == old(self).interval()
                    &&& r matches Err(AuthError::UnexpectedResponse { endpoint, status: s })
                        && endpoint == OAuthEndpoint::Token && s == status
                },
                TokenPollResponse::Rejected { status, error: Some(code) } => match spec_poll_action(
                    code@,
                ) {
                    Some(PollAction::Pending) => {
                        &&& final(self).interval() == old(self).interval()
                        &&& r matches Ok(None)
                    },
                    Some(PollAction::SlowDown) => {
                        &&& final(self).interval() == slowed_interval(old(self).interval())
                        &&& r matches Ok(None)
                    },
                    Some(PollAction::Expired) => {
                        &&& final(self).interval() == old(self).interval()
                        &&& r matches Err(AuthError::DeviceAuthorizationExpired)
                    },
                    None => {
                        &&& final(self).interval() == old(self).interval()
                        &&& r matches Err(AuthError::Protocol(c)) && c@ == code@
                    },
                },
            },
    {
        proof {
            use_type_invariant(&*self);
        }
        match response {
            TokenPollResponse::Issued(token) => {
                if eq_ignore_ascii_case(token.token_type.as_str(), "bearer")
                    && !token.access_token.as_str().is_empty() {
                    Ok(Some(token))
                } else {
                    Err(AuthError::UnsupportedTokenType)
                }
            },
            TokenPollResponse::Rejected { status, error } => match error {
                None => Err(AuthError::UnexpectedResponse { endpoint: OAuthEndpoint::Token, status }),
                Some(code) => match poll_action(code.as_str()) {
                    Ok(PollAction::Pending) => Ok(None),
                    Ok(PollAction::SlowDown) => {
                        self.interval_nanos = if self.interval_nanos > MAX_INTERVAL_NANOS
                            - SLOW_DOWN_INCREMENT_NANOS {
                            MAX_INTERVAL_NANOS
                        } else {
                            self.interval_nanos + SLOW_DOWN_INCREMENT_NANOS
                        };
                        Ok(None)
                    },
                    Ok(PollAction::Expired) => Err(AuthError::DeviceAuthorizationExpired),
                    Err(e) => Err(e),
                },
            },
        }
    }
}

proof fn lemma_polls_start_late(elapsed: Seq<int>, waits: Seq<int>, interval: int, k: int)
    requires
        0 <= k < elapsed.len(),
        elapsed.len() == waits.len(),
        elapsed[0] >= 0,
        forall|i: int| 0 <= i < waits.len() ==> #[trigger] waits[i] >= interval,
        forall|i: int| 1 <= i < elapsed.len() ==> #[trigger] elapsed[i] >= elapsed[i - 1] + waits[i - 1],
    ensures
        elapsed[k] >= k * interval,
    decreases k,
{
    if k > 0 {
        lemma_polls_start_late(elapsed, waits, interval, k - 1);
        assert(elapsed[k] >= elapsed[k - 1] + waits[k - 1]);
        assert((k - 1) * interval + interval == k * interval) by (nonlinear_arith);
    } else {
        assert(k * interval == 0) by (nonlinear_arith) requires k == 0;
    }
}

/// Polling ends before the device code expires, after a bounded number of
/// waits. Take the polls of one device authorization: `elapsed[i]` is the
/// time since polling started at which the `i`th wait was granted and
/// `waits[i]` that wait. `next_wait` grants only the current interval, and
/// only while `elapsed + interval < expires_in`; `handle_response` never makes
/// the interval shorter than the first one, `interval`; and each poll comes
/// after the previous wait has passed. Then the waits granted add up to less
/// than `expires_in`, and there are at most `expires_in / interval` of them,
/// the quotient rounded down.
pub proof fn lemma_polling_is_bounded(
    elapsed: Seq<int>,
    waits: Seq<int>,
    interval: int,
    expires_in: int,
)
    requires
        interval > 0,
        expires_in >= 0,
        elapsed.len() == waits.len(),
        elapsed.len() > 0 ==> elapsed[0] >= 0,
        forall|i: int| 0 <= i < waits.len() ==> #[trigger] waits[i] >= interval,
        forall|i: int| 0 <= i < waits.len() ==> #[trigger] elapsed[i] + waits[i] < expires_in,
        forall|i: int| 1 <= i < elapsed.len() ==> #[trigger] elapsed[i] >= elapsed[i - 1] + waits[i - 1],
    ensures
        waits.len() * interval < expires_in || waits.len() == 0,
        waits.len() <= expires_in / interval,
{
    let n = waits.len() as int;
    if n > 0 {
        lemma_polls_start_late(elapsed, waits, interval, n - 1);
        assert(elapsed[n - 1] + waits[n - 1] < expires_in);
        assert((n - 1) * interval + interval == n * interval) by (nonlinear_arith);
        assert(n <= expires_in / interval) by (nonlinear_arith)
            requires
                n * interval < expires_in,
                interval > 0,
                n > 0,
        ;
    } else {
        assert(0 <= expires_in / interval) by (nonlinear_arith)
            requires
                expires_in >= 0,
                interval > 0,
        ;
    }
}

} // verus!
