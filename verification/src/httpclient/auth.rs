//! The device-authorization login flow.
//!
//! Phase one asks the provider for a device code and shows the user a
//! verification URL; phase two polls the token endpoint until the
//! user has approved, the code has expired, or the server has denied
//! the request.  The two phases may run in separate invocations: a
//! [`DeviceAuthorizationSession`] carries everything phase two needs.
//!
//! The polling loop itself is a state machine over plain values, so
//! the surrounding binary only sleeps, posts, and feeds the reply
//! back in.

use vstd::prelude::*;

verus! {

/// A credential obtained from the token endpoint, together with its
/// issuance time (seconds since the epoch) and the lifetime the
/// provider declared, if any.
#[derive(Clone, Debug, PartialEq)]
pub struct TokenRecord {
    pub created_at: u64,
    pub access_token: String,
    pub token_type: String,
    pub expires_in: Option<u64>,
    pub refresh_token: Option<String>,
    pub id_token: Option<String>,
}

/// When a record expires: issuance plus declared lifetime, absent if
/// the provider declared none or the sum does not fit.
pub open spec fn expires_at_spec(t: TokenRecord) -> Option<u64> {
    match t.expires_in {
        Some(e) => if t.created_at + e <= u64::MAX {
            Some((t.created_at + e) as u64)
        } else {
            None
        },
        None => None,
    }
}

impl TokenRecord {
    pub fn expires_at(&self) -> (r: Option<u64>)
        ensures
            r == expires_at_spec(*self),
    {
        match self.expires_in {
            Some(e) => self.created_at.checked_add(e),
            None => None,
        }
    }
}

/// The access token of a record.
pub fn access_token(r: &TokenRecord) -> (t: String)
    ensures
        t@ == r.access_token@,
{
    r.access_token.clone()
}

/// A record never expires before it was issued.
pub proof fn lemma_expiry_not_before_issuance(t: TokenRecord)
    ensures
        match expires_at_spec(t) {
            Some(x) => x >= t.created_at,
            None => true,
        },
{
}

/// Builds the record for a successful token response, issued `now`.
pub fn token_from_response(
    now: u64,
    access_token: String,
    token_type: String,
    expires_in: Option<u64>,
    refresh_token: Option<String>,
    id_token: Option<String>,
) -> (t: TokenRecord)
    ensures
        t.created_at == now,
        t.access_token == access_token,
        t.token_type == token_type,
        t.expires_in == expires_in,
        t.refresh_token == refresh_token,
        t.id_token == id_token,
{
    TokenRecord { created_at: now, access_token, token_type, expires_in, refresh_token, id_token }
}

/// What phase one of the login yields, and everything phase two
/// needs: the token endpoint, the device code, the user-facing
/// verification data, the poll interval and the overall expiry of
/// the code (both in seconds).
#[derive(Clone, Debug)]
pub struct DeviceAuthorizationSession {
    pub client_id: String,
    pub token_endpoint: String,
    pub device_code: String,
    pub user_code: String,
    pub verification_uri: String,
    pub verification_uri_complete: Option<String>,
    pub interval: u64,
    pub expires_in: u64,
}

impl DeviceAuthorizationSession {
    /// The session is usable: a positive poll interval and a
    /// lifetime strictly after issuance.
    pub open spec fn wf(self) -> bool {
        self.interval >= 1 && self.expires_in >= 1
    }
}

/// The default poll interval where the provider declares none,
/// in seconds.
pub const DEFAULT_POLL_INTERVAL: u64 = 5;

/// The identifier this client registers under at the provider.
pub const CLIENT_ID: &'static str = "renku-cli";

/// The provider's realm, relative to the platform base URL.
pub const REALM_PATH: &'static str = "auth/realms/Renku";

/// The issuer the provider metadata is discovered from: the realm
/// path joined onto the platform base URL.
pub fn issuer_url(base: &crate::data::renku_url::RenkuUrl) -> (r: Result<
    crate::data::renku_url::RenkuUrl,
    crate::data::renku_url::UrlParseError,
>)
    ensures
        match r {
            Ok(u) => crate::data::renku_url::url_joined(base@, "auth/realms/Renku"@) == Some(u@),
            Err(_) => crate::data::renku_url::url_joined(base@, "auth/realms/Renku"@) is None,
        },
{
    base.join(REALM_PATH)
}

/// Builds the session for a device-authorization response.  A
/// missing interval becomes the default; a declared zero is raised
/// to one second so that the session invariant holds.
pub fn session_from_response(
    client_id: String,
    token_endpoint: String,
    device_code: String,
    user_code: String,
    verification_uri: String,
    verification_uri_complete: Option<String>,
    interval: Option<u64>,
    expires_in: u64,
) -> (s: DeviceAuthorizationSession)
    requires
        expires_in >= 1,
    ensures
        s.wf(),
        s.client_id == client_id,
        s.token_endpoint == token_endpoint,
        s.device_code == device_code,
        s.user_code == user_code,
        s.verification_uri == verification_uri,
        s.verification_uri_complete == verification_uri_complete,
        s.expires_in == expires_in,
        s.interval == match interval {
            Some(i) => if i >= 1 {
                i
            } else {
                1u64
            },
            None => DEFAULT_POLL_INTERVAL,
        },
{
    let iv = match interval {
        Some(i) => if i >= 1 {
            i
        } else {
            1
        },
        None => DEFAULT_POLL_INTERVAL,
    };
    DeviceAuthorizationSession {
        client_id,
        token_endpoint,
        device_code,
        user_code,
        verification_uri,
        verification_uri_complete,
        interval: iv,
        expires_in,
    }
}

/// The user-facing data of a session.
#[derive(Clone, Debug)]
pub struct UserCode {
    pub authorization_url: String,
    pub user_code: String,
}

impl UserCode {
    /// The lines shown to the user before polling starts.
    pub fn render(&self) -> (r: String)
        ensures
            r@ == "Please visit this url and authorize this application:\n"@
                + self.authorization_url@ + "\nUser-Code: "@ + self.user_code@,
    {
        let mut s = String::new();
        s.append("Please visit this url and authorize this application:\n");
        s.append(self.authorization_url.as_str());
        s.append("\nUser-Code: ");
        s.append(self.user_code.as_str());
        s
    }
}

impl DeviceAuthorizationSession {
    /// The URL the user should open: the complete form with the code
    /// embedded where the provider gave one, the plain one otherwise.
    pub fn authorization_url(&self) -> (r: String)
        ensures
            r@ == match self.verification_uri_complete {
                Some(u) => u@,
                None => self.verification_uri@,
            },
    {
        match &self.verification_uri_complete {
            Some(u) => u.clone(),
            None => self.verification_uri.clone(),
        }
    }

    /// What is shown to the user before polling starts.
    pub fn user_code(&self) -> (r: UserCode)
        ensures
            r.user_code@ == self.user_code@,
            r.authorization_url@ == match self.verification_uri_complete {
                Some(u) => u@,
                None => self.verification_uri@,
            },
    {
        UserCode { authorization_url: self.authorization_url(), user_code: self.user_code.clone() }
    }
}

/// What the token endpoint answered to one poll.
#[derive(Clone, Debug, PartialEq, Eq, Structural)]
pub enum PollResponse {
    /// `authorization_pending`: the user has not decided yet.
    AuthorizationPending,
    /// `slow_down`: poll less often.
    SlowDown,
    /// A token was issued.
    Approved,
    /// `expired_token`: the device code has expired.
    ExpiredToken,
    /// `access_denied`: the user refused.
    AccessDenied,
    /// The request or the decoding of its answer failed.
    TransportFailure,
}

/// Where the polling loop stands.
#[derive(Clone, Copy, Debug, PartialEq, Eq, Structural)]
pub enum PollPhase {
    Pending,
    Approved,
    Denied,
    Expired,
    TransportError,
}

/// The polling loop as data: the driver sleeps and posts exactly
/// where this machine says so, and every timing decision stands here.
#[derive(Clone, Debug)]
pub struct PollState {
    /// The interval the session started with, in seconds.
    pub initial_interval: u64,
    /// The current interval, in seconds.
    pub interval: u64,
    /// The session's total lifetime, in seconds.
    pub expires_in: u64,
    /// Sleep time consumed so far, in seconds.
    pub elapsed: u64,
    /// Token requests issued so far.
    pub requests: u64,
    pub phase: PollPhase,
}

impl PollState {
    pub open spec fn wf(self) -> bool {
        &&& self.initial_interval >= 1
        &&& self.interval >= self.initial_interval
        &&& self.elapsed <= self.expires_in
        &&& self.requests * self.initial_interval <= self.elapsed
    }

    /// The machine at the start of phase two.
    pub fn start(session: &DeviceAuthorizationSession) -> (s: PollState)
        requires
            session.wf(),
        ensures
            s.wf(),
            s.initial_interval == session.interval,
            s.interval == session.interval,
            s.expires_in == session.expires_in,
            s.elapsed == 0,
            s.requests == 0,
            s.phase == PollPhase::Pending,
    {
        PollState {
            initial_interval: session.interval,
            interval: session.interval,
            expires_in: session.expires_in,
            elapsed: 0,
            requests: 0,
            phase: PollPhase::Pending,
        }
    }

    /// Asks whether another request may go out.  `Some(d)`: sleep `d`
    /// seconds, then post once — the sleep is charged and the request
    /// counted here.  `None`: the session's lifetime is spent and the
    /// machine has moved to `Expired` without a further request.
    pub fn next_request(&mut self) -> (r: Option<u64>)
        requires
            old(self).wf(),
            old(self).phase == PollPhase::Pending,
        ensures
            final(self).wf(),
            final(self).initial_interval == old(self).initial_interval,
            final(self).interval == old(self).interval,
            final(self).expires_in == old(self).expires_in,
            r is Some <==> old(self).elapsed + old(self).interval <= old(self).expires_in,
            match r {
                Some(d) => {
                    &&& d == old(self).interval
                    &&& final(self).phase == PollPhase::Pending
                    &&& final(self).elapsed == old(self).elapsed + old(self).interval
                    &&& final(self).requests == old(self).requests + 1
                },
                None => {
                    &&& final(self).phase == PollPhase::Expired
                    &&& final(self).elapsed == old(self).elapsed
                    &&& final(self).requests == old(self).requests
                },
            },
    {
        if self.interval <= self.expires_in - self.elapsed {
            proof {
                lemma_requests_fit(*self);
            }
            self.elapsed = self.elapsed + self.interval;
            self.requests = self.requests + 1;
            proof {
                let ghost rq = old(self).requests as int;
                let ghost iv = old(self).initial_interval as int;
                assert((rq + 1) * iv == rq * iv + iv) by (nonlinear_arith);
            }
            Some(self.interval)
        } else {
            self.phase = PollPhase::Expired;
            None
        }
    }

    /// Applies the token endpoint's answer.  `slow_down` doubles the
    /// interval (kept where doubling would not fit); every terminal
    /// answer moves the machine to its terminal phase.
    pub fn on_response(&mut self, r: PollResponse)
        requires
            old(self).wf(),
            old(self).phase == PollPhase::Pending,
        ensures
            final(self).wf(),
            final(self).initial_interval == old(self).initial_interval,
            final(self).expires_in == old(self).expires_in,
            final(self).elapsed == old(self).elapsed,
            final(self).requests == old(self).requests,
            final(self).interval as int == if r == PollResponse::SlowDown && old(self).interval * 2
                <= u64::MAX {
                old(self).interval * 2
            } else {
                old(self).interval as int
            },
            final(self).phase == match r {
                PollResponse::AuthorizationPending => PollPhase::Pending,
                PollResponse::SlowDown => PollPhase::Pending,
                PollResponse::Approved => PollPhase::Approved,
                PollResponse::ExpiredToken => PollPhase::Expired,
                PollResponse::AccessDenied => PollPhase::Denied,
                PollResponse::TransportFailure => PollPhase::TransportError,
            },
    {
        match r {
            PollResponse::AuthorizationPending => (),
            PollResponse::SlowDown => {
                self.interval = match self.interval.checked_mul(2) {
                    Some(d) => d,
                    None => self.interval,
                };
            },
            PollResponse::Approved => {
                self.phase = PollPhase::Approved;
            },
            PollResponse::ExpiredToken => {
                self.phase = PollPhase::Expired;
            },
            PollResponse::AccessDenied => {
                self.phase = PollPhase::Denied;
            },
            PollResponse::TransportFailure => {
                self.phase = PollPhase::TransportError;
            },
        }
    }
}

proof fn lemma_requests_fit(s: PollState)
    requires
        s.wf(),
    ensures
        s.requests <= s.elapsed,
{
    assert(s.requests * 1 <= s.requests * s.initial_interval) by (nonlinear_arith)
        requires
            s.initial_interval >= 1,
    ;
}

/// For a session with poll interval `I` and lifetime `E`, the machine
/// issues at most `E / I + 1` token requests before it can reach
/// `Expired`: every counted request consumed a sleep of at least the
/// initial interval, and the consumed time never passes the lifetime.
pub proof fn lemma_poll_request_bound(s: PollState)
    requires
        s.wf(),
    ensures
        s.requests <= s.expires_in / s.initial_interval,
        s.requests <= s.expires_in / s.initial_interval + 1,
{
    assert(s.requests * s.initial_interval <= s.expires_in);
    assert(s.requests <= s.expires_in / s.initial_interval) by (nonlinear_arith)
        requires
            s.initial_interval >= 1,
            s.requests * s.initial_interval <= s.expires_in,
    ;
}

/// The line shown after a successful login.  The caller formats the
/// expiry timestamp, where the record has one, and hands it in as
/// text.
pub fn login_success_message(valid_until: Option<String>) -> (r: crate::data::simple_message::SimpleMessage)
    ensures
        r.message@ == match valid_until {
            Some(t) => "Login successful. Valid until "@ + t@ + "."@,
            None => "Login successful."@,
        },
{
    let mut s = String::new();
    match valid_until {
        Some(t) => {
            s.append("Login successful. Valid until ");
            s.append(t.as_str());
            s.append(".");
        },
        None => {
            s.append("Login successful.");
        },
    }
    crate::data::simple_message::SimpleMessage { message: s }
}

/// The taxonomy of login failures.
#[derive(Clone, Debug)]
pub enum AuthError {
    /// A URL could not be read.
    UrlParse,
    /// The provider's metadata could not be retrieved.
    Discover { message: String },
    /// The token exchange failed.
    CodeExchange { message: String },
}

impl AuthError {
    /// A short description, for display by the caller.
    pub fn render(&self) -> (r: String)
        ensures
            r@ == match *self {
                AuthError::UrlParse => "Error reading url"@,
                AuthError::Discover { message } => "Error retrieving authentication provider metadata: "@
                    + message@,
                AuthError::CodeExchange { message } => "Error exchanging tokens: "@ + message@,
            },
    {
        match self {
            AuthError::UrlParse => {
                let mut s = String::new();
                s.append("Error reading url");
                s
            },
            AuthError::Discover { message } => {
                let mut s = String::new();
                s.append("Error retrieving authentication provider metadata: ");
                s.append(message.as_str());
                s
            },
            AuthError::CodeExchange { message } => {
                let mut s = String::new();
                s.append("Error exchanging tokens: ");
                s.append(message.as_str());
                s
            },
        }
    }
}

} // verus!
