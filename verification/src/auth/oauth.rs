//! The OAuth2 engine: the grant data and the device-code flow as an
//! explicit state machine whose driver performs the requests it asks for.

use vstd::prelude::*;
use crate::auth::AuthData;
use crate::error::{AuthError, BasicAuthError, ConnectError, OAuthError};
use crate::strutil::{trim_spec, trim_slashes_spec};
use crate::timeutil::{expiry_spec, expiry_instant};

verus! {

/// The OAuth2 grant flow a request asks for.  Only the device-code flow has
/// a working transition; the others are rejected up front.
#[derive(Clone, Copy, Debug, PartialEq, Eq, Structural)]
pub enum OAuthFlow {
    Device,
    Code,
    Refresh,
}

/// The token material of a grant: the access token itself, an optional
/// refresh token, and the advertised lifetime in seconds, if any.
#[derive(Debug, PartialEq, Eq)]
pub struct OAuthToken {
    pub access_token: String,
    pub refresh_token: Option<String>,
    pub expires_in: Option<u64>,
}

impl Clone for OAuthToken {
    fn clone(&self) -> (r: Self)
        ensures
            r == *self,
    {
        OAuthToken {
            access_token: self.access_token.clone(),
            refresh_token: match &self.refresh_token {
                Some(t) => Some(t.clone()),
                None => None,
            },
            expires_in: self.expires_in,
        }
    }
}

/// A complete OAuth grant as persisted on a connection.
#[derive(Debug, PartialEq, Eq)]
pub struct OAuthData {
    /// Instant the grant was received, seconds since the Unix epoch.
    pub received: i64,
    pub client_id: String,
    pub authorize_endpoint: String,
    pub token_endpoint: String,
    pub device_endpoint: Option<String>,
    pub scopes: Vec<String>,
    pub token: OAuthToken,
    pub flow: OAuthFlow,
}

/// The mathematical shape of an `OAuthToken`.
#[verifier::ext_equal]
pub struct OAuthTokenView {
    pub access_token: Seq<char>,
    pub refresh_token: Option<Seq<char>>,
    pub expires_in: Option<u64>,
}

impl View for OAuthToken {
    type V = OAuthTokenView;

    open spec fn view(&self) -> OAuthTokenView {
        OAuthTokenView {
            access_token: self.access_token@,
            refresh_token: match self.refresh_token {
                Some(t) => Some(t@),
                None => None,
            },
            expires_in: self.expires_in,
        }
    }
}

/// The mathematical shape of an `OAuthData`.
#[verifier::ext_equal]
pub struct OAuthDataView {
    pub received: i64,
    pub client_id: Seq<char>,
    pub authorize_endpoint: Seq<char>,
    pub token_endpoint: Seq<char>,
    pub device_endpoint: Option<Seq<char>>,
    pub scopes: Seq<Seq<char>>,
    pub token: OAuthTokenView,
    pub flow: OAuthFlow,
}

impl View for OAuthData {
    type V = OAuthDataView;

    open spec fn view(&self) -> OAuthDataView {
        OAuthDataView {
            received: self.received,
            client_id: self.client_id@,
            authorize_endpoint: self.authorize_endpoint@,
            token_endpoint: self.token_endpoint@,
            device_endpoint: match self.device_endpoint {
                Some(d) => Some(d@),
                None => None,
            },
            scopes: self.scopes.deep_view(),
            token: self.token@,
            flow: self.flow,
        }
    }
}

/// Copies a scope list; the copy holds the same strings.
pub fn clone_strings(v: &Vec<String>) -> (r: Vec<String>)
    ensures
        r@ == v@,
{
    let mut r: Vec<String> = Vec::new();
    let mut i: usize = 0;
    while i < v.len()
        invariant
            i <= v.len(),
            r@ =~= v@.take(i as int),
        decreases v.len() - i,
    {
        r.push(v[i].clone());
        i = i + 1;
    }
    assert(r@ =~= v@);
    r
}

impl Clone for OAuthData {
    fn clone(&self) -> (r: Self)
        ensures
            r@ == self@,
    {
        let r = OAuthData {
            received: self.received,
            client_id: self.client_id.clone(),
            authorize_endpoint: self.authorize_endpoint.clone(),
            token_endpoint: self.token_endpoint.clone(),
            device_endpoint: match &self.device_endpoint {
                Some(d) => Some(d.clone()),
                None => None,
            },
            scopes: clone_strings(&self.scopes),
            token: self.token.clone(),
            flow: self.flow,
        };
        assert(r@ =~= self@);
        r
    }
}


/// The OAuth parameters a flow runs with, either supplied by the caller or
/// taken from the server's discovery document.  Scopes are kept as a set:
/// repeats are dropped, first spelling first.
#[derive(Debug)]
pub struct OAuthConfig {
    pub client_id: String,
    pub authorize_endpoint: String,
    pub token_endpoint: String,
    pub device_endpoint: Option<String>,
    pub scopes: Vec<String>,
}

/// The server's answer to a device-authorization request.
#[derive(Debug)]
pub struct DeviceGrant {
    pub device_code: String,
    pub user_code: String,
    pub verification_uri: String,
    /// Poll period in seconds; the protocol default applies when absent.
    pub interval: Option<u64>,
    /// Lifetime of the device code in seconds.
    pub expires_in: u64,
}

/// Poll period used when the device-authorization response names none.
pub const DEFAULT_POLL_INTERVAL: u64 = 5;

/// Seconds added to the poll period on a slow-down answer.
pub const SLOW_DOWN_STEP: u64 = 5;

/// The poll period a device grant asks for.
pub open spec fn grant_interval_spec(interval: Option<u64>) -> u64 {
    match interval {
        Some(i) => i,
        None => DEFAULT_POLL_INTERVAL,
    }
}

/// The poll period after a slow-down answer, clamped instead of overflowing.
pub open spec fn slowed_interval_spec(interval: u64) -> u64 {
    if interval + SLOW_DOWN_STEP <= u64::MAX {
        (interval + SLOW_DOWN_STEP) as u64
    } else {
        u64::MAX
    }
}

fn slowed_interval(interval: u64) -> (r: u64)
    ensures
        r == slowed_interval_spec(interval),
{
    if interval <= u64::MAX - SLOW_DOWN_STEP {
        interval + SLOW_DOWN_STEP
    } else {
        u64::MAX
    }
}

/// One state of an authentication in progress: the password exchange is a
/// single request; the device-code grant walks discovery, device
/// authorization, an operator prompt, and polling.  `Granted` and `Failed`
/// are terminal.
#[derive(Debug)]
pub enum FlowState {
    /// The password exchange was issued; its answer is awaited.
    AwaitToken,
    /// The discovery document was requested; its answer is awaited.
    AwaitDiscovery,
    /// The device-authorization request was issued.
    AwaitDeviceAuthorization { cfg: OAuthConfig },
    /// The operator must be shown the verification prompt before polling.
    AwaitPrompt { cfg: OAuthConfig, device_code: String, deadline: i64, interval: u64 },
    /// The token endpoint is being polled until the deadline passes.
    Polling { cfg: OAuthConfig, device_code: String, deadline: i64, interval: u64 },
    Granted { data: AuthData },
    Failed { error: ConnectError },
}

/// What the outside world reported back to the flow.
#[derive(Debug)]
pub enum FlowEvent {
    /// Outcome of the password exchange: the token text, or the rendered
    /// transport or status failure.
    TokenResponse(Result<String, String>),
    DiscoveryOk(crate::connect::OAuthConfigResponse),
    /// The discovery endpoint answered 204: OAuth is not configured.
    DiscoveryNoContent,
    DiscoveryFailed(String),
    DeviceAuthorized(DeviceGrant),
    DeviceAuthorizationFailed(String),
    /// The operator was shown the verification prompt.
    Prompted,
    PollPending,
    PollSlowDown,
    PollSuccess(OAuthToken),
    PollDenied,
    PollExpiredToken,
    PollFailed(String),
}

/// What the driver must do next.  Every request action expects its outcome
/// back as the matching `FlowEvent`.
#[derive(Debug)]
pub enum FlowAction {
    /// Post the username and password to the token endpoint as JSON.
    PostCredentials { url: String, username: String, password: String },
    /// Fetch the OAuth discovery document.
    FetchDiscovery { url: String },
    /// Post a device-authorization request with this client id and scopes.
    PostDeviceAuthorization { url: String, client_id: String, scopes: Vec<String> },
    /// Show the operator where to enter which code.
    ShowPrompt { verification_uri: String, user_code: String },
    /// Wait `wait_seconds`, then poll the token endpoint for the device code.
    PollToken { url: String, client_id: String, device_code: String, wait_seconds: u64 },
    /// The flow is terminal; collect the outcome.
    Stop,
}

impl FlowState {
    /// Which events this state can consume.
    pub open spec fn expects_spec(self, event: FlowEvent) -> bool {
        match self {
            FlowState::AwaitToken => event is TokenResponse,
            FlowState::AwaitDiscovery => event is DiscoveryOk || event is DiscoveryNoContent
                || event is DiscoveryFailed,
            FlowState::AwaitDeviceAuthorization { .. } => event is DeviceAuthorized
                || event is DeviceAuthorizationFailed,
            FlowState::AwaitPrompt { .. } => event is Prompted,
            FlowState::Polling { .. } => event is PollPending || event is PollSlowDown
                || event is PollSuccess || event is PollDenied || event is PollExpiredToken
                || event is PollFailed,
            FlowState::Granted { .. } => false,
            FlowState::Failed { .. } => false,
        }
    }

    /// Executable form of `expects_spec`, for drivers to test before stepping.
    pub fn expects_event(&self, event: &FlowEvent) -> (r: bool)
        ensures
            r == self.expects_spec(*event),
    {
        match self {
            FlowState::AwaitToken => matches!(event, FlowEvent::TokenResponse(_)),
            FlowState::AwaitDiscovery => matches!(
                event,
                FlowEvent::DiscoveryOk(_) | FlowEvent::DiscoveryNoContent
                    | FlowEvent::DiscoveryFailed(_)
            ),
            FlowState::AwaitDeviceAuthorization { .. } => matches!(
                event,
                FlowEvent::DeviceAuthorized(_) | FlowEvent::DeviceAuthorizationFailed(_)
            ),
            FlowState::AwaitPrompt { .. } => matches!(event, FlowEvent::Prompted),
            FlowState::Polling { .. } => matches!(
                event,
                FlowEvent::PollPending | FlowEvent::PollSlowDown | FlowEvent::PollSuccess(_)
                    | FlowEvent::PollDenied | FlowEvent::PollExpiredToken
                    | FlowEvent::PollFailed(_)
            ),
            FlowState::Granted { .. } => false,
            FlowState::Failed { .. } => false,
        }
    }

    /// Whether the flow has finished, one way or the other.
    pub fn is_terminal(&self) -> (r: bool)
        ensures
            r == (self is Granted || self is Failed),
    {
        matches!(self, FlowState::Granted { .. } | FlowState::Failed { .. })
    }

    /// The outcome of a finished flow.
    pub fn into_result(self) -> (r: Result<AuthData, ConnectError>)
        requires
            self is Granted || self is Failed,
        ensures
            self matches FlowState::Granted { data } ==> (r matches Ok(d) && d == data),
            self matches FlowState::Failed { error } ==> (r matches Err(e) && e == error),
    {
        match self {
            FlowState::Granted { data } => Ok(data),
            FlowState::Failed { error } => Err(error),
            _ => {
                proof {
                    assert(false);
                }
                Err(ConnectError::NoAuthentication)
            },
        }
    }

    /// Consumes one event at instant `now` and yields the next state and the
    /// action the driver must perform.  The contract is the transition
    /// relation of the protocol.
    pub fn step(self, event: FlowEvent, now: i64) -> (r: (FlowState, FlowAction))
        requires
            self.expects_spec(event),
        ensures
            self is AwaitToken ==> (event matches FlowEvent::TokenResponse(Ok(token)) ==> (
                r.0 matches FlowState::Granted { data }
                    && data@ matches crate::auth::AuthDataView::Jwt { expires, token: t }
                    && t == token@
                    && expires == Some(
                    (expiry_spec(now, crate::auth::jwt::JWT_VALIDITY_SECONDS) as i64),
                ) && r.1 is Stop
            )),
            self is AwaitToken ==> (event matches FlowEvent::TokenResponse(Err(e)) ==> (
                r.0 matches FlowState::Failed { error: ConnectError::Network(m) } && m@ == e@
                    && r.1 is Stop
            )),
            self is AwaitDiscovery ==> (event matches FlowEvent::DiscoveryOk(doc) ==> (
                r.0 matches FlowState::AwaitDeviceAuthorization { cfg }
                    && cfg.client_id == doc.client_id
                    && cfg.authorize_endpoint == doc.authorize_endpoint
                    && cfg.token_endpoint == doc.token_endpoint
                    && (cfg.device_endpoint matches Some(d) && d == doc.device_endpoint)
                    && cfg.scopes.deep_view() == crate::strutil::dedup_spec(doc.scopes.deep_view())
                    && (r.1 matches FlowAction::PostDeviceAuthorization { url, client_id, scopes }
                    && url@ == doc.device_endpoint@ && client_id@ == doc.client_id@
                    && scopes.deep_view() == crate::strutil::dedup_spec(doc.scopes.deep_view()))
            )),
            self is AwaitDiscovery ==> (event is DiscoveryNoContent ==> (
                r.0 matches FlowState::Failed {
                    error: ConnectError::Auth(
                        AuthError::OAuth(OAuthError::MissingEndpoint(m)),
                    ),
                } && m@ == "oauth is not configured for this server"@ && r.1 is Stop
            )),
            self is AwaitDiscovery ==> (event matches FlowEvent::DiscoveryFailed(e) ==> (
                r.0 matches FlowState::Failed { error: ConnectError::Network(m) } && m@ == e@
                    && r.1 is Stop
            )),
            self matches FlowState::AwaitDeviceAuthorization { cfg } ==> (event
                matches FlowEvent::DeviceAuthorized(grant) ==> (
                r.0 matches FlowState::AwaitPrompt {
                    cfg: c,
                    device_code,
                    deadline,
                    interval,
                } && c == cfg && device_code == grant.device_code
                    && deadline == expiry_spec(now, grant.expires_in) as i64
                    && interval == grant_interval_spec(grant.interval)
                    && (r.1 matches FlowAction::ShowPrompt { verification_uri, user_code }
                    && verification_uri == grant.verification_uri
                    && user_code == grant.user_code)
            )),
            self is AwaitDeviceAuthorization ==> (event
                matches FlowEvent::DeviceAuthorizationFailed(e) ==> (
                r.0 matches FlowState::Failed {
                    error: ConnectError::Auth(
                        AuthError::OAuth(OAuthError::DeviceTokenErrorResponse(m)),
                    ),
                } && m@ == e@ && r.1 is Stop
            )),
            self matches FlowState::AwaitPrompt { cfg, device_code, deadline, interval }
                ==> (event is Prompted ==> (
                r.0 matches FlowState::Polling {
                    cfg: c,
                    device_code: d,
                    deadline: dl,
                    interval: iv,
                } && c == cfg && d == device_code && dl == deadline && iv == interval
                    && (r.1 matches FlowAction::PollToken {
                    url,
                    client_id,
                    device_code: dc,
                    wait_seconds,
                } && url@ == cfg.token_endpoint@ && client_id@ == cfg.client_id@
                    && dc@ == device_code@ && wait_seconds == interval)
            )),
            self matches FlowState::Polling { cfg, .. } ==> (event
                matches FlowEvent::PollSuccess(token) ==> (
                r.0 matches FlowState::Granted { data: AuthData::OAuth { data } }
                    && data.received == now && data.client_id == cfg.client_id
                    && data.authorize_endpoint == cfg.authorize_endpoint
                    && data.token_endpoint == cfg.token_endpoint
                    && data.device_endpoint == cfg.device_endpoint
                    && data.scopes == cfg.scopes && data.token == token
                    && data.flow == OAuthFlow::Device && r.1 is Stop
            )),
            self matches FlowState::Polling { cfg, device_code, deadline, interval }
                ==> ((event is PollPending && now <= deadline) ==> (
                r.0 matches FlowState::Polling {
                    cfg: c,
                    device_code: d,
                    deadline: dl,
                    interval: iv,
                } && c == cfg && d == device_code && dl == deadline && iv == interval
                    && (r.1 matches FlowAction::PollToken {
                    url,
                    client_id,
                    device_code: dc,
                    wait_seconds,
                } && url@ == cfg.token_endpoint@ && client_id@ == cfg.client_id@
                    && dc@ == device_code@ && wait_seconds == interval)
            )),
            self matches FlowState::Polling { cfg, device_code, deadline, interval }
                ==> ((event is PollSlowDown && now <= deadline) ==> (
                r.0 matches FlowState::Polling {
                    cfg: c,
                    device_code: d,
                    deadline: dl,
                    interval: iv,
                } && c == cfg && d == device_code && dl == deadline
                    && iv == slowed_interval_spec(interval)
                    && (r.1 matches FlowAction::PollToken {
                    url,
                    client_id,
                    device_code: dc,
                    wait_seconds,
                } && url@ == cfg.token_endpoint@ && client_id@ == cfg.client_id@
                    && dc@ == device_code@ && wait_seconds == slowed_interval_spec(interval))
            )),
            self matches FlowState::Polling { deadline, .. } ==> (((event is PollPending || event
                is PollSlowDown) && now > deadline) ==> (
                r.0 matches FlowState::Failed { error: ConnectError::Auth(AuthError::Expired) }
                    && r.1 is Stop
            )),
            self is Polling ==> (event is PollDenied ==> (
                r.0 matches FlowState::Failed {
                    error: ConnectError::Auth(AuthError::OAuth(OAuthError::TokenErrorResponse(m))),
                } && m@ == "access_denied"@ && r.1 is Stop
            )),
            self is Polling ==> (event is PollExpiredToken ==> (
                r.0 matches FlowState::Failed {
                    error: ConnectError::Auth(AuthError::OAuth(OAuthError::TokenErrorResponse(m))),
                } && m@ == "expired_token"@ && r.1 is Stop
            )),
            self is Polling ==> (event matches FlowEvent::PollFailed(e) ==> (
                r.0 matches FlowState::Failed {
                    error: ConnectError::Auth(AuthError::OAuth(OAuthError::TokenErrorResponse(m))),
                } && m@ == e@ && r.1 is Stop
            )),
    {
        match (self, event) {
            (FlowState::AwaitToken, FlowEvent::TokenResponse(Ok(token))) => {
                let data = crate::auth::jwt::fetch_token(token, now);
                (FlowState::Granted { data }, FlowAction::Stop)
            },
            (FlowState::AwaitToken, FlowEvent::TokenResponse(Err(e))) => (
                FlowState::Failed { error: ConnectError::Network(e) },
                FlowAction::Stop,
            ),
            (FlowState::AwaitDiscovery, FlowEvent::DiscoveryOk(doc)) => {
                let url = doc.device_endpoint.clone();
                let client_id = doc.client_id.clone();
                let deduped = crate::strutil::dedup_strings(&doc.scopes);
                let scopes = clone_strings(&deduped);
                let cfg = OAuthConfig {
                    client_id: doc.client_id,
                    authorize_endpoint: doc.authorize_endpoint,
                    token_endpoint: doc.token_endpoint,
                    device_endpoint: Some(doc.device_endpoint),
                    scopes: deduped,
                };
                (
                    FlowState::AwaitDeviceAuthorization { cfg },
                    FlowAction::PostDeviceAuthorization { url, client_id, scopes },
                )
            },
            (FlowState::AwaitDiscovery, FlowEvent::DiscoveryNoContent) => (
                FlowState::Failed {
                    error: ConnectError::Auth(
                        AuthError::OAuth(
                            OAuthError::MissingEndpoint(
                                "oauth is not configured for this server".to_owned(),
                            ),
                        ),
                    ),
                },
                FlowAction::Stop,
            ),
            (FlowState::AwaitDiscovery, FlowEvent::DiscoveryFailed(e)) => (
                FlowState::Failed { error: ConnectError::Network(e) },
                FlowAction::Stop,
            ),
            (
                FlowState::AwaitDeviceAuthorization { cfg },
                FlowEvent::DeviceAuthorized(grant),
            ) => {
                let deadline = expiry_instant(now, grant.expires_in);
                let interval = match grant.interval {
                    Some(i) => i,
                    None => DEFAULT_POLL_INTERVAL,
                };
                (
                    FlowState::AwaitPrompt {
                        cfg,
                        device_code: grant.device_code,
                        deadline,
                        interval,
                    },
                    FlowAction::ShowPrompt {
                        verification_uri: grant.verification_uri,
                        user_code: grant.user_code,
                    },
                )
            },
            (
                FlowState::AwaitDeviceAuthorization { .. },
                FlowEvent::DeviceAuthorizationFailed(e),
            ) => (
                FlowState::Failed {
                    error: ConnectError::Auth(
                        AuthError::OAuth(OAuthError::DeviceTokenErrorResponse(e)),
                    ),
                },
                FlowAction::Stop,
            ),
            (
                FlowState::AwaitPrompt { cfg, device_code, deadline, interval },
                FlowEvent::Prompted,
            ) => {
                let url = cfg.token_endpoint.clone();
                let client_id = cfg.client_id.clone();
                let dc = device_code.clone();
                (
                    FlowState::Polling { cfg, device_code, deadline, interval },
                    FlowAction::PollToken {
                        url,
                        client_id,
                        device_code: dc,
                        wait_seconds: interval,
                    },
                )
            },
            (FlowState::Polling { cfg, .. }, FlowEvent::PollSuccess(token)) => (
                FlowState::Granted {
                    data: AuthData::OAuth {
                        data: OAuthData {
                            received: now,
                            client_id: cfg.client_id,
                            authorize_endpoint: cfg.authorize_endpoint,
                            token_endpoint: cfg.token_endpoint,
                            device_endpoint: cfg.device_endpoint,
                            scopes: cfg.scopes,
                            token,
                            flow: OAuthFlow::Device,
                        },
                    },
                },
                FlowAction::Stop,
            ),
            (
                FlowState::Polling { cfg, device_code, deadline, interval },
                FlowEvent::PollPending,
            ) => {
                if now > deadline {
                    (
                        FlowState::Failed { error: ConnectError::Auth(AuthError::Expired) },
                        FlowAction::Stop,
                    )
                } else {
                    let url = cfg.token_endpoint.clone();
                    let client_id = cfg.client_id.clone();
                    let dc = device_code.clone();
                    (
                        FlowState::Polling { cfg, device_code, deadline, interval },
                        FlowAction::PollToken {
                            url,
                            client_id,
                            device_code: dc,
                            wait_seconds: interval,
                        },
                    )
                }
            },
            (
                FlowState::Polling { cfg, device_code, deadline, interval },
                FlowEvent::PollSlowDown,
            ) => {
                if now > deadline {
                    (
                        FlowState::Failed { error: ConnectError::Auth(AuthError::Expired) },
                        FlowAction::Stop,
                    )
                } else {
                    let slowed = slowed_interval(interval);
                    let url = cfg.token_endpoint.clone();
                    let client_id = cfg.client_id.clone();
                    let dc = device_code.clone();
                    (
                        FlowState::Polling { cfg, device_code, deadline, interval: slowed },
                        FlowAction::PollToken {
                            url,
                            client_id,
                            device_code: dc,
                            wait_seconds: slowed,
                        },
                    )
                }
            },
            (FlowState::Polling { .. }, FlowEvent::PollDenied) => (
                FlowState::Failed {
                    error: ConnectError::Auth(
                        AuthError::OAuth(OAuthError::TokenErrorResponse("access_denied".to_owned())),
                    ),
                },
                FlowAction::Stop,
            ),
            (FlowState::Polling { .. }, FlowEvent::PollExpiredToken) => (
                FlowState::Failed {
                    error: ConnectError::Auth(
                        AuthError::OAuth(OAuthError::TokenErrorResponse("expired_token".to_owned())),
                    ),
                },
                FlowAction::Stop,
            ),
            (FlowState::Polling { .. }, FlowEvent::PollFailed(e)) => (
                FlowState::Failed {
                    error: ConnectError::Auth(AuthError::OAuth(OAuthError::TokenErrorResponse(e))),
                },
                FlowAction::Stop,
            ),
            _ => {
                proof {
                    assert(false);
                }
                (
                    FlowState::Failed { error: ConnectError::NoAuthentication },
                    FlowAction::Stop,
                )
            },
        }
    }
}

} // verus!
