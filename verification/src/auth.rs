//! Authentication: the credential value, its expiry rule, and the request
//! type that starts either strategy.

use vstd::prelude::*;
use crate::auth::oauth::{OAuthData, OAuthDataView, OAuthFlow};
use crate::timeutil::{expiry_spec, expiry_instant};

pub mod jwt;
pub mod oauth;

verus! {

/// The credential stored on a connection.  Exactly one variant is active at a
/// time; replacing the authentication type replaces the value wholesale.
#[derive(Debug, PartialEq, Eq)]
pub enum AuthData {
    /// An opaque bearer token from the password exchange, with the
    /// client-assigned instant (seconds since the Unix epoch) at which it
    /// stops being trusted.
    Jwt { expires: Option<i64>, token: String },
    /// A full OAuth device-flow grant.
    OAuth { data: OAuthData },
}

/// The mathematical shape of an `AuthData`.
#[verifier::ext_equal]
pub enum AuthDataView {
    Jwt { expires: Option<i64>, token: Seq<char> },
    OAuth { data: OAuthDataView },
}

impl View for AuthData {
    type V = AuthDataView;

    open spec fn view(&self) -> AuthDataView {
        match self {
            AuthData::Jwt { expires, token } => AuthDataView::Jwt {
                expires: *expires,
                token: token@,
            },
            AuthData::OAuth { data } => AuthDataView::OAuth { data: data@ },
        }
    }
}

impl Clone for AuthData {
    fn clone(&self) -> (r: Self)
        ensures
            r@ == self@,
    {
        match self {
            AuthData::Jwt { expires, token } => AuthData::Jwt {
                expires: *expires,
                token: token.clone(),
            },
            AuthData::OAuth { data } => AuthData::OAuth { data: data.clone() },
        }
    }
}

/// The opaque secret a credential authenticates requests with.
pub open spec fn bearer_of(a: AuthDataView) -> Seq<char> {
    match a {
        AuthDataView::Jwt { token, .. } => token,
        AuthDataView::OAuth { data } => data.token.access_token,
    }
}

/// Whether the credential `a` is past its validity window at instant `now`.
///
/// The boundary is exclusive: a credential whose window ends exactly at `now`
/// is still valid.  A credential that carries no expiry never expires here;
/// the server stays the final authority on its real validity.
pub open spec fn expired_spec(a: AuthDataView, now: i64) -> bool {
    match a {
        AuthDataView::Jwt { expires, .. } => match expires {
            Some(e) => now > e,
            None => false,
        },
        AuthDataView::OAuth { data } => match data.token.expires_in {
            Some(d) => now > expiry_spec(data.received, d),
            None => false,
        },
    }
}

impl AuthData {
    /// Decides `expired_spec` for this credential at instant `now`.
    pub fn is_expired(&self, now: i64) -> (r: bool)
        ensures
            r == expired_spec(self@, now),
    {
        match self {
            AuthData::Jwt { expires, .. } => match expires {
                Some(e) => now > *e,
                None => false,
            },
            AuthData::OAuth { data } => match &data.token.expires_in {
                Some(d) => {
                    let expiry = expiry_instant(data.received, *d);
                    now > expiry
                },
                None => false,
            },
        }
    }

    /// The opaque secret sent as `Authorization: Bearer <token>`.
    pub fn bearer_token(&self) -> (r: &String)
        ensures
            r@ == bearer_of(self@),
    {
        match self {
            AuthData::Jwt { token, .. } => token,
            AuthData::OAuth { data } => &data.token.access_token,
        }
    }
}

/// A deferred, fallible producer of a password, so that an interactive prompt
/// is only raised when a password exchange actually happens.  Failures carry
/// the rendered I/O error message.
pub trait CredentialSource: Sized {
    fn fetch(self) -> Result<String, String>;
}

/// A password known up front, for call sites that already hold one.
pub struct StaticPassword {
    pub password: String,
}

impl CredentialSource for StaticPassword {
    fn fetch(self) -> (r: Result<String, String>)
        ensures
            r matches Ok(p) && p@ == self.password@,
    {
        Ok(self.password)
    }
}

/// A request to (re)authenticate a connection, polymorphic over the two
/// supported strategies.
pub enum AuthRequest<F: CredentialSource> {
    /// Password exchange against the server's token endpoint.
    Jwt { username: String, password: F },
    /// OAuth2 grant.  When `client_id` is blank the server's discovery
    /// endpoint is consulted first and its answer overrides every field here.
    OAuth {
        client_id: String,
        device_endpoint: Option<String>,
        scopes: Vec<String>,
        authorize_endpoint: String,
        token_endpoint: String,
        flow: OAuthFlow,
    },
}


impl<F: CredentialSource> AuthRequest<F> {
    /// Starts the authentication this request asks for and yields the first
    /// state and action of the flow.  A password request asks its supplier
    /// here — only here, when a password is actually needed — and posts the
    /// credentials it produced, or fails as the supplier failed; an
    /// OAuth request with a blank client id consults discovery first; other
    /// OAuth requests go straight to device authorization.  Only the device
    /// flow is implemented; the remaining flows are rejected outright.
    pub fn begin(self, server: &str) -> (r: (
        crate::auth::oauth::FlowState,
        crate::auth::oauth::FlowAction,
    ))
        ensures
            self matches AuthRequest::Jwt { username, password } ==> ((r.0 is AwaitToken && (
                r.1 matches crate::auth::oauth::FlowAction::PostCredentials {
                    url,
                    username: u,
                    password: pw,
                } && url@ == crate::strutil::trim_slashes_spec(server@) + "/auth/token"@ && u
                    == username && call_ensures(F::fetch, (password,), Ok(pw)))) || (r.0
                matches crate::auth::oauth::FlowState::Failed { error } && error
                matches crate::error::ConnectError::Auth(
                crate::error::AuthError::BasicAuth(crate::error::BasicAuthError::IOError(m)),
            ) && call_ensures(F::fetch, (password,), Err(m)) && r.1 is Stop)),
            self matches AuthRequest::OAuth { flow, .. } ==> (!(flow is Device) ==> (r.0
                matches crate::auth::oauth::FlowState::Failed { error } && error
                == crate::error::ConnectError::Auth(
                crate::error::AuthError::OAuth(crate::error::OAuthError::UnsupportedFlow),
            ) && r.1 is Stop)),
            self matches AuthRequest::OAuth { client_id, flow, .. } ==> ((flow is Device
                && crate::strutil::trim_spec(client_id@).len() == 0) ==> (r.0 is AwaitDiscovery
                && (r.1 matches crate::auth::oauth::FlowAction::FetchDiscovery { url } && url@
                == crate::strutil::trim_slashes_spec(server@) + "/auth/oauth"@))),
            self matches AuthRequest::OAuth { client_id, device_endpoint, flow, .. } ==> ((flow
                is Device && crate::strutil::trim_spec(client_id@).len() > 0 && device_endpoint
                is None) ==> (r.0 matches crate::auth::oauth::FlowState::Failed { error } && error
                matches crate::error::ConnectError::Auth(
                crate::error::AuthError::OAuth(crate::error::OAuthError::MissingEndpoint(m)),
            ) && m@ == "Device Authorization URL"@ && r.1 is Stop)),
            self matches AuthRequest::OAuth {
                client_id,
                device_endpoint,
                scopes,
                authorize_endpoint,
                token_endpoint,
                flow,
            } ==> ((flow is Device && crate::strutil::trim_spec(client_id@).len() > 0) ==> (
                device_endpoint matches Some(d) ==> (r.0
                matches crate::auth::oauth::FlowState::AwaitDeviceAuthorization { cfg }
                && cfg.client_id == client_id && cfg.authorize_endpoint == authorize_endpoint
                && cfg.token_endpoint == token_endpoint && (cfg.device_endpoint matches Some(dd)
                && dd == d) && cfg.scopes.deep_view() == crate::strutil::dedup_spec(
                scopes.deep_view(),
            ) && (r.1 matches crate::auth::oauth::FlowAction::PostDeviceAuthorization {
                    url,
                    client_id: ci,
                    scopes: sc,
                } && url@ == d@ && ci@ == client_id@ && sc.deep_view()
                == crate::strutil::dedup_spec(scopes.deep_view()))))),
    {
        match self {
            AuthRequest::Jwt { username, password } => {
                match password.fetch() {
                    Ok(pw) => {
                        let url = crate::auth::jwt::token_url(server);
                        (
                            crate::auth::oauth::FlowState::AwaitToken,
                            crate::auth::oauth::FlowAction::PostCredentials {
                                url,
                                username,
                                password: pw,
                            },
                        )
                    },
                    Err(e) => (
                        crate::auth::oauth::FlowState::Failed {
                            error: crate::error::ConnectError::Auth(
                                crate::error::AuthError::BasicAuth(
                                    crate::error::BasicAuthError::IOError(e),
                                ),
                            ),
                        },
                        crate::auth::oauth::FlowAction::Stop,
                    ),
                }
            },
            AuthRequest::OAuth {
                client_id,
                device_endpoint,
                scopes,
                authorize_endpoint,
                token_endpoint,
                flow,
            } => {
                match flow {
                    OAuthFlow::Device => {
                        let trimmed = crate::strutil::trim_str(client_id.as_str());
                        if trimmed.as_str().unicode_len() == 0 {
                            let url = crate::strutil::server_url(server, "/auth/oauth");
                            (
                                crate::auth::oauth::FlowState::AwaitDiscovery,
                                crate::auth::oauth::FlowAction::FetchDiscovery { url },
                            )
                        } else {
                            match device_endpoint {
                                None => (
                                    crate::auth::oauth::FlowState::Failed {
                                        error: crate::error::ConnectError::Auth(
                                            crate::error::AuthError::OAuth(
                                                crate::error::OAuthError::MissingEndpoint(
                                                    "Device Authorization URL".to_owned(),
                                                ),
                                            ),
                                        ),
                                    },
                                    crate::auth::oauth::FlowAction::Stop,
                                ),
                                Some(d) => {
                                    let url = d.clone();
                                    let ci = client_id.clone();
                                    let deduped = crate::strutil::dedup_strings(&scopes);
                                    let sc = crate::auth::oauth::clone_strings(&deduped);
                                    let cfg = crate::auth::oauth::OAuthConfig {
                                        client_id,
                                        authorize_endpoint,
                                        token_endpoint,
                                        device_endpoint: Some(d),
                                        scopes: deduped,
                                    };
                                    (
                                        crate::auth::oauth::FlowState::AwaitDeviceAuthorization {
                                            cfg,
                                        },
                                        crate::auth::oauth::FlowAction::PostDeviceAuthorization {
                                            url,
                                            client_id: ci,
                                            scopes: sc,
                                        },
                                    )
                                },
                            }
                        }
                    },
                    _ => (
                        crate::auth::oauth::FlowState::Failed {
                            error: crate::error::ConnectError::Auth(
                                crate::error::AuthError::OAuth(
                                    crate::error::OAuthError::UnsupportedFlow,
                                ),
                            ),
                        },
                        crate::auth::oauth::FlowAction::Stop,
                    ),
                }
            },
        }
    }
}


/// Which authentication strategy a caller asks for by name.
#[derive(Clone, Copy, Debug, PartialEq, Eq, Structural)]
pub enum AuthType {
    /// Password exchange against the server.
    Basic,
    /// OAuth2 device-code grant.
    OAuth,
}

} // verus!
