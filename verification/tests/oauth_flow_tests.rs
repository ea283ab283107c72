use logsh_core::auth::oauth::{
    DeviceGrant, FlowAction, FlowEvent, FlowState, OAuthToken,
};
use logsh_core::auth::{AuthData, AuthRequest, StaticPassword};
use logsh_core::connect::OAuthConfigResponse;
use logsh_core::error::{AuthError, BasicAuthError, ConnectError, OAuthError};

fn oauth_request(client_id: &str) -> AuthRequest<StaticPassword> {
    AuthRequest::OAuth {
        client_id: client_id.to_string(),
        device_endpoint: Some("https://s.test/device".to_string()),
        scopes: vec!["profile".to_string()],
        authorize_endpoint: "https://s.test/authorize".to_string(),
        token_endpoint: "https://s.test/token".to_string(),
        flow: logsh_core::auth::oauth::OAuthFlow::Device,
    }
}

#[test]
fn jwt_request_posts_credentials_and_grants_on_success() {
    let req: AuthRequest<StaticPassword> = AuthRequest::Jwt {
        username: "alice".to_string(),
        password: StaticPassword { password: "secret".to_string() },
    };
    let (state, action) = req.begin("https://s.test/");
    match &action {
        FlowAction::PostCredentials { url, username, password } => {
            assert_eq!(url, "https://s.test/auth/token");
            assert_eq!(username, "alice");
            assert_eq!(password, "secret");
        },
        other => panic!("expected a credentials post, got {:?}", other),
    }
    let now: i64 = 1_700_000_000;
    let (state, action) = state.step(FlowEvent::TokenResponse(Ok("abc123".to_string())), now);
    assert!(matches!(action, FlowAction::Stop));
    assert!(state.is_terminal());
    match state.into_result() {
        Ok(AuthData::Jwt { expires, token }) => {
            assert_eq!(token, "abc123");
            assert_eq!(expires, Some(now + 86400));
        },
        other => panic!("expected a JWT grant, got {:?}", other),
    }
}

#[test]
fn jwt_request_failure_surfaces_as_network_error() {
    let req: AuthRequest<StaticPassword> = AuthRequest::Jwt {
        username: "alice".to_string(),
        password: StaticPassword { password: "secret".to_string() },
    };
    let (state, _) = req.begin("https://s.test");
    let (state, _) = state.step(FlowEvent::TokenResponse(Err("401 Unauthorized".to_string())), 0);
    match state.into_result() {
        Err(ConnectError::Network(m)) => assert_eq!(m, "401 Unauthorized"),
        other => panic!("expected a network failure, got {:?}", other),
    }
}

#[test]
fn blank_client_id_asks_discovery_first() {
    let (state, action) = oauth_request("  ").begin("https://s.test/");
    assert!(matches!(state, FlowState::AwaitDiscovery));
    match action {
        FlowAction::FetchDiscovery { url } => assert_eq!(url, "https://s.test/auth/oauth"),
        other => panic!("expected a discovery fetch, got {:?}", other),
    }
}

#[test]
fn discovery_no_content_fails_without_device_authorization() {
    let (state, _) = oauth_request("").begin("https://s.test");
    let (state, action) = state.step(FlowEvent::DiscoveryNoContent, 0);
    assert!(matches!(action, FlowAction::Stop));
    match state.into_result() {
        Err(ConnectError::Auth(AuthError::OAuth(OAuthError::MissingEndpoint(m)))) => {
            assert_eq!(m, "oauth is not configured for this server");
        },
        other => panic!("expected the unconfigured-OAuth failure, got {:?}", other),
    }
}

#[test]
fn unsupported_flows_are_rejected_up_front() {
    for flow in [
        logsh_core::auth::oauth::OAuthFlow::Code,
        logsh_core::auth::oauth::OAuthFlow::Refresh,
    ] {
        let req: AuthRequest<StaticPassword> = AuthRequest::OAuth {
            client_id: "cid".to_string(),
            device_endpoint: None,
            scopes: vec![],
            authorize_endpoint: String::new(),
            token_endpoint: String::new(),
            flow,
        };
        let (state, _) = req.begin("https://s.test");
        assert!(matches!(
            state.into_result(),
            Err(ConnectError::Auth(AuthError::OAuth(OAuthError::UnsupportedFlow)))
        ));
    }
}

#[test]
fn missing_device_endpoint_is_reported() {
    let req: AuthRequest<StaticPassword> = AuthRequest::OAuth {
        client_id: "cid".to_string(),
        device_endpoint: None,
        scopes: vec![],
        authorize_endpoint: "https://s.test/authorize".to_string(),
        token_endpoint: "https://s.test/token".to_string(),
        flow: logsh_core::auth::oauth::OAuthFlow::Device,
    };
    let (state, _) = req.begin("https://s.test");
    match state.into_result() {
        Err(ConnectError::Auth(AuthError::OAuth(OAuthError::MissingEndpoint(m)))) => {
            assert_eq!(m, "Device Authorization URL");
        },
        other => panic!("expected a missing-endpoint failure, got {:?}", other),
    }
}

fn drive_to_polling(now: i64, expires_in: u64, interval: Option<u64>) -> FlowState {
    let (state, action) = oauth_request("").begin("https://s.test");
    assert!(matches!(action, FlowAction::FetchDiscovery { .. }));
    let doc = OAuthConfigResponse {
        client_id: "server-cid".to_string(),
        authorize_endpoint: "https://s.test/authorize".to_string(),
        device_endpoint: "https://s.test/device".to_string(),
        token_endpoint: "https://s.test/token".to_string(),
        scopes: vec!["profile".to_string(), "email".to_string()],
    };
    let (state, action) = state.step(FlowEvent::DiscoveryOk(doc), now);
    match &action {
        FlowAction::PostDeviceAuthorization { url, client_id, scopes } => {
            assert_eq!(url, "https://s.test/device");
            assert_eq!(client_id, "server-cid");
            assert_eq!(scopes, &vec!["profile".to_string(), "email".to_string()]);
        },
        other => panic!("expected a device-authorization post, got {:?}", other),
    }
    let grant = DeviceGrant {
        device_code: "dev-code".to_string(),
        user_code: "ABCD-EFGH".to_string(),
        verification_uri: "https://s.test/activate".to_string(),
        interval,
        expires_in,
    };
    let (state, action) = state.step(FlowEvent::DeviceAuthorized(grant), now);
    match &action {
        FlowAction::ShowPrompt { verification_uri, user_code } => {
            assert_eq!(verification_uri, "https://s.test/activate");
            assert_eq!(user_code, "ABCD-EFGH");
        },
        other => panic!("expected the operator prompt, got {:?}", other),
    }
    let (state, action) = state.step(FlowEvent::Prompted, now);
    match &action {
        FlowAction::PollToken { url, client_id, device_code, wait_seconds } => {
            assert_eq!(url, "https://s.test/token");
            assert_eq!(client_id, "server-cid");
            assert_eq!(device_code, "dev-code");
            assert_eq!(*wait_seconds, interval.unwrap_or(5));
        },
        other => panic!("expected a poll, got {:?}", other),
    }
    state
}

#[test]
fn device_flow_happy_path_packages_the_grant() {
    let now: i64 = 1_000;
    let state = drive_to_polling(now, 600, Some(7));
    let (state, _) = state.step(FlowEvent::PollPending, now + 7);
    let token = OAuthToken {
        access_token: "granted".to_string(),
        refresh_token: Some("refresh".to_string()),
        expires_in: Some(3600),
    };
    let granted_at = now + 14;
    let (state, action) = state.step(FlowEvent::PollSuccess(token), granted_at);
    assert!(matches!(action, FlowAction::Stop));
    match state.into_result() {
        Ok(AuthData::OAuth { data }) => {
            assert_eq!(data.received, granted_at);
            assert_eq!(data.client_id, "server-cid");
            assert_eq!(data.token.access_token, "granted");
            assert_eq!(data.token.refresh_token.as_deref(), Some("refresh"));
            assert_eq!(data.token.expires_in, Some(3600));
            assert!(matches!(data.flow, logsh_core::auth::oauth::OAuthFlow::Device));
            assert_eq!(data.device_endpoint.as_deref(), Some("https://s.test/device"));
        },
        other => panic!("expected an OAuth grant, got {:?}", other),
    }
}

#[test]
fn pending_past_the_window_times_out() {
    let now: i64 = 1_000;
    let state = drive_to_polling(now, 600, None);
    // Within the window the flow keeps polling.
    let (state, action) = state.step(FlowEvent::PollPending, now + 600);
    assert!(matches!(action, FlowAction::PollToken { .. }));
    // One second past the device code's lifetime it gives up.
    let (state, action) = state.step(FlowEvent::PollPending, now + 601);
    assert!(matches!(action, FlowAction::Stop));
    assert!(matches!(
        state.into_result(),
        Err(ConnectError::Auth(AuthError::Expired))
    ));
}

#[test]
fn slow_down_stretches_the_poll_interval() {
    let now: i64 = 0;
    let state = drive_to_polling(now, 600, Some(5));
    let (state, action) = state.step(FlowEvent::PollSlowDown, now + 5);
    match action {
        FlowAction::PollToken { wait_seconds, .. } => assert_eq!(wait_seconds, 10),
        other => panic!("expected a slower poll, got {:?}", other),
    }
    let (_, action) = state.step(FlowEvent::PollSlowDown, now + 15);
    match action {
        FlowAction::PollToken { wait_seconds, .. } => assert_eq!(wait_seconds, 15),
        other => panic!("expected a still slower poll, got {:?}", other),
    }
}

#[test]
fn denied_and_expired_token_answers_fail() {
    let state = drive_to_polling(0, 600, None);
    let (state2, _) = state.step(FlowEvent::PollDenied, 5);
    match state2.into_result() {
        Err(ConnectError::Auth(AuthError::OAuth(OAuthError::TokenErrorResponse(m)))) => {
            assert_eq!(m, "access_denied");
        },
        other => panic!("expected the denial, got {:?}", other),
    }
    let state = drive_to_polling(0, 600, None);
    let (state2, _) = state.step(FlowEvent::PollExpiredToken, 5);
    match state2.into_result() {
        Err(ConnectError::Auth(AuthError::OAuth(OAuthError::TokenErrorResponse(m)))) => {
            assert_eq!(m, "expired_token");
        },
        other => panic!("expected the expiry, got {:?}", other),
    }
}

#[test]
fn expects_event_guards_the_protocol() {
    let (state, _) = oauth_request("").begin("https://s.test");
    assert!(state.expects_event(&FlowEvent::DiscoveryNoContent));
    assert!(!state.expects_event(&FlowEvent::PollPending));
    assert!(!state.is_terminal());
}

struct FailingPassword;

impl logsh_core::auth::CredentialSource for FailingPassword {
    fn fetch(self) -> Result<String, String> {
        Err("prompt cancelled".to_string())
    }
}

#[test]
fn cancelled_password_prompt_fails_as_basic_auth() {
    let req: AuthRequest<FailingPassword> = AuthRequest::Jwt {
        username: "alice".to_string(),
        password: FailingPassword,
    };
    let (state, action) = req.begin("https://s.test");
    assert!(matches!(action, FlowAction::Stop));
    match state.into_result() {
        Err(ConnectError::Auth(AuthError::BasicAuth(BasicAuthError::IOError(m)))) => {
            assert_eq!(m, "prompt cancelled");
        },
        other => panic!("expected a basic-auth failure, got {:?}", other),
    }
}

#[test]
fn rejected_device_authorization_fails() {
    let (state, _) = oauth_request("").begin("https://s.test");
    let doc = OAuthConfigResponse {
        client_id: "cid".to_string(),
        authorize_endpoint: "a".to_string(),
        device_endpoint: "d".to_string(),
        token_endpoint: "t".to_string(),
        scopes: vec![],
    };
    let (state, _) = state.step(FlowEvent::DiscoveryOk(doc), 0);
    let (state, action) = state.step(
        FlowEvent::DeviceAuthorizationFailed("invalid_client".to_string()),
        0,
    );
    assert!(matches!(action, FlowAction::Stop));
    match state.into_result() {
        Err(ConnectError::Auth(AuthError::OAuth(OAuthError::DeviceTokenErrorResponse(m)))) => {
            assert_eq!(m, "invalid_client");
        },
        other => panic!("expected a device-authorization failure, got {:?}", other),
    }
}

#[test]
fn repeated_scopes_are_requested_once() {
    let req: AuthRequest<StaticPassword> = AuthRequest::OAuth {
        client_id: "cid".to_string(),
        device_endpoint: Some("https://s.test/device".to_string()),
        scopes: vec![
            "profile".to_string(),
            "email".to_string(),
            "profile".to_string(),
        ],
        authorize_endpoint: "https://s.test/authorize".to_string(),
        token_endpoint: "https://s.test/token".to_string(),
        flow: logsh_core::auth::oauth::OAuthFlow::Device,
    };
    let (_, action) = req.begin("https://s.test");
    match action {
        FlowAction::PostDeviceAuthorization { scopes, .. } => {
            assert_eq!(scopes, vec!["profile".to_string(), "email".to_string()]);
        },
        other => panic!("expected a device-authorization post, got {:?}", other),
    }
}

#[test]
fn repeated_discovery_scopes_are_kept_once() {
    let (state, _) = oauth_request("").begin("https://s.test");
    let doc = OAuthConfigResponse {
        client_id: "cid".to_string(),
        authorize_endpoint: "a".to_string(),
        device_endpoint: "d".to_string(),
        token_endpoint: "t".to_string(),
        scopes: vec!["x".to_string(), "x".to_string(), "y".to_string()],
    };
    let (_, action) = state.step(FlowEvent::DiscoveryOk(doc), 0);
    match action {
        FlowAction::PostDeviceAuthorization { scopes, .. } => {
            assert_eq!(scopes, vec!["x".to_string(), "y".to_string()]);
        },
        other => panic!("expected a device-authorization post, got {:?}", other),
    }
}
