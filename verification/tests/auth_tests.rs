use logsh_core::auth::jwt::{fetch_token, token_url, JWT_VALIDITY_SECONDS};
use logsh_core::auth::oauth::{OAuthData, OAuthFlow, OAuthToken};
use logsh_core::auth::AuthData;
use logsh_core::connect::{Connection, SubscriptionsModel, UserModel};
use logsh_core::error::{AuthError, ConnectError};

fn oauth_data(received: i64, expires_in: Option<u64>) -> AuthData {
    AuthData::OAuth {
        data: OAuthData {
            received,
            client_id: "cid".to_string(),
            authorize_endpoint: "https://s.test/auth".to_string(),
            token_endpoint: "https://s.test/token".to_string(),
            device_endpoint: Some("https://s.test/device".to_string()),
            scopes: vec!["profile".to_string()],
            token: OAuthToken {
                access_token: "tok".to_string(),
                refresh_token: None,
                expires_in,
            },
            flow: OAuthFlow::Device,
        },
    }
}

#[test]
fn oauth_expiry_is_exclusive_at_the_boundary() {
    let t0: i64 = 1_000_000;
    let d: u64 = 3600;
    let a = oauth_data(t0, Some(d));
    assert!(!a.is_expired(t0 + 3600 - 1));
    assert!(!a.is_expired(t0 + 3600));
    assert!(a.is_expired(t0 + 3600 + 1));
}

#[test]
fn oauth_without_advertised_lifetime_never_expires_locally() {
    let a = oauth_data(0, None);
    assert!(!a.is_expired(i64::MAX));
}

#[test]
fn jwt_expiry_follows_stored_instant() {
    let a = AuthData::Jwt { expires: Some(500), token: "t".to_string() };
    assert!(!a.is_expired(500));
    assert!(a.is_expired(501));
    let forever = AuthData::Jwt { expires: None, token: "t".to_string() };
    assert!(!forever.is_expired(i64::MAX));
}

#[test]
fn fetch_token_grants_one_day() {
    let now: i64 = 1_700_000_000;
    let a = fetch_token("abc123".to_string(), now);
    match a {
        AuthData::Jwt { expires, token } => {
            assert_eq!(token, "abc123");
            assert_eq!(expires, Some(now + JWT_VALIDITY_SECONDS as i64));
            assert_eq!(expires, Some(now + 86400));
        },
        _ => panic!("expected a JWT credential"),
    }
}

#[test]
fn token_url_trims_trailing_slashes() {
    assert_eq!(token_url("https://s.test///"), "https://s.test/auth/token");
    assert_eq!(token_url("https://s.test"), "https://s.test/auth/token");
}

#[test]
fn bearer_token_reads_either_variant() {
    let jwt = AuthData::Jwt { expires: None, token: "jay".to_string() };
    assert_eq!(jwt.bearer_token(), "jay");
    let oauth = oauth_data(0, None);
    assert_eq!(oauth.bearer_token(), "tok");
}

#[test]
fn connection_new_starts_clean_and_trims() {
    let c = Connection::new("  https://s.test \n");
    assert_eq!(c.server, "https://s.test");
    assert_eq!(c.user_id, "");
    assert_eq!(c.username, "");
    assert!(c.default_subscription.is_none());
    assert!(c.auth.is_none());
    assert!(!c.is_jwt_auth());
    assert!(!c.is_oauth_auth());
    assert!(c.get_token().is_none());
}

#[test]
fn ensure_valid_reports_missing_and_expired_credentials() {
    let mut c = Connection::new("https://s.test");
    assert!(matches!(c.ensure_valid(0), Err(ConnectError::NoAuthentication)));

    c.auth = Some(AuthData::Jwt { expires: Some(10), token: "t".to_string() });
    assert!(c.ensure_valid(10).is_ok());
    assert!(matches!(c.ensure_valid(11), Err(ConnectError::Auth(AuthError::Expired))));
}

#[test]
fn refresh_auth_replaces_credential_wholesale() {
    let mut c = Connection::new("https://s.test");
    c.auth = Some(oauth_data(0, Some(1)));
    let fresh = AuthData::Jwt { expires: Some(99), token: "new".to_string() };
    assert!(c.refresh_auth(Some(fresh), 1_000_000).is_ok());
    assert!(c.is_jwt_auth());
    assert_eq!(c.get_token().as_deref(), Some("new"));
}

#[test]
fn refresh_auth_without_request_checks_storage() {
    let mut c = Connection::new("https://s.test");
    assert!(matches!(c.refresh_auth(None, 0), Err(ConnectError::NoAuthentication)));
    c.auth = Some(oauth_data(100, Some(50)));
    assert!(c.refresh_auth(None, 150).is_ok());
    assert!(matches!(c.refresh_auth(None, 151), Err(ConnectError::Auth(AuthError::Expired))));
}

#[test]
fn apply_identity_adopts_first_subscription_by_name() {
    let mut c = Connection::new("https://s.test");
    let subs = vec![
        SubscriptionsModel {
            permissions: vec![],
            account_id: "id-z".to_string(),
            account_name: "zeta".to_string(),
        },
        SubscriptionsModel {
            permissions: vec![],
            account_id: "id-a".to_string(),
            account_name: "alpha".to_string(),
        },
    ];
    c.apply_identity(
        UserModel { user_id: "u1".to_string(), user_name: "alice".to_string() },
        &subs,
    );
    assert_eq!(c.user_id, "u1");
    assert_eq!(c.username, "alice");
    assert_eq!(c.default_subscription.as_deref(), Some("id-a"));
}

#[test]
fn apply_identity_keeps_existing_default_subscription() {
    let mut c = Connection::new("https://s.test");
    c.default_subscription = Some("keep".to_string());
    let subs = vec![SubscriptionsModel {
        permissions: vec![],
        account_id: "id".to_string(),
        account_name: "name".to_string(),
    }];
    c.apply_identity(
        UserModel { user_id: "u".to_string(), user_name: "n".to_string() },
        &subs,
    );
    assert_eq!(c.default_subscription.as_deref(), Some("keep"));
}

#[test]
fn subscription_resolution_falls_back_to_first_by_name() {
    let mut c = Connection::new("https://s.test");
    assert!(c.default_subscription().is_none());
    c.subscriptions = vec![
        ("zeta".to_string(), "id-z".to_string()),
        ("alpha".to_string(), "id-a".to_string()),
    ];
    assert_eq!(c.default_subscription().as_deref(), Some("id-a"));
    c.default_subscription = Some("id-z".to_string());
    assert_eq!(c.default_subscription().as_deref(), Some("id-z"));
}

#[test]
fn apply_identity_stores_the_subscription_list() {
    let mut c = Connection::new("https://s.test");
    let subs = vec![
        SubscriptionsModel {
            permissions: vec!["read".to_string()],
            account_id: "id-b".to_string(),
            account_name: "bravo".to_string(),
        },
        SubscriptionsModel {
            permissions: vec![],
            account_id: "id-a".to_string(),
            account_name: "alpha".to_string(),
        },
    ];
    c.apply_identity(
        UserModel { user_id: "u".to_string(), user_name: "n".to_string() },
        &subs,
    );
    assert_eq!(
        c.subscriptions,
        vec![
            ("bravo".to_string(), "id-b".to_string()),
            ("alpha".to_string(), "id-a".to_string()),
        ]
    );
}

#[test]
fn expiry_saturates_instead_of_overflowing() {
    let a = oauth_data(i64::MAX - 10, Some(u64::MAX));
    assert!(!a.is_expired(i64::MAX));
}

#[test]
fn apply_identity_keeps_one_entry_per_account_name() {
    let mut c = Connection::new("https://s.test");
    let subs = vec![
        SubscriptionsModel {
            permissions: vec![],
            account_id: "id-1".to_string(),
            account_name: "same".to_string(),
        },
        SubscriptionsModel {
            permissions: vec![],
            account_id: "id-2".to_string(),
            account_name: "same".to_string(),
        },
        SubscriptionsModel {
            permissions: vec![],
            account_id: "id-3".to_string(),
            account_name: "other".to_string(),
        },
    ];
    c.apply_identity(
        UserModel { user_id: "u".to_string(), user_name: "n".to_string() },
        &subs,
    );
    assert_eq!(
        c.subscriptions,
        vec![
            ("same".to_string(), "id-1".to_string()),
            ("other".to_string(), "id-3".to_string()),
        ]
    );
}
