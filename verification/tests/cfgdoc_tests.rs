use logsh_core::auth::oauth::{OAuthData, OAuthFlow, OAuthToken};
use logsh_core::auth::AuthData;
use logsh_core::cfgdoc::{
    auth_from_doc_exec, auth_to_doc, config_from_doc_exec, config_to_doc, conn_from_doc_exec,
    conn_to_doc,
};
use logsh_core::config::Configuration;
use logsh_core::connect::Connection;
use logsh_core::error::ConfigError;
use logsh_core::json::Json;

fn sample_oauth(received: i64) -> AuthData {
    AuthData::OAuth {
        data: OAuthData {
            received,
            client_id: "cid".to_string(),
            authorize_endpoint: "https://s.test/authorize".to_string(),
            token_endpoint: "https://s.test/token".to_string(),
            device_endpoint: Some("https://s.test/device".to_string()),
            scopes: vec!["profile".to_string(), "email".to_string()],
            token: OAuthToken {
                access_token: "access".to_string(),
                refresh_token: Some("refresh".to_string()),
                expires_in: Some(3600),
            },
            flow: OAuthFlow::Device,
        },
    }
}

fn sample_configuration() -> Configuration {
    let mut cfg = Configuration::default();
    let mut prod = Connection::new("https://prod.test");
    prod.user_id = "u-1".to_string();
    prod.username = "alice".to_string();
    prod.default_subscription = Some("sub-1".to_string());
    prod.subscriptions = vec![
        ("alpha".to_string(), "sub-1".to_string()),
        ("beta".to_string(), "sub-2".to_string()),
    ];
    prod.auth = Some(AuthData::Jwt { expires: Some(1_700_000_000), token: "jwt".to_string() });
    cfg.set_connection("prod".to_string(), prod, true);
    let mut dev = Connection::new("https://dev.test");
    dev.auth = Some(sample_oauth(1_600_000_000));
    cfg.set_connection("dev".to_string(), dev, false);
    cfg
}

#[test]
fn credential_documents_round_trip() {
    for auth in [
        AuthData::Jwt { expires: None, token: "t1".to_string() },
        AuthData::Jwt { expires: Some(0), token: "t2".to_string() },
        sample_oauth(42),
    ] {
        let doc = auth_to_doc(&auth).expect("document");
        let back = auth_from_doc_exec(&doc).expect("read back");
        assert_eq!(back, auth);
    }
}

#[test]
fn connection_document_round_trips() {
    let mut c = Connection::new("https://s.test");
    c.username = "bob".to_string();
    c.subscriptions = vec![("name".to_string(), "id".to_string())];
    let doc = conn_to_doc(&c).expect("document");
    let back = conn_from_doc_exec(&doc).expect("read back");
    assert_eq!(back, c);
}

#[test]
fn configuration_document_round_trips() {
    let cfg = sample_configuration();
    let doc = config_to_doc(&cfg).expect("document");
    let back = config_from_doc_exec(&doc).expect("read back");
    assert_eq!(back, cfg);
}

fn to_serde(j: &Json) -> serde_json::Value {
    match j {
        Json::Null => serde_json::Value::Null,
        Json::Bool(b) => serde_json::Value::Bool(*b),
        Json::Num(n) => serde_json::Value::Number((*n).into()),
        Json::Str(s) => serde_json::Value::String(s.clone()),
        Json::Arr(items) => serde_json::Value::Array(items.iter().map(to_serde).collect()),
        Json::Obj(fields) => serde_json::Value::Object(
            fields.iter().map(|(k, v)| (k.clone(), to_serde(v))).collect(),
        ),
    }
}

fn from_serde(v: &serde_json::Value) -> Json {
    match v {
        serde_json::Value::Null => Json::Null,
        serde_json::Value::Bool(b) => Json::Bool(*b),
        serde_json::Value::Number(n) => Json::Num(n.as_u64().expect("small number")),
        serde_json::Value::String(s) => Json::Str(s.clone()),
        serde_json::Value::Array(items) => Json::Arr(items.iter().map(from_serde).collect()),
        serde_json::Value::Object(fields) => Json::Obj(
            fields.iter().map(|(k, v)| (k.clone(), from_serde(v))).collect(),
        ),
    }
}

#[test]
fn saved_text_loads_back_to_the_same_configuration() {
    let cfg = sample_configuration();
    let doc = config_to_doc(&cfg).expect("document");
    let text = logsh_core::json::emit_json(&doc);
    let value: serde_json::Value = serde_json::from_str(&text).expect("parse");
    let back = config_from_doc_exec(&from_serde(&value)).expect("read back");
    // Reading foreign text goes through serde_json, whose objects iterate in
    // name order; the entries themselves come back exactly.
    assert_eq!(back.default_connection, cfg.default_connection);
    assert_eq!(back.len(), cfg.len());
    for (name, connection) in &cfg.connections {
        assert_eq!(back.get(name).expect("entry"), connection);
    }
    // Saving what was loaded is a no-op on the disk content.
    let doc2 = config_to_doc(&back).expect("document again");
    let text2 = logsh_core::json::emit_json(&doc2);
    let value2: serde_json::Value = serde_json::from_str(&text2).expect("parse again");
    assert_eq!(value, value2);
    let text3 = logsh_core::json::emit_json(
        &config_to_doc(&config_from_doc_exec(&from_serde(&value2)).expect("load"))
            .expect("save"),
    );
    assert_eq!(text2, text3);
}

#[test]
fn grant_instants_are_written_as_rfc3339() {
    let auth = sample_oauth(0);
    let doc = auth_to_doc(&auth).expect("document");
    let expected = "1970-01-01T00:00:00+00:00";
    match &doc {
        Json::Obj(outer) => match &outer[0].1 {
            Json::Obj(fields) => {
                let received = fields.iter().find(|(k, _)| k == "received").expect("received");
                assert_eq!(received.1, Json::Str(expected.to_string()));
            },
            other => panic!("unexpected payload {other:?}"),
        },
        other => panic!("unexpected document {other:?}"),
    }
}

#[test]
fn jwt_expiry_is_written_as_rfc3339() {
    let auth = AuthData::Jwt { expires: Some(946_684_800), token: "t".to_string() };
    let doc = auth_to_doc(&auth).expect("document");
    match &doc {
        Json::Obj(outer) => match &outer[0].1 {
            Json::Obj(fields) => {
                let expires = fields.iter().find(|(k, _)| k == "expires").expect("expires");
                assert_eq!(expires.1, Json::Str("2000-01-01T00:00:00+00:00".to_string()));
            },
            other => panic!("unexpected payload {other:?}"),
        },
        other => panic!("unexpected document {other:?}"),
    }
}

#[test]
fn malformed_documents_are_rejected() {
    assert!(matches!(
        auth_from_doc_exec(&Json::Num(3)),
        Err(ConfigError::FailedDeserialize(_))
    ));
    assert!(matches!(
        conn_from_doc_exec(&Json::Obj(vec![])),
        Err(ConfigError::FailedDeserialize(_))
    ));
    // A repeated connection name is refused rather than silently collapsed.
    let cfg = sample_configuration();
    let doc = config_to_doc(&cfg).expect("document");
    if let Json::Obj(mut fields) = doc {
        if let Json::Obj(conns) = &mut fields[1].1 {
            let name = conns[0].0.clone();
            let extra = conn_to_doc(cfg.get(name.as_str()).expect("entry")).expect("extra doc");
            conns.push((name, extra));
        }
        assert!(matches!(
            config_from_doc_exec(&Json::Obj(fields)),
            Err(ConfigError::FailedDeserialize(_))
        ));
    } else {
        panic!("unexpected document shape");
    }
}

#[test]
fn unreadable_timestamp_text_is_rejected() {
    let doc = Json::Obj(vec![(
        "Jwt".to_string(),
        Json::Obj(vec![
            ("token".to_string(), Json::Str("t".to_string())),
            ("expires".to_string(), Json::Str("not a date".to_string())),
        ]),
    )]);
    assert!(matches!(
        auth_from_doc_exec(&doc),
        Err(ConfigError::FailedDeserialize(_))
    ));
}

#[test]
fn emitted_text_is_json_that_parses_back() {
    let cfg = sample_configuration();
    let doc = config_to_doc(&cfg).expect("document");
    let text = logsh_core::json::emit_json(&doc);
    let value: serde_json::Value = serde_json::from_str(&text).expect("emitted text parses");
    // serde_json reads the emitted text to the very same document.
    assert_eq!(value, to_serde(&doc));
    let back = config_from_doc_exec(&from_serde(&value)).expect("read back");
    assert_eq!(back.default_connection, cfg.default_connection);
    assert_eq!(back.len(), cfg.len());
    for (name, connection) in &cfg.connections {
        assert_eq!(back.get(name).expect("entry"), connection);
    }
}

#[test]
fn emitter_renders_escapes_and_numbers() {
    let doc = Json::Obj(vec![
        ("a\"b".to_string(), Json::Str("line\nbreak\\".to_string())),
        ("n".to_string(), Json::Num(1234567890)),
        ("t".to_string(), Json::Bool(true)),
        ("z".to_string(), Json::Null),
        ("arr".to_string(), Json::Arr(vec![Json::Num(0), Json::Str(String::new())])),
    ]);
    let text = logsh_core::json::emit_json(&doc);
    assert_eq!(
        text,
        "{\"a\\\"b\":\"line\\u000abreak\\\\\",\"n\":1234567890,\"t\":true,\"z\":null,\"arr\":[0,\"\"]}"
    );
    let value: serde_json::Value = serde_json::from_str(&text).expect("parses");
    assert_eq!(value["a\"b"], serde_json::Value::String("line\nbreak\\".to_string()));
}

#[test]
fn out_of_calendar_instants_cannot_be_saved() {
    let auth = sample_oauth(i64::MAX);
    assert!(matches!(
        auth_to_doc(&auth),
        Err(ConfigError::FailedSerialize(_))
    ));
    let far = AuthData::Jwt { expires: Some(i64::MIN), token: "t".to_string() };
    assert!(matches!(auth_to_doc(&far), Err(ConfigError::FailedSerialize(_))));
}

#[test]
fn missing_auth_and_subscriptions_read_as_absent() {
    let doc = Json::Obj(vec![
        ("server".to_string(), Json::Str("https://s.test".to_string())),
        ("username".to_string(), Json::Str("alice".to_string())),
    ]);
    let c = conn_from_doc_exec(&doc).expect("tolerant read");
    assert_eq!(c.server, "https://s.test");
    assert!(c.auth.is_none());
    assert!(c.subscriptions.is_empty());
    assert!(c.default_subscription.is_none());
}

#[test]
fn renderable_boundary_instants_round_trip_and_beyond_refuses() {
    let max_renderable: i64 = 253_402_300_799;
    let auth = AuthData::Jwt { expires: Some(max_renderable), token: "t".to_string() };
    let doc = auth_to_doc(&auth).expect("document at the boundary");
    assert_eq!(auth_from_doc_exec(&doc).expect("read back"), auth);
    let beyond = AuthData::Jwt { expires: Some(max_renderable + 1), token: "t".to_string() };
    assert!(matches!(auth_to_doc(&beyond), Err(ConfigError::FailedSerialize(_))));
}

#[test]
fn instants_beyond_the_renderable_calendar_are_refused_on_load() {
    // Year 9999 pushed past the renderable range by a negative offset.
    let doc = Json::Obj(vec![(
        "Jwt".to_string(),
        Json::Obj(vec![
            ("token".to_string(), Json::Str("t".to_string())),
            (
                "expires".to_string(),
                Json::Str("9999-12-31T23:59:59-01:00".to_string()),
            ),
        ]),
    )]);
    assert!(matches!(
        auth_from_doc_exec(&doc),
        Err(ConfigError::FailedDeserialize(_))
    ));
}

#[test]
fn a_loaded_configuration_always_saves_again() {
    let cfg = sample_configuration();
    let doc = config_to_doc(&cfg).expect("document");
    let loaded = config_from_doc_exec(&doc).expect("load");
    assert!(config_to_doc(&loaded).is_ok());
}
