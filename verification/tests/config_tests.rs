use logsh_core::config::{resolve_config_path, Configuration};
use logsh_core::connect::{add_connect_target, Connection};
use logsh_core::error::{ConfigError, ConnectError};

fn cfg_with(names: &[&str]) -> Configuration {
    let mut cfg = Configuration::default();
    for n in names {
        cfg.set_connection(n.to_string(), Connection::new("https://example.test"), false);
    }
    cfg
}

#[test]
fn empty_configuration_has_no_default() {
    let cfg = Configuration::default();
    assert!(cfg.get_default_connection().is_none());
    assert!(!cfg.default_is_stale());
}

#[test]
fn default_resolution_prefers_recorded_name() {
    let mut cfg = cfg_with(&["alpha", "beta"]);
    cfg.default_connection = "beta".to_string();
    let cc = cfg.get_default_connection().expect("default");
    assert_eq!(cc.name, "beta");
    assert!(!cfg.default_is_stale());
}

#[test]
fn stale_default_falls_back_to_smallest_name() {
    let mut cfg = cfg_with(&["delta", "bravo", "charlie"]);
    cfg.default_connection = "ghost".to_string();
    let cc = cfg.get_default_connection().expect("fallback");
    assert_eq!(cc.name, "bravo");
    assert!(cfg.default_is_stale());
}

#[test]
fn stale_default_with_one_connection_resolves_to_it() {
    let mut cfg = Configuration::default();
    cfg.set_connection("prod".to_string(), Connection::new("https://prod.test"), false);
    cfg.default_connection = "ghost".to_string();
    let cc = cfg.get_default_connection().expect("fallback");
    assert_eq!(cc.name, "prod");
    assert_eq!(cc.connection.server, "https://prod.test");
    assert!(cfg.default_is_stale());
}

#[test]
fn first_connection_becomes_default_even_if_not_requested() {
    let mut cfg = Configuration::default();
    cfg.set_connection("first".to_string(), Connection::new("https://a.test"), false);
    assert_eq!(cfg.default_connection, "first");
    let cc = cfg.get_default_connection().expect("default");
    assert_eq!(cc.name, "first");
}

#[test]
fn later_connection_changes_default_only_on_request() {
    let mut cfg = Configuration::default();
    cfg.set_connection("first".to_string(), Connection::new("https://a.test"), true);
    cfg.set_connection("second".to_string(), Connection::new("https://b.test"), false);
    assert_eq!(cfg.default_connection, "first");
    cfg.set_connection("third".to_string(), Connection::new("https://c.test"), true);
    assert_eq!(cfg.default_connection, "third");
}

#[test]
fn set_connection_replaces_existing_entry() {
    let mut cfg = Configuration::default();
    cfg.set_connection("one".to_string(), Connection::new("https://old.test"), true);
    cfg.set_connection("one".to_string(), Connection::new("https://new.test"), false);
    assert_eq!(cfg.len(), 1);
    assert_eq!(cfg.get("one").expect("entry").server, "https://new.test");
}

#[test]
fn get_finds_only_stored_names() {
    let cfg = cfg_with(&["a", "b"]);
    assert!(cfg.get("a").is_some());
    assert!(cfg.get("b").is_some());
    assert!(cfg.get("c").is_none());
}

#[test]
fn remove_connection_removes_and_returns() {
    let mut cfg = cfg_with(&["a", "b"]);
    let gone = cfg.remove_connection("a");
    assert!(gone.is_some());
    assert!(cfg.get("a").is_none());
    assert_eq!(cfg.len(), 1);
    assert!(cfg.remove_connection("zzz").is_none());
    assert_eq!(cfg.len(), 1);
}

#[test]
fn config_path_env_override_wins_when_it_exists() {
    let r = resolve_config_path(Some("/tmp/custom.json".to_string()), true, None);
    assert_eq!(r.unwrap(), "/tmp/custom.json");
}

#[test]
fn config_path_env_override_must_exist() {
    let r = resolve_config_path(Some("/tmp/custom.json".to_string()), false, None);
    assert!(matches!(r, Err(ConfigError::InvalidConfigPath(_))));
}

#[test]
fn config_path_blank_override_is_ignored() {
    let r = resolve_config_path(Some("   ".to_string()), false, Some("/home/me".to_string()));
    assert_eq!(r.unwrap(), "/home/me/.logsh/logsh-config.json");
}

#[test]
fn config_path_defaults_to_home() {
    let r = resolve_config_path(None, false, Some("/home/me".to_string()));
    assert_eq!(r.unwrap(), "/home/me/.logsh/logsh-config.json");
}

#[test]
fn config_path_without_home_fails() {
    let r = resolve_config_path(None, false, None);
    assert!(matches!(r, Err(ConfigError::NoHome)));
}

#[test]
fn add_connect_target_picks_supplied_then_stored() {
    let mut cfg = Configuration::default();
    cfg.set_connection("prod".to_string(), Connection::new("https://prod.test"), true);
    let supplied = Connection::new("https://fresh.test");
    let out = add_connect_target(&cfg, "prod", Some(supplied)).expect("supplied connection");
    assert_eq!(out.server, "https://fresh.test");
    let out = add_connect_target(&cfg, "prod", None).expect("stored connection");
    assert_eq!(out.server, "https://prod.test");
    assert!(matches!(
        add_connect_target(&cfg, "ghost", None),
        Err(ConnectError::NoConnection(n)) if n == "ghost"
    ));
}
