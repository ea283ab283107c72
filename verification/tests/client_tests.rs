use logsh_core::common::{ApiErrorModel, OutputMode};
use logsh_core::config::Configuration;
use logsh_core::connect::{Connection, ConnectionStatus};
use logsh_core::error::{ClientError, CommonError, ConfigError, UploadError};
use logsh_core::logger::{ConsoleLogger, LogLevel};
use logsh_core::logship_client::{
    get_clean_path, LogshClient, LogshClientHandler, LogshClientHandlerExecute,
};
use logsh_core::upload::execute_upload;

#[test]
fn clean_path_strips_one_leading_slash() {
    assert_eq!(get_clean_path("/users/1"), "users/1");
    assert_eq!(get_clean_path("users/1"), "users/1");
    assert_eq!(get_clean_path(""), "");
    assert_eq!(get_clean_path("//double"), "/double");
}

#[test]
fn client_new_trims_and_builds_urls() {
    let client = LogshClient::new(" https://s.test ", "  tok  ".to_string());
    assert_eq!(client.server, "https://s.test");
    assert_eq!(client.token, "tok");
    assert_eq!(client.request_url("/whoami"), "https://s.test/whoami");
    assert_eq!(client.request_url("whoami"), "https://s.test/whoami");
}

#[test]
fn handler_resolves_default_connection() {
    let mut cfg = Configuration::default();
    cfg.set_connection("prod".to_string(), Connection::new("https://prod.test"), true);
    let handler = LogshClientHandler::new();
    let c = handler.get_connection(&cfg).expect("default connection");
    assert_eq!(c.server, "https://prod.test");
}

#[test]
fn handler_honors_override_and_reports_missing_names() {
    let mut cfg = Configuration::default();
    cfg.set_connection("prod".to_string(), Connection::new("https://prod.test"), true);
    cfg.set_connection("dev".to_string(), Connection::new("https://dev.test"), false);
    let handler = LogshClientHandler { override_connection_name: Some("dev".to_string()) };
    assert_eq!(handler.get_connection(&cfg).unwrap().server, "https://dev.test");
    let missing = LogshClientHandler { override_connection_name: Some("ghost".to_string()) };
    assert!(matches!(
        missing.get_connection(&cfg),
        Err(ClientError::ConnectionNotFound(n)) if n == "ghost"
    ));
}

#[test]
fn handler_without_connections_reports_no_default() {
    let cfg = Configuration::default();
    let handler = LogshClientHandler::new();
    assert!(matches!(
        handler.get_connection(&cfg),
        Err(ClientError::Config(ConfigError::NoDefaultConnection))
    ));
}

struct TokenEcho;

impl LogshClientHandlerExecute<String> for TokenEcho {
    fn execute(&self, client: &LogshClient) -> Result<String, ClientError> {
        Ok(format!("{}|{}", client.server, client.token))
    }
}

#[test]
fn execute_hands_an_authenticated_client_to_the_operation() {
    let mut cfg = Configuration::default();
    let mut conn = Connection::new("https://prod.test");
    conn.auth = Some(logsh_core::auth::AuthData::Jwt {
        expires: None,
        token: "bear".to_string(),
    });
    cfg.set_connection("prod".to_string(), conn, true);
    let handler = LogshClientHandler::new();
    let out = handler.execute(&cfg, &TokenEcho).expect("operation result");
    assert_eq!(out, "https://prod.test|bear");
    let out = handler
        .execute_func(&cfg, &|client: &LogshClient| -> Result<String, ClientError> { Ok(client.token.clone()) })
        .expect("function result");
    assert_eq!(out, "bear");
}

#[test]
fn execute_requires_a_token() {
    let mut cfg = Configuration::default();
    cfg.set_connection("prod".to_string(), Connection::new("https://prod.test"), true);
    let handler = LogshClientHandler::new();
    assert!(matches!(handler.execute(&cfg, &TokenEcho), Err(ClientError::NoToken)));
}

fn conn_with_subscription() -> Connection {
    let mut c = Connection::new("https://prod.test");
    c.default_subscription = Some("sub-1".to_string());
    c
}

#[test]
fn upload_builds_the_inflow_path() {
    let c = conn_with_subscription();
    let url = execute_upload(&c, "myschema", "/data/batch.tsv", true).expect("upload path");
    assert_eq!(url, "inflow/sub-1/myschema/tsv");
}

#[test]
fn upload_rejects_blank_and_missing_paths() {
    let c = conn_with_subscription();
    assert!(matches!(
        execute_upload(&c, "s", "   ", true),
        Err(UploadError::Common(CommonError::EmptyArgument(a))) if a == "path"
    ));
    assert!(matches!(
        execute_upload(&c, "s", "/data/batch.tsv", false),
        Err(UploadError::Common(CommonError::FileNotFound(p))) if p == "/data/batch.tsv"
    ));
}

#[test]
fn upload_requires_an_extension_and_a_subscription() {
    let c = conn_with_subscription();
    assert!(matches!(
        execute_upload(&c, "s", "/data/batch", true),
        Err(UploadError::UnsupportedFileExtension(e)) if e.is_empty()
    ));
    assert!(matches!(
        execute_upload(&c, "s", "/data/.hidden", true),
        Err(UploadError::UnsupportedFileExtension(_))
    ));
    let bare = Connection::new("https://prod.test");
    assert!(matches!(
        execute_upload(&bare, "s", "/data/batch.tsv", true),
        Err(UploadError::Config(ConfigError::NoDefaultSubscription))
    ));
}

#[test]
fn output_mode_parses_the_documented_spellings() {
    assert!(matches!(OutputMode::from_str("json"), Ok(OutputMode::Json)));
    assert!(matches!(OutputMode::from_str("json-pretty"), Ok(OutputMode::JsonPretty)));
    assert!(matches!(OutputMode::from_str("csv"), Ok(OutputMode::Csv)));
    assert!(matches!(OutputMode::from_str("markdown"), Ok(OutputMode::Markdown)));
    assert!(OutputMode::from_str("table").is_err());
    assert!(OutputMode::from_str("").is_err());
    assert!(matches!(OutputMode::default(), OutputMode::Table));
}

#[test]
fn connection_status_labels() {
    assert_eq!(ConnectionStatus::Connected.label(), "Connected");
    assert_eq!(ConnectionStatus::AuthRequired.label(), "Authentication Required");
    assert_eq!(ConnectionStatus::NotConfigured.label(), "Configuration Required");
}

#[test]
fn api_error_display_includes_the_stack_trace() {
    let plain = ApiErrorModel {
        message: "bad query".to_string(),
        stack_trace: None,
        errors: vec![],
    };
    assert_eq!(plain.display_text(), "bad query");
    let traced = ApiErrorModel {
        message: "bad query".to_string(),
        stack_trace: Some("at line 3".to_string()),
        errors: vec![],
    };
    assert_eq!(traced.display_text(), "bad query\nat line 3");
}

#[test]
fn console_logger_filters_by_severity() {
    let mut logger = ConsoleLogger { level: LogLevel::Warn };
    assert!(logger.enabled(LogLevel::Error));
    assert!(logger.enabled(LogLevel::Warn));
    assert!(!logger.enabled(LogLevel::Info));
    logger.set_log_level(LogLevel::Trace);
    assert!(logger.enabled(LogLevel::Debug));
}

#[test]
fn string_helpers_order_and_trim() {
    assert!(logsh_core::strutil::str_lt("alpha", "beta"));
    assert!(!logsh_core::strutil::str_lt("beta", "alpha"));
    assert!(!logsh_core::strutil::str_lt("same", "same"));
    assert!(logsh_core::strutil::str_lt("ab", "abc"));
    assert!(logsh_core::strutil::str_eq("x", "x"));
    assert!(!logsh_core::strutil::str_eq("x", "y"));
    assert_eq!(logsh_core::strutil::trim_str("  padded\t"), "padded");
    assert_eq!(logsh_core::strutil::trim_str(" \n "), "");
    assert_eq!(logsh_core::strutil::trim_str("\u{2003}x\u{a0}"), "x");
    assert_eq!(logsh_core::strutil::trim_end_slashes("https://a//"), "https://a");
    assert_eq!(logsh_core::strutil::server_url("https://a/", "/x"), "https://a/x");
}

#[test]
fn whoami_and_subscription_urls() {
    let c = Connection::new("https://s.test/");
    assert_eq!(c.whoami_url(), "https://s.test/whoami");
    assert_eq!(c.oauth_config_url(), "https://s.test/auth/oauth");
    assert_eq!(c.subscriptions_url("u-9"), "https://s.test/users/u-9/accounts");
}

#[test]
fn clock_reads_are_non_negative() {
    assert!(logsh_core::timeutil::now_seconds() >= 0);
}
