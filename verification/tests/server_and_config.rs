use mcp_banking::config::{all_backends, check_manifest, default_backends, init_backend, Backend, ConfigError, Enabled, Settings};
use mcp_banking::server::{d20, d50, d_usd, error_text, health_report};
use mcp_banking::types::BackendError;

fn some(x: &str) -> Option<String> {
    Some(x.to_string())
}

fn none_set() -> Settings {
    Settings {
        plaid_client_id: None,
        plaid_secret: None,
        plaid_access_token: None,
        plaid_env: None,
        mono_secret_key: None,
        mono_account_id: None,
        ob_base_url: None,
        ob_token: None,
    }
}

#[test]
fn defaults() {
    assert_eq!(d20(), 20);
    assert_eq!(d50(), 50);
    assert_eq!(d_usd(), "USD");
}

#[test]
fn error_texts() {
    assert_eq!(error_text(&BackendError::AccountNotFound), "Error: account not found");
    assert_eq!(error_text(&BackendError::NotFound), "Error: not found");
    assert_eq!(error_text(&BackendError::TransactionNotFound), "Error: transaction not found");
    assert_eq!(error_text(&BackendError::InstitutionNotFound), "Error: institution not found");
    assert_eq!(error_text(&BackendError::NoInstitutionDirectory), "Error: Open Banking does not provide an institution directory API");
    assert_eq!(error_text(&BackendError::Request("boom".to_string())), "Error: boom");
}

#[test]
fn health_follows_the_account_listing() {
    let ok = health_report("plaid", &Ok(()));
    assert!(ok.healthy);
    assert_eq!(ok.message.as_deref(), Some("plaid connected"));
    assert_eq!(ok.latency_ms, Some(1));
    let bad = health_report("mono", &Err(BackendError::Request("timeout".to_string())));
    assert!(!bad.healthy);
    assert_eq!(bad.message.as_deref(), Some("mono: timeout"));
    assert_eq!(bad.latency_ms, None);
}

#[test]
fn plaid_comes_first() {
    let mut s = none_set();
    s.plaid_client_id = some("c");
    s.plaid_secret = some("s");
    s.plaid_access_token = some("t");
    s.mono_secret_key = some("k");
    s.mono_account_id = some("a");
    match init_backend(s, all_backends()) {
        Ok(Backend::Plaid(p)) => assert_eq!(p.list_accounts_request().url, "https://sandbox.plaid.com/accounts/get"),
        _ => panic!("expected Plaid"),
    }
    let mut s = none_set();
    s.plaid_client_id = some("c");
    s.plaid_secret = some("s");
    s.plaid_access_token = some("t");
    s.plaid_env = some("production");
    match init_backend(s, all_backends()) {
        Ok(Backend::Plaid(p)) => assert_eq!(p.list_accounts_request().url, "https://production.plaid.com/accounts/get"),
        _ => panic!("expected Plaid"),
    }
}

#[test]
fn mono_then_open_banking() {
    let mut s = none_set();
    s.plaid_client_id = some("c");
    s.mono_secret_key = some("k");
    s.mono_account_id = some("a");
    s.ob_base_url = some("https://b/");
    s.ob_token = some("t");
    assert!(matches!(init_backend(s, all_backends()), Ok(Backend::Mono(_))));
    let mut s = none_set();
    s.mono_secret_key = some("k");
    s.ob_base_url = some("https://b/");
    s.ob_token = some("t");
    match init_backend(s, all_backends()) {
        Ok(Backend::OpenBanking(o)) => assert_eq!(o.list_accounts_request().url, "https://b/accounts"),
        _ => panic!("expected Open Banking"),
    }
}

#[test]
fn nothing_configured() {
    match init_backend(none_set(), all_backends()) {
        Err(e) => assert_eq!(
            e.message(),
            "No banking backend configured. Set one of: PLAID_CLIENT_ID+PLAID_SECRET+PLAID_ACCESS_TOKEN, MONO_SECRET_KEY+MONO_ACCOUNT_ID, OB_BASE_URL+OB_TOKEN"
        ),
        Ok(_) => panic!("expected an error"),
    }
}

#[test]
fn manifest_errors_stop_the_start() {
    assert!(check_manifest(0).is_ok());
    match check_manifest(3) {
        Err(e) => {
            assert!(matches!(e, ConfigError::InvalidManifest(3)));
            assert_eq!(e.message(), "invalid mcp-server.toml (3 error(s))");
        },
        Ok(()) => panic!("expected an error"),
    }
}

#[test]
fn disabled_backends_are_never_chosen() {
    let ob_only = || {
        let mut s = none_set();
        s.ob_base_url = some("https://api.bank.com/ob");
        s.ob_token = some("t");
        s
    };
    assert!(matches!(init_backend(ob_only(), default_backends()), Err(ConfigError::NoBackend)));
    assert!(matches!(init_backend(ob_only(), all_backends()), Ok(Backend::OpenBanking(_))));
    let mut s = none_set();
    s.plaid_client_id = some("c");
    s.plaid_secret = some("s");
    s.plaid_access_token = some("t");
    s.mono_secret_key = some("k");
    s.mono_account_id = some("a");
    let no_plaid = Enabled { plaid: false, mono: true, open_banking: false };
    assert!(matches!(init_backend(s, no_plaid), Ok(Backend::Mono(_))));
}
