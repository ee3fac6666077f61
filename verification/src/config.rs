//! Which backend the server runs with, chosen from its settings.
use vstd::prelude::*;
use vstd::string::*;
use crate::json::text_view;
use crate::mono::{MonoBackend, MonoView};
use crate::open_banking::{OpenBankingBackend, OpenBankingView};
use crate::plaid::{PlaidBackend, PlaidView, plaid_base_url};
use crate::text::{decimal, decimal_text, without_trailing_slashes};

verus! {

/// The settings that choose a backend: each is present when its variable is
/// set.
#[derive(Debug)]
pub struct Settings {
    pub plaid_client_id: Option<String>,
    pub plaid_secret: Option<String>,
    pub plaid_access_token: Option<String>,
    pub plaid_env: Option<String>,
    pub mono_secret_key: Option<String>,
    pub mono_account_id: Option<String>,
    pub ob_base_url: Option<String>,
    pub ob_token: Option<String>,
}

/// The backends that a build offers (its features `plaid`, `mono` and
/// `open-banking`).
#[derive(Debug, Clone, Copy)]
pub struct Enabled {
    pub plaid: bool,
    pub mono: bool,
    pub open_banking: bool,
}

/// The default build: Plaid and Mono.
pub fn default_backends() -> (r: Enabled)
    ensures
        r == (Enabled { plaid: true, mono: true, open_banking: false }),
{
    Enabled { plaid: true, mono: true, open_banking: false }
}

/// The build with every backend.
pub fn all_backends() -> (r: Enabled)
    ensures
        r == (Enabled { plaid: true, mono: true, open_banking: true }),
{
    Enabled { plaid: true, mono: true, open_banking: true }
}

/// The backend the server runs with.
pub enum Backend {
    Plaid(PlaidBackend),
    Mono(MonoBackend),
    OpenBanking(OpenBankingBackend),
}

/// Why the server cannot start.
#[derive(Debug)]
pub enum ConfigError {
    /// No backend has all of its settings.
    NoBackend,
    /// The manifest has errors; how many.
    InvalidManifest(u64),
}

pub open spec fn config_message(e: ConfigError) -> Seq<char> {
    match e {
        ConfigError::NoBackend => "No banking backend configured. Set one of: PLAID_CLIENT_ID+PLAID_SECRET+PLAID_ACCESS_TOKEN, MONO_SECRET_KEY+MONO_ACCOUNT_ID, OB_BASE_URL+OB_TOKEN"@,
        ConfigError::InvalidManifest(n) => "invalid mcp-server.toml ("@ + decimal(n as nat) + " error(s))"@,
    }
}

impl ConfigError {
    /// The message the error is shown with.
    pub fn message(&self) -> (r: String)
        ensures
            r@ == config_message(*self),
    {
        match self {
            ConfigError::NoBackend => "No banking backend configured. Set one of: PLAID_CLIENT_ID+PLAID_SECRET+PLAID_ACCESS_TOKEN, MONO_SECRET_KEY+MONO_ACCOUNT_ID, OB_BASE_URL+OB_TOKEN".to_owned(),
            ConfigError::InvalidManifest(n) => {
                let mut r = "invalid mcp-server.toml (".to_owned();
                r.append(decimal_text(*n).as_str());
                r.append(" error(s))");
                r
            },
        }
    }
}

/// The backend that a build with `enabled` picks for the settings: the
/// first enabled one, in the order Plaid, Mono, Open Banking, whose settings
/// are all given (Plaid in the environment that `PLAID_ENV` names, the
/// sandbox when it is unset); an error when there is none.
pub open spec fn chosen(s: Settings, enabled: Enabled, b: Result<Backend, ConfigError>) -> bool {
    if enabled.plaid && s.plaid_client_id is Some && s.plaid_secret is Some && s.plaid_access_token is Some {
        b matches Ok(Backend::Plaid(p)) && p@ == (PlaidView {
            base_url: plaid_base_url(match s.plaid_env {
                Some(e) => e@,
                None => "sandbox"@,
            }),
            client_id: s.plaid_client_id.unwrap()@,
            secret: s.plaid_secret.unwrap()@,
            access_token: s.plaid_access_token.unwrap()@,
        })
    } else if enabled.mono && s.mono_secret_key is Some && s.mono_account_id is Some {
        b matches Ok(Backend::Mono(m)) && m@ == (MonoView {
            secret_key: s.mono_secret_key.unwrap()@,
            account_id: s.mono_account_id.unwrap()@,
        })
    } else if enabled.open_banking && s.ob_base_url is Some && s.ob_token is Some {
        b matches Ok(Backend::OpenBanking(o)) && o@ == (OpenBankingView {
            base_url: without_trailing_slashes(s.ob_base_url.unwrap()@),
            token: s.ob_token.unwrap()@,
        })
    } else {
        b matches Err(ConfigError::NoBackend)
    }
}

/// The backend that the settings choose.
pub fn init_backend(settings: Settings, enabled: Enabled) -> (r: Result<Backend, ConfigError>)
    ensures
        chosen(settings, enabled, r),
{
    let Settings {
        plaid_client_id,
        plaid_secret,
        plaid_access_token,
        plaid_env,
        mono_secret_key,
        mono_account_id,
        ob_base_url,
        ob_token,
    } = settings;
    match (plaid_client_id, plaid_secret, plaid_access_token) {
        (Some(client_id), Some(secret), Some(access_token)) if enabled.plaid => {
            let env = match plaid_env {
                Some(e) => e,
                None => "sandbox".to_owned(),
            };
            return Ok(Backend::Plaid(PlaidBackend::new(client_id, secret, access_token, env.as_str())));
        },
        _ => {},
    }
    match (mono_secret_key, mono_account_id) {
        (Some(key), Some(account)) if enabled.mono => {
            return Ok(Backend::Mono(MonoBackend::new(key, account)));
        },
        _ => {},
    }
    match (ob_base_url, ob_token) {
        (Some(base), Some(token)) if enabled.open_banking => Ok(Backend::OpenBanking(OpenBankingBackend::new(base, token))),
        _ => Err(ConfigError::NoBackend),
    }
}

/// The server starts only with a manifest without errors.
pub fn check_manifest(error_count: u64) -> (r: Result<(), ConfigError>)
    ensures
        error_count == 0 ==> r is Ok,
        error_count > 0 ==> (r matches Err(ConfigError::InvalidManifest(n)) && n == error_count),
{
    if error_count == 0 {
        Ok(())
    } else {
        Err(ConfigError::InvalidManifest(error_count))
    }
}

} // verus!
