//! Settings of the node providers and of the logger, with the verified
//! decisions taken on them.
use vstd::prelude::*;

use crate::breez::{normalized_setting, normalized_text};
use crate::domain::LightningError;
use crate::lnd::{macaroon_bytes, macaroon_hex};
use crate::text::{
    ascii_lower, ascii_upper, contains_text, hex_lower, lemma_ascii_case_folds, lowercase, opt_text, str_eq,
    text_contains, to_lowercase, trim, trimmed,
};

verus! {

/// The Lightning node provider the wallet runs with.
#[derive(Clone, Copy, Debug, PartialEq, Eq, Structural)]
pub enum LightningProvider {
    Breez,
    Cln,
}

impl Default for LightningProvider {
    /// Breez, when no provider is configured.
    fn default() -> (r: Self)
        ensures
            r == LightningProvider::Breez,
    {
        LightningProvider::Breez
    }
}

/// The lower-case name of a provider.
pub open spec fn provider_name(p: LightningProvider) -> Seq<char> {
    match p {
        LightningProvider::Breez => "breez"@,
        LightningProvider::Cln => "cln"@,
    }
}

impl LightningProvider {
    /// The provider's name, as the configuration writes it.
    pub fn name(self) -> (r: &'static str)
        ensures
            r@ == provider_name(self),
    {
        match self {
            LightningProvider::Breez => "breez",
            LightningProvider::Cln => "cln",
        }
    }

    /// The provider a configured name stands for (exact lower-case names).
    pub fn from_name(s: &str) -> (r: Option<Self>)
        ensures
            r matches Some(p) ==> provider_name(p) == s@,
            r is None ==> s@ != "breez"@ && s@ != "cln"@,
    {
        if str_eq(s, "breez") {
            Some(LightningProvider::Breez)
        } else if str_eq(s, "cln") {
            Some(LightningProvider::Cln)
        } else {
            None
        }
    }
}

/// Settings of the LND gRPC client; durations in milliseconds.
#[derive(Clone, Debug, PartialEq, Eq)]
pub struct LndGrpcClientConfig {
    pub endpoint: String,
    pub cert_path: String,
    pub macaroon_path: String,
    pub fee_limit_msat: u64,
    pub payment_timeout: u64,
    pub retry_delay: u64,
    pub reorg_buffer_blocks: u32,
}

/// Settings of the LND REST client; durations in milliseconds.
#[derive(Clone, Debug, PartialEq, Eq)]
pub struct LndRestClientConfig {
    pub host: String,
    pub connect_timeout: u64,
    pub connection_verbose: bool,
    pub timeout: u64,
    pub accept_invalid_certs: bool,
    pub accept_invalid_hostnames: bool,
    pub fee_limit_msat: u64,
    pub payment_timeout: u64,
    pub ws_min_reconnect_delay: u64,
    pub ws_max_reconnect_delay: u64,
    pub ca_cert_path: Option<String>,
    pub macaroon_path: String,
}

impl LndRestClientConfig {
    /// The payment timeout in whole seconds, as the router's `timeout_seconds`
    /// takes it (truncated to 32 bits).
    pub fn retry_for(&self) -> (r: u32)
        ensures
            r == (self.payment_timeout / 1000) as u32,
    {
        (self.payment_timeout / 1000) as u32
    }
}

/// The LND websocket listener: its settings and the hex macaroon its
/// subscriptions carry.
#[derive(Clone, Debug, PartialEq, Eq)]
pub struct LndWebsocketListener {
    pub config: LndRestClientConfig,
    pub macaroon: String,
}

impl LndWebsocketListener {
    /// The listener for `config`, given the contents of its macaroon file;
    /// `ParseConfig` when the file holds no macaroon.
    pub fn new(config: LndRestClientConfig, macaroon_file: Vec<u8>) -> (r: Result<Self, LightningError>)
        ensures
            match macaroon_bytes(macaroon_file@) {
                Some(b) => r matches Ok(l) && l.config == config && l.macaroon@ == hex_lower(b),
                None => r matches Err(e) && e is ParseConfig,
            },
    {
        match macaroon_hex(macaroon_file) {
            Ok(macaroon) => Ok(LndWebsocketListener { config, macaroon }),
            Err(e) => Err(LightningError::ParseConfig(e)),
        }
    }
}

/// Settings of the RGB wallet.
#[derive(Clone, Debug, PartialEq, Eq)]
pub struct RGBLibClientConfig {
    pub data_dir: String,
    pub mnemonic: String,
    pub electrum_url: String,
    pub media_dir: String,
    pub min_confirmations: u8,
    pub proxy_server_url: String,
}

/// The HTTP controller of the RGB API.
#[derive(Clone, Copy, Debug, PartialEq, Eq, Structural)]
pub struct RGBController {}

impl RGBController {
    /// The controller.
    pub fn new() -> (r: Self)
        ensures
            r == (RGBController {}),
    {
        RGBController {}
    }

    /// The body its index route answers with.
    pub fn index() -> (r: &'static str)
        ensures
            r@ == "Hello, World!"@,
    {
        "Hello, World!"
    }
}

/// A task that listens to a node's events until it fails.
pub trait EventsListener {
    /// Listens until the connection ends; the error says why.
    fn listen(&self) -> Result<(), LightningError>;
}

/// How log lines are written.
#[derive(Clone, Copy, Debug, PartialEq, Eq, Structural)]
pub enum LogFormat {
    Json,
    Compact,
    Pretty,
    Full,
}

/// Settings of the logger.
#[derive(Clone, Debug, PartialEq, Eq)]
pub struct TracingLoggerConfig {
    pub level: String,
    pub thread_ids: bool,
    pub thread_names: bool,
    pub line_number: bool,
    pub ansi: bool,
    pub filter: Option<String>,
    pub format: String,
    pub file: bool,
}

/// The level directive a configured level (any case, trimmed) stands for;
/// unknown levels are `info`.
pub open spec fn level_of(s: Seq<char>) -> Seq<char> {
    if s == "trace"@ {
        "trace"@
    } else if s == "debug"@ {
        "debug"@
    } else if s == "warn"@ {
        "warn"@
    } else if s == "error"@ {
        "error"@
    } else if s == "off"@ {
        "off"@
    } else {
        "info"@
    }
}

/// The ASCII case of a configured level never changes its directive: the
/// level with its letters made capital, or made small, is ASCII too and gives
/// the same directive.
pub proof fn lemma_level_ignores_ascii_case(level: Seq<char>)
    requires
        vstd::utf8::is_ascii_chars(level),
    ensures
        vstd::utf8::is_ascii_chars(ascii_upper(level)),
        vstd::utf8::is_ascii_chars(ascii_lower(level)),
        level_of(trimmed(ascii_lower(ascii_upper(level)))) == level_of(trimmed(ascii_lower(level))),
        level_of(trimmed(ascii_lower(ascii_lower(level)))) == level_of(trimmed(ascii_lower(level))),
{
    lemma_ascii_case_folds(level);
}

impl TracingLoggerConfig {
    /// The level directive of the configured level.
    pub fn level_directive(&self) -> (r: &'static str)
        ensures
            r@ == level_of(trimmed(lowercase(self.level@))),
            vstd::utf8::is_ascii_chars(self.level@) ==> r@ == level_of(trimmed(ascii_lower(self.level@))),
    {
        let lower = to_lowercase(self.level.as_str());
        let l = trim(lower.as_str());
        if str_eq(l, "trace") {
            "trace"
        } else if str_eq(l, "debug") {
            "debug"
        } else if str_eq(l, "warn") {
            "warn"
        } else if str_eq(l, "error") {
            "error"
        } else if str_eq(l, "off") {
            "off"
        } else {
            "info"
        }
    }

    /// The configured filter, trimmed; none when absent or blank.
    pub fn normalized_filter(&self) -> (r: Option<String>)
        ensures
            opt_text(r) == normalized_text(opt_text(self.filter)),
    {
        let v = match &self.filter {
            Some(f) => Some(f.as_str()),
            None => None,
        };
        normalized_setting(v)
    }

    /// The directive the logger filters by: the configured filter when there
    /// is one, else the level directive.
    pub fn filter_directive(&self) -> (r: String)
        ensures
            r@ == match normalized_text(opt_text(self.filter)) {
                Some(f) => f,
                None => level_of(trimmed(lowercase(self.level@))),
            },
    {
        match self.normalized_filter() {
            Some(f) => f,
            None => self.level_directive().to_string(),
        }
    }

    /// The format of log lines: `json`, `compact` or `pretty`, anything else
    /// the full format.
    pub fn log_format(&self) -> (r: LogFormat)
        ensures
            r == (if self.format@ == "json"@ {
                LogFormat::Json
            } else if self.format@ == "compact"@ {
                LogFormat::Compact
            } else if self.format@ == "pretty"@ {
                LogFormat::Pretty
            } else {
                LogFormat::Full
            }),
    {
        if str_eq(self.format.as_str(), "json") {
            LogFormat::Json
        } else if str_eq(self.format.as_str(), "compact") {
            LogFormat::Compact
        } else if str_eq(self.format.as_str(), "pretty") {
            LogFormat::Pretty
        } else {
            LogFormat::Full
        }
    }
}


/// How a websocket connection sets up TLS: the platform defaults, or a
/// connector with an extra root certificate (read from a file) and relaxed
/// checks.
#[derive(Clone, Debug, PartialEq, Eq)]
pub enum TlsPlan {
    Default,
    Custom { ca_cert_path: Option<String>, accept_invalid_certs: bool, accept_invalid_hostnames: bool },
}

impl LndRestClientConfig {
    /// The TLS set-up of the LND websocket subscriptions: a custom connector
    /// when a CA certificate is configured or a check is relaxed, else the
    /// defaults.
    pub fn websocket_tls_plan(&self) -> (r: TlsPlan)
        ensures
            r == (if self.ca_cert_path is Some || self.accept_invalid_certs
                || self.accept_invalid_hostnames {
                TlsPlan::Custom {
                    ca_cert_path: self.ca_cert_path,
                    accept_invalid_certs: self.accept_invalid_certs,
                    accept_invalid_hostnames: self.accept_invalid_hostnames,
                }
            } else {
                TlsPlan::Default
            }),
    {
        if self.ca_cert_path.is_some() || self.accept_invalid_certs || self.accept_invalid_hostnames {
            TlsPlan::Custom {
                ca_cert_path: self.ca_cert_path.clone(),
                accept_invalid_certs: self.accept_invalid_certs,
                accept_invalid_hostnames: self.accept_invalid_hostnames,
            }
        } else {
            TlsPlan::Default
        }
    }
}

/// The TLS set-up of the Core Lightning websocket: the CA certificate, when
/// configured, is read (its errors surface) and trusted with the hostname
/// check as configured; accepting invalid certificates replaces that
/// connector by one that accepts any certificate and checks hostnames.
pub fn cln_websocket_tls_plan(ca_cert_path: Option<String>, accept_invalid_certs: bool, accept_invalid_hostnames: bool) -> (r: (Option<String>, TlsPlan))
    ensures
        r.0 == ca_cert_path,
        r.1 == (if accept_invalid_certs {
            TlsPlan::Custom { ca_cert_path: None, accept_invalid_certs: true, accept_invalid_hostnames: false }
        } else if ca_cert_path is Some {
            TlsPlan::Custom { ca_cert_path, accept_invalid_certs: false, accept_invalid_hostnames }
        } else {
            TlsPlan::Default
        }),
{
    let plan = if accept_invalid_certs {
        TlsPlan::Custom { ca_cert_path: None, accept_invalid_certs: true, accept_invalid_hostnames: false }
    } else if ca_cert_path.is_some() {
        TlsPlan::Custom { ca_cert_path: ca_cert_path.clone(), accept_invalid_certs: false, accept_invalid_hostnames }
    } else {
        TlsPlan::Default
    };
    (ca_cert_path, plan)
}

/// Whether a certificate check failure is the one LND's self-signed
/// certificates cause (a CA used as the end entity), which the gRPC client
/// accepts.
pub fn ca_as_end_entity_allowed(reason: &str) -> (r: bool)
    ensures
        r == text_contains(reason@, "CaUsedAsEndEntity"@),
{
    contains_text(reason, "CaUsedAsEndEntity")
}

} // verus!
