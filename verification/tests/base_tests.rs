use swissknife::bolt11::invoice_from_bolt11;
use swissknife::config::{
    ca_as_end_entity_allowed, cln_websocket_tls_plan, LightningProvider, LndWebsocketListener, LogFormat,
    RGBController, TlsPlan, TracingLoggerConfig,
};
use swissknife::lnrpc::format_transport_error;
use swissknife::domain::{BtcNetwork, Currency, InvoiceStatus, Ledger};
use swissknife::network::parse_network;
use swissknife::lnd::PayResponse;
use swissknife::text::{contains_text, u64_to_decimal};
use swissknife::time::{utc_at_secs, utc_at_secs_or, UtcTime};

#[test]
fn network_names_ignore_case_and_default_to_mainnet() {
    assert_eq!(parse_network("bitcoin"), BtcNetwork::Bitcoin);
    assert_eq!(parse_network("MAINNET"), BtcNetwork::Bitcoin);
    assert_eq!(parse_network("testnet3"), BtcNetwork::Testnet);
    assert_eq!(parse_network("Testnet4"), BtcNetwork::Testnet4);
    assert_eq!(parse_network("regtest"), BtcNetwork::Regtest);
    assert_eq!(parse_network("simnet"), BtcNetwork::Simnet);
    assert_eq!(parse_network("signet"), BtcNetwork::Signet);
    assert_eq!(parse_network("unknown"), BtcNetwork::Bitcoin);
    assert_eq!(BtcNetwork::Testnet4.currency(), Currency::BitcoinTestnet);
}

#[test]
fn text_helpers() {
    assert_eq!(u64_to_decimal(0), "0");
    assert_eq!(u64_to_decimal(18_446_744_073_709_551_615), "18446744073709551615");
    assert!(contains_text("unable to find payment", "find"));
    assert!(contains_text("x", ""));
    assert!(!contains_text("ab", "abc"));
}

#[test]
fn time_range_matches_chrono() {
    assert_eq!(utc_at_secs(-8_334_601_228_800), Some(UtcTime { secs: -8_334_601_228_800, nanos: 0 }));
    assert_eq!(utc_at_secs(-8_334_601_228_801), None);
    assert_eq!(utc_at_secs(8_210_266_876_799), Some(UtcTime { secs: 8_210_266_876_799, nanos: 0 }));
    assert_eq!(utc_at_secs(8_210_266_876_800), None);
    let now = UtcTime { secs: 5, nanos: 6 };
    assert_eq!(utc_at_secs_or(i64::MAX, now), now);
    let before_epoch = PayResponse {
        payment_preimage: String::new(),
        payment_hash: String::new(),
        value_msat: 0,
        creation_time_ns: -1,
        fee_msat: 0,
        status: "SUCCEEDED".to_string(),
        failure_reason: String::new(),
    }
    .into_payment();
    assert_eq!(before_epoch.payment_time, Some(UtcTime { secs: -1, nanos: 999_999_999 }));
}

const INVOICE: &str = "lnbc25m1pvjluezpp5qqqsyqcyq5rqwzqfqqqsyqcyq5rqwzqfqqqsyqcyq5rqwzqfqypqdq5vdhkven9v5sxyetpdeessp5zyg3zyg3zyg3zyg3zyg3zyg3zyg3zyg3zyg3zyg3zyg3zyg3zygs9q5sqqqqqqqqqqqqqqqpqsq67gye39hfg3zd8rgc80k32tvy9xk2xunwm5lzexnvpx6fd77en8qaq424dxgt56cag2dpt359k3ssyhetktkpqh24jqnjyw6uqd08sgptq44qu";

#[test]
fn bolt11_invoice_maps_onto_wallet_invoice() {
    let inv = invoice_from_bolt11(INVOICE).unwrap();
    assert_eq!(inv.ledger, Ledger::Lightning);
    assert_eq!(inv.currency, Currency::Bitcoin);
    assert_eq!(inv.amount_msat, Some(2_500_000_000));
    assert_eq!(inv.description, Some("coffee beans".to_string()));
    assert_eq!(inv.status, InvoiceStatus::Pending);
    assert_eq!(inv.timestamp, UtcTime { secs: 1_496_314_658, nanos: 0 });
    let ln = inv.ln_invoice.unwrap();
    assert_eq!(ln.payment_hash, "0001020304050607080900010203040506070809000102030405060708090102");
    assert_eq!(ln.payment_secret, "11".repeat(32));
    assert_eq!(ln.bolt11, INVOICE);
    assert_eq!(ln.expiry_secs, 3_600);
    assert_eq!(ln.expires_at, UtcTime { secs: 1_496_314_658 + 3_600, nanos: 0 });
    assert!(invoice_from_bolt11("lnbc1garbage").is_err());
}

fn logger(level: &str, filter: Option<&str>, format: &str) -> TracingLoggerConfig {
    TracingLoggerConfig {
        level: level.to_string(),
        thread_ids: false,
        thread_names: false,
        line_number: false,
        ansi: false,
        filter: filter.map(|f| f.to_string()),
        format: format.to_string(),
        file: false,
    }
}

#[test]
fn logger_directives() {
    assert_eq!(logger(" DEBUG ", None, "json").level_directive(), "debug");
    assert_eq!(logger("verbose", None, "json").level_directive(), "info");
    assert_eq!(logger("info", Some("  swissknife=trace "), "x").normalized_filter(), Some("swissknife=trace".to_string()));
    assert_eq!(logger("warn", Some("   "), "x").filter_directive(), "warn");
    assert_eq!(logger("warn", None, "compact").log_format(), LogFormat::Compact);
    assert_eq!(logger("warn", None, "other").log_format(), LogFormat::Full);
}

#[test]
fn provider_defaults_to_breez() {
    assert_eq!(LightningProvider::default(), LightningProvider::Breez);
    assert_eq!(LightningProvider::Cln.name(), "cln");
    assert_eq!(LightningProvider::from_name("cln"), Some(LightningProvider::Cln));
    assert_eq!(LightningProvider::from_name("lnd"), None);
    assert_eq!(RGBController::new(), RGBController {});
    assert_eq!(RGBController::index(), "Hello, World!");
}

fn lnd_config(ca: Option<&str>, invalid_certs: bool, invalid_hostnames: bool) -> swissknife::config::LndRestClientConfig {
    swissknife::config::LndRestClientConfig {
        host: "localhost:8080".to_string(),
        connect_timeout: 5_000,
        connection_verbose: false,
        timeout: 30_000,
        accept_invalid_certs: invalid_certs,
        accept_invalid_hostnames: invalid_hostnames,
        fee_limit_msat: 1_000,
        payment_timeout: 60_500,
        ws_min_reconnect_delay: 1_000,
        ws_max_reconnect_delay: 30_000,
        ca_cert_path: ca.map(|c| c.to_string()),
        macaroon_path: "admin.macaroon".to_string(),
    }
}

#[test]
fn websocket_tls_plans() {
    assert_eq!(lnd_config(None, false, false).websocket_tls_plan(), TlsPlan::Default);
    assert_eq!(
        lnd_config(Some("ca.pem"), false, true).websocket_tls_plan(),
        TlsPlan::Custom { ca_cert_path: Some("ca.pem".to_string()), accept_invalid_certs: false, accept_invalid_hostnames: true }
    );
    assert_eq!(lnd_config(None, false, false).retry_for(), 60);
    let (read, plan) = cln_websocket_tls_plan(Some("ca.pem".to_string()), true, true);
    assert_eq!(read, Some("ca.pem".to_string()));
    assert_eq!(plan, TlsPlan::Custom { ca_cert_path: None, accept_invalid_certs: true, accept_invalid_hostnames: false });
    assert!(ca_as_end_entity_allowed("invalid peer certificate: Other(CaUsedAsEndEntity)"));
    assert!(!ca_as_end_entity_allowed("invalid peer certificate: Expired"));
}

#[test]
fn transport_errors_join_their_sources() {
    let messages = vec!["transport error".to_string(), "connection refused".to_string(), "os error 111".to_string()];
    assert_eq!(format_transport_error(&messages), "transport error: connection refused: os error 111");
    assert_eq!(format_transport_error(&vec!["only".to_string()]), "only");
    assert_eq!(format_transport_error(&vec![]), "");
}

#[test]
fn lnd_websocket_listener_reads_its_macaroon() {
    let listener = LndWebsocketListener::new(lnd_config(None, false, false), vec![0x02, 0x0a]).unwrap();
    assert_eq!(listener.macaroon, "020a");
    assert!(matches!(
        LndWebsocketListener::new(lnd_config(None, false, false), b"***".to_vec()),
        Err(swissknife::domain::LightningError::ParseConfig(_))
    ));
}

#[test]
fn ascii_case_never_changes_network_or_level() {
    for name in ["bitcoin", "Testnet4", "REGTEST", "sigNet", "other"] {
        assert_eq!(parse_network(&name.to_ascii_uppercase()), parse_network(name));
        assert_eq!(parse_network(&name.to_ascii_lowercase()), parse_network(name));
    }
    for level in ["Debug", "TRACE", " warn ", "nope"] {
        assert_eq!(
            logger(&level.to_ascii_uppercase(), None, "json").level_directive(),
            logger(level, None, "json").level_directive()
        );
    }
}
