use swissknife::breez::{msat_from_sat, normalized_setting, parse_bip21_address, sat_amount, BreezAction, BreezListener};
use swissknife::breez_core::{
    BreezEvent, BreezPayment, BreezPaymentDetails, BreezPaymentStatus, BreezPaymentType,
};
use swissknife::breez_liquid::{
    liquid_networks, liquid_sync_batch, liquid_sync_offset, liquid_transaction, payer_note, LiquidEvent,
    LiquidPayment, LiquidPaymentDetails, LiquidPaymentState, LiquidPaymentType,
};
use swissknife::breez_spark::{
    is_onchain_payment, spark_networks, spark_pay_amount, spark_prepared_transaction, to_bitcoin_failure_event,
    to_deposit_event, to_withdrawal_event, SparkEvent, SparkHtlcDetails, SparkNetwork, SparkPayment,
    SparkPaymentDetails, SparkPaymentMethod, SparkPaymentStatus, SparkPaymentType,
};
use swissknife::domain::{
    BtcNetwork, BtcOutputStatus, Currency, Ledger, LightningError, OnchainSyncCursor, OnchainTransaction,
    PaymentStatus,
};
use swissknife::time::UtcTime;

#[test]
fn bip21_destinations_give_plain_addresses() {
    assert_eq!(parse_bip21_address("bitcoin:bc1pxyz?amount=0.001&label=x"), "bc1pxyz");
    assert_eq!(parse_bip21_address("BITCOIN:BC1QABC"), "BC1QABC");
    assert_eq!(parse_bip21_address("bc1qplain"), "bc1qplain");
    assert_eq!(parse_bip21_address("bc1q?x"), "bc1q?x");
    assert_eq!(parse_bip21_address("bitcoin:bc1q?x"), "bc1q");
    assert_eq!(parse_bip21_address(""), "");
}

#[test]
fn amounts_convert_between_units() {
    assert_eq!(sat_amount(0), 1);
    assert_eq!(sat_amount(999), 1);
    assert_eq!(sat_amount(2_500), 2);
    assert_eq!(msat_from_sat(21), 21_000);
    assert_eq!(msat_from_sat(u64::MAX), u64::MAX);
    assert_eq!(spark_pay_amount(Some(1_500)), Some(1));
    assert_eq!(spark_pay_amount(None), None);
}

#[test]
fn settings_are_trimmed_and_blank_ones_dropped() {
    assert_eq!(normalized_setting(Some("  wss://x  ")), Some("wss://x".to_string()));
    assert_eq!(normalized_setting(Some("   ")), None);
    assert_eq!(normalized_setting(None), None);
}

#[test]
fn networks_of_each_sdk() {
    assert_eq!(spark_networks("MainNet"), Ok((SparkNetwork::Mainnet, BtcNetwork::Bitcoin)));
    assert_eq!(spark_networks("regtest"), Ok((SparkNetwork::Regtest, BtcNetwork::Regtest)));
    assert_eq!(
        spark_networks("signet"),
        Err(LightningError::ParseConfig(
            "Invalid network. Spark supports 'bitcoin' (mainnet) and 'regtest' only.".to_string()
        ))
    );
    assert!(liquid_networks("Testnet").is_ok());
    assert_eq!(liquid_networks("mainnet"), Err(LightningError::ParseConfig("Invalid network".to_string())));
}

fn spark_payment(method: SparkPaymentMethod, status: SparkPaymentStatus, details: Option<SparkPaymentDetails>) -> SparkPayment {
    SparkPayment {
        id: "id".to_string(),
        payment_type: SparkPaymentType::Receive,
        status,
        amount: 1_234,
        fees: 5,
        timestamp: 1_700_000_000,
        method,
        details,
    }
}

fn lightning_details() -> Option<SparkPaymentDetails> {
    Some(SparkPaymentDetails::Lightning {
        description: Some("tea".to_string()),
        htlc_details: SparkHtlcDetails { payment_hash: "ph".to_string(), preimage: Some("pi".to_string()) },
        lnurl_pay_info: None,
        lnurl_receive_metadata: Some("{\"k\":1}".to_string()),
    })
}

#[test]
fn spark_payment_maps_to_wallet_payment() {
    let now = UtcTime { secs: 1, nanos: 0 };
    let p = spark_payment(SparkPaymentMethod::Lightning, SparkPaymentStatus::Completed, lightning_details());
    let w = p.payment_at(now);
    assert_eq!(w.ledger, Ledger::Lightning);
    assert_eq!(w.status, PaymentStatus::Settled);
    assert_eq!(w.amount_msat, 1_234_000);
    assert_eq!(w.fee_msat, Some(5_000));
    assert_eq!(w.payment_time, Some(UtcTime { secs: 1_700_000_000, nanos: 0 }));
    assert_eq!(w.description, Some("tea".to_string()));
    let ln = w.lightning.unwrap();
    assert_eq!(ln.payment_hash, "ph");
    assert_eq!(ln.payment_preimage, Some("pi".to_string()));
    assert_eq!(ln.metadata, Some("{\"k\":1}".to_string()));

    let failed = spark_payment(SparkPaymentMethod::Withdraw, SparkPaymentStatus::Failed, None).payment_at(now);
    assert_eq!(failed.ledger, Ledger::Onchain);
    assert_eq!(failed.error, Some("Payment failed".to_string()));
    assert!(failed.lightning.is_none());
}

#[test]
fn spark_onchain_events() {
    let deposit = spark_payment(
        SparkPaymentMethod::Deposit,
        SparkPaymentStatus::Completed,
        Some(SparkPaymentDetails::Deposit { tx_id: "dtx".to_string() }),
    );
    assert!(is_onchain_payment(&deposit.method));
    let d = to_deposit_event(&deposit).unwrap();
    assert_eq!(d.txid, "dtx");
    assert_eq!(d.amount_sat, 1_234);
    assert_eq!(d.block_height, Some(1));
    assert!(to_withdrawal_event(&deposit).is_none());
    let pending = spark_payment(
        SparkPaymentMethod::Withdraw,
        SparkPaymentStatus::Pending,
        Some(SparkPaymentDetails::Withdraw { tx_id: "wtx".to_string() }),
    );
    assert_eq!(to_withdrawal_event(&pending).unwrap().block_height, None);
    let failure = to_bitcoin_failure_event(&pending).unwrap();
    assert_eq!(failure.reason, "Bitcoin operation failed with status: Pending");
    assert_eq!(failure.payment_hash, "wtx");
}

#[test]
fn spark_listener_actions() {
    let listener = BreezListener::new(BtcNetwork::Regtest);
    assert_eq!(listener.currency, Currency::Regtest);
    let now = UtcTime { secs: 0, nanos: 0 };
    let mut received = spark_payment(SparkPaymentMethod::Lightning, SparkPaymentStatus::Completed, lightning_details());
    match listener.spark_action_at(&SparkEvent::PaymentSucceeded(received.clone()), now) {
        Some(BreezAction::InvoicePaid(e)) => {
            assert_eq!(e.payment_hash, "ph");
            assert_eq!(e.amount_received_msat, 1_234_000);
        }
        other => panic!("unexpected {other:?}"),
    }
    received.payment_type = SparkPaymentType::Send;
    assert!(matches!(
        listener.spark_action_at(&SparkEvent::PaymentSucceeded(received.clone()), now),
        Some(BreezAction::OutgoingPayment(e)) if e.payment_preimage == "pi"
    ));
    match listener.spark_action_at(&SparkEvent::PaymentFailed(received.clone()), now) {
        Some(BreezAction::FailedPayment(f)) => assert_eq!(f.reason, "Payment failed with status: Completed"),
        other => panic!("unexpected {other:?}"),
    }
    let deposit = spark_payment(
        SparkPaymentMethod::Deposit,
        SparkPaymentStatus::Completed,
        Some(SparkPaymentDetails::Deposit { tx_id: "dtx".to_string() }),
    );
    assert!(matches!(
        listener.spark_action_at(&SparkEvent::PaymentSucceeded(deposit), now),
        Some(BreezAction::OnchainDeposit(_, Currency::Regtest))
    ));
    assert_eq!(listener.spark_action_at(&SparkEvent::Synced, now), None);
}

#[test]
fn spark_prepared_withdrawal() {
    let p = spark_prepared_transaction("key".to_string(), 1_100, 1_000);
    assert_eq!(p.txid, "breez-withdraw-key");
    assert_eq!(p.fee_sat, 100);
    assert_eq!(p.psbt, "key");
    assert_eq!(spark_prepared_transaction("k".to_string(), 900, 1_000).fee_sat, 0);
}

fn swap(payment_type: LiquidPaymentType, status: LiquidPaymentState, tx_id: Option<&str>, lockup: Option<&str>) -> LiquidPayment {
    LiquidPayment {
        tx_id: tx_id.map(|s| s.to_string()),
        timestamp: 1_000,
        amount_sat: 20_000,
        fees_sat: 10,
        payment_type,
        status,
        details: LiquidPaymentDetails::Bitcoin {
            description: "swap".to_string(),
            lockup_tx_id: lockup.map(|s| s.to_string()),
            claim_tx_id: None,
            refund_tx_id: None,
            bitcoin_address: "bcrt1qswap".to_string(),
        },
    }
}

#[test]
fn liquid_sync_batch_and_cursor() {
    let payments = vec![
        swap(LiquidPaymentType::Receive, LiquidPaymentState::Complete, None, Some("lock")),
        swap(LiquidPaymentType::Send, LiquidPaymentState::Pending, Some("own"), None),
        swap(LiquidPaymentType::Receive, LiquidPaymentState::Pending, None, None),
    ];
    let batch = liquid_sync_batch(&payments, 10);
    assert_eq!(batch.events.len(), 2);
    match &batch.events[0] {
        OnchainTransaction::Deposit(b) => {
            assert_eq!(b.txid, "lock");
            assert_eq!(b.outpoint, "lock:0");
            assert_eq!(b.status, BtcOutputStatus::Confirmed);
        }
        other => panic!("unexpected {other:?}"),
    }
    assert!(matches!(&batch.events[1], OnchainTransaction::Withdrawal(w) if w.txid == "own"));
    assert_eq!(batch.next_cursor, Some(OnchainSyncCursor::CreatedIndex(13)));
    assert_eq!(liquid_sync_batch(&vec![], 10).next_cursor, None);
    assert_eq!(liquid_sync_offset(Some(OnchainSyncCursor::CreatedIndex(13))), 13);
}

#[test]
fn liquid_transaction_lookup() {
    let payments = vec![
        swap(LiquidPaymentType::Send, LiquidPaymentState::Complete, None, Some("lock")),
    ];
    let tx = liquid_transaction(&payments, "lock").unwrap();
    assert_eq!(tx.txid, "lock");
    assert!(tx.is_outgoing);
    assert_eq!(tx.outputs[0].address, "bcrt1qswap");
    assert!(!tx.outputs[0].is_ours);
    assert!(liquid_transaction(&payments, "other").is_none());
    assert_eq!(payer_note(String::new()), None);
    assert_eq!(payer_note("l".to_string()), Some("l".to_string()));
}

#[test]
fn liquid_listener_failure_events() {
    let listener = BreezListener::new(BtcNetwork::Bitcoin);
    let now = UtcTime { secs: 0, nanos: 0 };
    let failed = swap(LiquidPaymentType::Send, LiquidPaymentState::Failed, Some("ftx"), None);
    match listener.liquid_action_at(&LiquidEvent::PaymentFailed(failed), now) {
        Some(BreezAction::FailedPayment(f)) => {
            assert_eq!(f.payment_hash, "ftx");
            assert_eq!(f.reason, "Bitcoin operation failed with status: Failed");
        }
        other => panic!("unexpected {other:?}"),
    }
    assert_eq!(listener.liquid_action_at(&LiquidEvent::Synced, now), None);
}

fn core_payment(status: BreezPaymentStatus, payment_type: BreezPaymentType) -> BreezPayment {
    BreezPayment {
        id: "hash".to_string(),
        payment_type,
        payment_time: 1_650_000_000,
        amount_msat: 3_000,
        fee_msat: 2,
        status,
        error: None,
        description: Some("d".to_string()),
        details: BreezPaymentDetails::Ln { payment_preimage: "pre".to_string() },
        metadata: None,
    }
}

#[test]
fn core_listener_checks_status_and_direction() {
    let listener = BreezListener::new(BtcNetwork::Bitcoin);
    let paid = BreezEvent::InvoicePaid {
        payment_hash: "hash".to_string(),
        bolt11: String::new(),
        payment: Some(core_payment(BreezPaymentStatus::Complete, BreezPaymentType::Received)),
    };
    match listener.on_breez_event(&paid) {
        Some(BreezAction::InvoicePaid(e)) => {
            assert_eq!(e.payment_hash, "hash");
            assert_eq!(e.payment_time, UtcTime { secs: 1_650_000_000, nanos: 0 });
        }
        other => panic!("unexpected {other:?}"),
    }
    let pending = BreezEvent::InvoicePaid {
        payment_hash: "hash".to_string(),
        bolt11: String::new(),
        payment: Some(core_payment(BreezPaymentStatus::Pending, BreezPaymentType::Received)),
    };
    assert_eq!(listener.on_breez_event(&pending), None);
    let wrong_direction = BreezEvent::PaymentSucceed(core_payment(BreezPaymentStatus::Complete, BreezPaymentType::Received));
    assert_eq!(listener.on_breez_event(&wrong_direction), None);
    let sent = BreezEvent::PaymentSucceed(core_payment(BreezPaymentStatus::Complete, BreezPaymentType::Sent));
    assert!(matches!(listener.on_breez_event(&sent), Some(BreezAction::OutgoingPayment(e)) if e.payment_preimage == "pre"));
    let looked_up = core_payment(BreezPaymentStatus::Failed, BreezPaymentType::Sent).into_looked_up_payment();
    assert_eq!(looked_up.status, PaymentStatus::Failed);
}

#[test]
fn core_listener_ignores_unmapped_events_whatever_their_time() {
    let listener = BreezListener::new(BtcNetwork::Bitcoin);
    let mut pending = core_payment(BreezPaymentStatus::Pending, BreezPaymentType::Received);
    pending.payment_time = i64::MAX;
    let paid = BreezEvent::InvoicePaid { payment_hash: "hash".to_string(), bolt11: String::new(), payment: Some(pending) };
    assert_eq!(listener.on_breez_event(&paid), None);
    let mut received = core_payment(BreezPaymentStatus::Complete, BreezPaymentType::Received);
    received.payment_time = i64::MAX;
    assert_eq!(listener.on_breez_event(&BreezEvent::PaymentSucceed(received)), None);
}

#[test]
fn liquid_offers_no_direct_address() {
    assert_eq!(
        swissknife::breez_liquid::liquid_new_address(swissknife::domain::BtcAddressType::P2wpkh),
        Err(swissknife::domain::BitcoinError::Unsupported(
            "Breez Liquid does not expose a direct Bitcoin deposit address API".to_string()
        ))
    );
}

#[test]
fn liquid_prepared_payment_holds_the_swap_request() {
    let p = swissknife::breez_liquid::liquid_prepared_transaction(5_000, 120, "{\"address\":\"bc1q\"}".to_string());
    assert_eq!(p.txid, "breez-onchain-5000");
    assert_eq!(p.fee_sat, 120);
    assert_eq!(p.psbt, "{\"address\":\"bc1q\"}");
    assert_eq!(p.raw_tx, None);
    assert!(p.locked_utxos.is_empty());
}
