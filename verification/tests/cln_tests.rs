
use swissknife::cln_grpc::{Amount, XpayResponse as GrpcXpayResponse};
use swissknife::cln_rest::{
    cln_new_addr_request, cln_sync_batch, cln_tx_prepare_request, payment_from_pays, ListChainMove,
    ListFundsOutput, ListInvoicesInvoice, ListPaysPayment, NewAddrResponse, XpayResponse,
};
use swissknife::cln_ws::{notification_plan, ClnWsNotification, InvoicePayment, SendPayFailure, SendPayFailureData, SendPaySuccess};
use swissknife::domain::{
    BitcoinError, BtcAddressType, BtcOutputStatus, OnchainSyncCursor, OnchainTransaction, PaymentStatus,
};
use swissknife::time::UtcTime;

fn sha256_hex(bytes: &[u8]) -> String {
    hex::encode(<bitcoin::hashes::sha256::Hash as bitcoin::hashes::Hash>::hash(bytes))
}

#[test]
fn cln_rest_types_xpay_response_separates_delivered_amount_from_routing_fee() {
    let resp = XpayResponse {
        payment_preimage: "01".repeat(32),
        amount_msat: 100_000,
        amount_sent_msat: 100_500,
    };

    let payment = resp.into_payment();

    assert_eq!(payment.amount_msat, 100_000);
    assert_eq!(payment.fee_msat, Some(500));
    assert_eq!(
        payment.amount_msat + payment.fee_msat.unwrap(),
        100_500,
        "wallet debit (amount + fee) must equal amount_sent_msat, not amount + 2*fee"
    );
}

#[test]
fn cln_grpc_types_xpay_response_separates_delivered_amount_from_routing_fee() {
    let resp = GrpcXpayResponse {
        payment_preimage: vec![1u8; 32],
        failed_parts: 0,
        successful_parts: 1,
        amount_msat: Some(Amount { msat: 100_000 }),
        amount_sent_msat: Some(Amount { msat: 100_500 }),
    };

    let payment = resp.into_payment();

    assert_eq!(payment.amount_msat, 100_000);
    assert_eq!(payment.fee_msat, Some(500));
    assert_eq!(payment.amount_msat + payment.fee_msat.unwrap(), 100_500);
}

#[test]
fn xpay_payment_hash_is_sha256_of_preimage() {
    let resp = XpayResponse {
        payment_preimage: "01".repeat(32),
        amount_msat: 1_000,
        amount_sent_msat: 1_000,
    };
    let now = UtcTime { secs: 1_700_000_000, nanos: 0 };
    let payment = resp.payment_at(now);
    let ln = payment.lightning.unwrap();
    assert_eq!(ln.payment_hash, sha256_hex(&[1u8; 32]));
    assert_ne!(ln.payment_hash, "01".repeat(32));
    assert_eq!(ln.payment_preimage, Some("01".repeat(32)));
    assert_eq!(payment.payment_time, Some(now));
    assert_eq!(payment.fee_msat, Some(0));
}

fn pay(status: &str, hash: &str, created: Option<u64>, completed: Option<u64>) -> ListPaysPayment {
    ListPaysPayment {
        status: status.to_string(),
        payment_hash: hash.to_string(),
        preimage: Some("ab".repeat(32)),
        amount_msat: Some(1_000),
        amount_sent_msat: Some(1_010),
        created_at: created,
        completed_at: completed,
    }
}

#[test]
fn payment_from_pays_takes_first_finished_entry() {
    let pays = vec![
        pay("pending", "aa", Some(10), None),
        pay("failed", "bb", Some(11), None),
        pay("complete", "aa", Some(12), Some(20)),
        pay("failed", "aa", Some(13), None),
    ];
    let p = payment_from_pays(&pays, "aa").unwrap();
    assert_eq!(p.status, PaymentStatus::Settled);
    assert_eq!(p.amount_msat, 1_000);
    assert_eq!(p.fee_msat, Some(10));
    assert_eq!(p.amount_msat + p.fee_msat.unwrap(), 1_010);
    assert_eq!(p.payment_time, Some(UtcTime { secs: 20, nanos: 0 }));
    assert_eq!(p.error, None);

    let failed = payment_from_pays(&pays, "bb").unwrap();
    assert_eq!(failed.status, PaymentStatus::Failed);
    assert_eq!(failed.error, Some("Payment failed".to_string()));
    assert_eq!(failed.payment_time, Some(UtcTime { secs: 11, nanos: 0 }));

    assert!(payment_from_pays(&pays, "cc").is_none());
}

fn chain_move(index: u64, tag: &str, utxo: &str, spending: Option<&str>) -> ListChainMove {
    ListChainMove {
        created_index: index,
        primary_tag: tag.to_string(),
        account_id: "wallet".to_string(),
        utxo: utxo.to_string(),
        spending_txid: spending.map(|s| s.to_string()),
        blockheight: Some(120),
    }
}

const TXID_A: &str = "7d2f8b5b9f4f1a8f0c3b0c5a7e1e8f2f6a0b9c3d2e1f0a9b8c7d6e5f4a3b2c1d";
const TXID_B: &str = "1111111111111111111111111111111111111111111111111111111111111111";

#[test]
fn cln_sync_batch_maps_deposits_and_withdrawals_and_advances_cursor() {
    let moves = vec![
        chain_move(5, "deposit", &format!("{TXID_A}:1"), None),
        chain_move(7, "withdrawal", &format!("{TXID_A}:1"), Some(TXID_B)),
        chain_move(6, "deposit", &format!("{TXID_B}:0"), None),
    ];
    let funds = vec![ListFundsOutput {
        txid: TXID_A.to_string(),
        output: 1,
        amount_msat: 250_000_000,
        address: Some("bcrt1qexample".to_string()),
        status: "confirmed".to_string(),
        blockheight: Some(120),
    }];
    let batch = cln_sync_batch(4, &moves, &funds).unwrap();
    assert_eq!(batch.events.len(), 2);
    match &batch.events[0] {
        OnchainTransaction::Deposit(b) => {
            assert_eq!(b.txid, TXID_A);
            assert_eq!(b.output_index, 1);
            assert_eq!(b.amount_sat, 250_000);
            assert_eq!(b.outpoint, format!("{TXID_A}:1"));
            assert_eq!(b.status, BtcOutputStatus::Confirmed);
        }
        other => panic!("unexpected event {other:?}"),
    }
    match &batch.events[1] {
        OnchainTransaction::Withdrawal(w) => {
            assert_eq!(w.txid, TXID_B);
            assert_eq!(w.block_height, Some(120));
        }
        other => panic!("unexpected event {other:?}"),
    }
    assert_eq!(batch.next_cursor, Some(OnchainSyncCursor::CreatedIndex(8)));
}

#[test]
fn cln_sync_batch_keeps_cursor_without_newer_movements() {
    let batch = cln_sync_batch(9, &vec![], &vec![]).unwrap();
    assert!(batch.events.is_empty());
    assert_eq!(batch.next_cursor, None);
}

#[test]
fn cln_sync_batch_rejects_unparsable_deposit_outpoint() {
    let moves = vec![chain_move(5, "deposit", "not-an-outpoint", None)];
    match cln_sync_batch(0, &moves, &vec![]) {
        Err(BitcoinError::Synchronize(_)) => {}
        other => panic!("unexpected result {other:?}"),
    }
}

#[test]
fn cln_new_address_refuses_unsupported_types() {
    let req = cln_new_addr_request(BtcAddressType::P2tr).unwrap();
    assert_eq!(req.addresstype, Some("p2tr".to_string()));
    let req = cln_new_addr_request(BtcAddressType::P2wpkh).unwrap();
    assert_eq!(req.addresstype, Some("bech32".to_string()));
    match cln_new_addr_request(BtcAddressType::P2pkh) {
        Err(BitcoinError::AddressType(name)) => assert_eq!(name, "p2pkh"),
        other => panic!("unexpected result {other:?}"),
    }
    let missing = NewAddrResponse { bech32: None, p2tr: None }.into_address();
    assert!(matches!(missing, Err(BitcoinError::Address(_))));
    let p2tr = NewAddrResponse { bech32: None, p2tr: Some("bcrt1p".to_string()) }.into_address();
    assert_eq!(p2tr.unwrap(), "bcrt1p");
}

#[test]
fn cln_tx_prepare_request_converts_fee_rate_to_per_kilobyte() {
    let req = cln_tx_prepare_request("bcrt1qdest".to_string(), 5_000, Some(3));
    assert_eq!(req.outputs.len(), 1);
    assert_eq!(req.outputs[0].address, "bcrt1qdest");
    assert_eq!(req.outputs[0].amount, 5_000);
    assert_eq!(req.feerate, Some(3_000));
    assert_eq!(cln_tx_prepare_request("a".to_string(), 1, None).feerate, None);
}

#[test]
fn listinvoice_without_bolt11_is_an_error() {
    let inv = ListInvoicesInvoice {
        bolt11: None,
        status: "paid".to_string(),
        paid_at: Some(1),
        amount_received_msat: Some(1),
    };
    assert!(inv.into_invoice().is_err());
}

#[test]
fn websocket_plan_halts_on_incomplete_sendpay_success() {
    let now = UtcTime { secs: 1_000, nanos: 0 };
    let n = ClnWsNotification {
        invoice_payment: Some(InvoicePayment { preimage: "00".repeat(32), msat: 42 }),
        sendpay_success: Some(SendPaySuccess {
            amount_msat: 10,
            amount_sent_msat: 12,
            payment_hash: "h".to_string(),
            payment_preimage: "p".to_string(),
            completed_at: 5,
            status: "pending".to_string(),
        }),
        sendpay_failure: Some(SendPayFailure {
            message: "boom".to_string(),
            data: SendPayFailureData { payment_hash: "h".to_string(), status: "failed".to_string() },
        }),
        coin_movement: Some(Some("chain_mvt".to_string())),
    };
    let plan = notification_plan(n, now);
    let paid = plan.invoice_paid.unwrap();
    assert_eq!(paid.payment_hash, sha256_hex(&[0u8; 32]));
    assert_eq!(paid.amount_received_msat, 42);
    assert_eq!(paid.payment_time, now);
    assert!(plan.halt);
    assert!(plan.outgoing_payment.is_none());
    assert!(plan.failed_payment.is_none());
    assert!(!plan.sync_onchain);
}

#[test]
fn websocket_plan_maps_complete_payment_failure_and_chain_movement() {
    let now = UtcTime { secs: 1_000, nanos: 0 };
    let n = ClnWsNotification {
        invoice_payment: None,
        sendpay_success: Some(SendPaySuccess {
            amount_msat: 10_000,
            amount_sent_msat: 10_020,
            payment_hash: "h".to_string(),
            payment_preimage: "p".to_string(),
            completed_at: 1_700_000_000,
            status: "complete".to_string(),
        }),
        sendpay_failure: Some(SendPayFailure {
            message: "no route".to_string(),
            data: SendPayFailureData { payment_hash: "f".to_string(), status: "pending".to_string() },
        }),
        coin_movement: Some(Some("channel_mvt".to_string())),
    };
    let plan = notification_plan(n, now);
    assert!(!plan.halt);
    let out = plan.outgoing_payment.unwrap();
    assert_eq!(out.fees_msat, 20);
    assert_eq!(out.payment_time, UtcTime { secs: 1_700_000_000, nanos: 0 });
    let failed = plan.failed_payment.unwrap();
    assert_eq!(failed.reason, "no route");
    assert_eq!(failed.payment_hash, "f");
    assert!(!plan.sync_onchain);
}

#[test]
fn listinvoice_without_bolt11_names_the_missing_text() {
    let inv = ListInvoicesInvoice {
        bolt11: None,
        status: "unpaid".to_string(),
        paid_at: None,
        amount_received_msat: None,
    };
    assert_eq!(inv.into_invoice(), Err("invoice without bolt11".to_string()));
}
