use base64::Engine;

use swissknife::domain::{
    BitcoinError, BtcAddressType, BtcLockedUtxo, BtcNetwork, BtcOutputStatus, BtcTransaction,
    BtcTransactionOutput, LightningError, OnchainSyncCursor, OnchainTransaction, PaymentStatus,
};
use swissknife::lnd::{
    invoice_lookup_failure, lnd_find_output, lnd_fund_psbt_request, lnd_invoice_request,
    lnd_locked_utxos, lnd_new_address_endpoint, lnd_release_request, macaroon_hex,
    payment_lookup_failure, Chain, ErrorResponse, GetinfoResponse, InvoiceResponse, OutPoint,
    OutputDetailResponse, PayResponse, PreviousOutpointResponse, PublishTransactionResponse,
    StreamPayResponse, TrackPaymentResponse, TransactionResponse, UtxoLease,
};
use swissknife::lnrpc::{
    self, address_type_of, grpc_locked_utxos, grpc_network, lnd_sync_batch, map_transaction,
    pay_outcome, payment_from_lnrpc, publish_outcome, release_output_args, send_payment_request,
    settled_invoice_event, sync_start_height, transaction_projection, ChainEvent, InvoiceState,
    OutputDetail, PaymentFailureReason, PreviousOutPoint,
};
use swissknife::time::UtcTime;

fn pay_response(status: &str) -> PayResponse {
    PayResponse {
        payment_preimage: "pre".to_string(),
        payment_hash: "hash".to_string(),
        value_msat: 5_000,
        creation_time_ns: 1_700_000_000_123_456_789,
        fee_msat: 7,
        status: status.to_string(),
        failure_reason: "FAILURE_REASON_NO_ROUTE".to_string(),
    }
}

#[test]
fn stream_pay_success_maps_payment() {
    let resp = StreamPayResponse { result: Some(pay_response("SUCCEEDED")), error: None };
    let p = resp.into_payment().unwrap();
    assert_eq!(p.amount_msat, 5_000);
    assert_eq!(p.fee_msat, Some(7));
    assert_eq!(p.payment_time, Some(UtcTime { secs: 1_700_000_000, nanos: 123_456_789 }));
    let ln = p.lightning.unwrap();
    assert_eq!(ln.payment_hash, "hash");
    assert_eq!(ln.payment_preimage, Some("pre".to_string()));
}

#[test]
fn stream_pay_errors_name_their_cause() {
    let failed = StreamPayResponse { result: Some(pay_response("FAILED")), error: None }.into_payment();
    assert_eq!(failed, Err(LightningError::Pay("FAILURE_REASON_NO_ROUTE".to_string())));
    let odd = StreamPayResponse { result: Some(pay_response("IN_FLIGHT")), error: None }.into_payment();
    assert_eq!(
        odd,
        Err(LightningError::UnexpectedStreamPayload("Unexpected status IN_FLIGHT".to_string()))
    );
    let err = StreamPayResponse { result: None, error: Some(ErrorResponse { message: "nope".to_string() }) }
        .into_payment();
    assert_eq!(err, Err(LightningError::Pay("nope".to_string())));
    let empty = StreamPayResponse { result: None, error: None }.into_payment();
    assert_eq!(
        empty,
        Err(LightningError::UnexpectedStreamPayload("Missing result or error field.".to_string()))
    );
}

fn track(status: &str) -> TrackPaymentResponse {
    TrackPaymentResponse {
        payment_hash: "h".to_string(),
        payment_preimage: "p".to_string(),
        value_msat: None,
        fee_msat: Some(3),
        creation_time_ns: Some(2_000_000_000),
        payment_time_ns: None,
        status: status.to_string(),
        failure_reason: "timeout".to_string(),
    }
}

#[test]
fn tracked_payment_status_mapping() {
    let ok = track("SUCCEEDED").into_payment().unwrap();
    assert_eq!(ok.status, PaymentStatus::Settled);
    assert_eq!(ok.amount_msat, 0);
    assert_eq!(ok.payment_time, Some(UtcTime { secs: 2, nanos: 0 }));
    let failed = track("FAILED").into_payment().unwrap();
    assert_eq!(failed.status, PaymentStatus::Failed);
    assert_eq!(failed.error, Some("timeout".to_string()));
    assert_eq!(failed.lightning.unwrap().payment_preimage, None);
    assert!(track("IN_FLIGHT").into_payment().is_none());
}

#[test]
fn lookup_failures_tell_not_found_from_errors() {
    assert_eq!(invoice_lookup_failure("rpc error: unable to locate invoice".to_string()), Ok(None));
    assert_eq!(
        invoice_lookup_failure("there are no existing invoices".to_string()),
        Ok(None)
    );
    assert_eq!(
        invoice_lookup_failure("connection refused".to_string()),
        Err(LightningError::InvoiceByHash("connection refused".to_string()))
    );
    assert_eq!(payment_lookup_failure("unknown payment hash".to_string()), Ok(None));
    assert_eq!(
        payment_lookup_failure("boom".to_string()),
        Err(LightningError::PaymentByHash("boom".to_string()))
    );
}

#[test]
fn getinfo_network_uses_last_chain() {
    let info = GetinfoResponse {
        chains: Some(vec![
            Chain { network: Some("mainnet".to_string()) },
            Chain { network: Some("RegTest".to_string()) },
        ]),
    };
    assert_eq!(info.network(), Ok(BtcNetwork::Regtest));
    let none = GetinfoResponse { chains: Some(vec![]) };
    assert_eq!(
        none.network(),
        Err(LightningError::NodeInfo("No chain information returned by LND".to_string()))
    );
    let grpc = vec![lnrpc::Chain { chain: "bitcoin".to_string(), network: "testnet".to_string() }];
    assert_eq!(grpc_network(&grpc), Ok(BtcNetwork::Testnet));
}

#[test]
fn new_address_endpoints_and_types() {
    assert_eq!(
        lnd_new_address_endpoint(BtcAddressType::P2tr).unwrap(),
        "v1/newaddress?type=TAPROOT_PUBKEY"
    );
    assert_eq!(
        lnd_new_address_endpoint(BtcAddressType::P2sh).unwrap(),
        "v1/newaddress?type=NESTED_PUBKEY_HASH"
    );
    assert_eq!(
        lnd_new_address_endpoint(BtcAddressType::P2pkh),
        Err(BitcoinError::AddressType("p2pkh".to_string()))
    );
    assert_eq!(address_type_of(BtcAddressType::P2wpkh), Ok(lnrpc::AddressType::WitnessPubkeyHash));
}

#[test]
fn invoice_request_hashes_description_on_request() {
    let req = lnd_invoice_request(1_000, "coffee".to_string(), 60, true);
    let expected = hex::encode(<bitcoin::hashes::sha256::Hash as bitcoin::hashes::Hash>::hash(b"coffee"));
    assert_eq!(req.description_hash, expected);
    assert_eq!(req.expiry, 60);
    let plain = lnd_invoice_request(1_000, "coffee".to_string(), 60, false);
    assert_eq!(plain.description_hash, "");
}

#[test]
fn macaroon_file_binary_or_base64() {
    let binary = vec![0x02u8, 0x01, 0xff];
    assert_eq!(macaroon_hex(binary), Ok("0201ff".to_string()));
    let text = format!("  {}\n", base64::engine::general_purpose::STANDARD.encode([0xab, 0xcd]));
    assert_eq!(macaroon_hex(text.into_bytes()), Ok("abcd".to_string()));
    assert!(macaroon_hex(b"not base64!".to_vec()).is_err());
    assert!(macaroon_hex(vec![0xff, 0xfe]).is_err());
}

#[test]
fn paid_event_decodes_base64_hash() {
    let inv = InvoiceResponse {
        payment_request: String::new(),
        r_hash: base64::engine::general_purpose::STANDARD.encode([0x12, 0x34]),
        state: "SETTLED".to_string(),
        amt_paid_msat: 900,
        settle_date: 1_600_000_000,
    };
    let e = inv.into_paid_event().unwrap();
    assert_eq!(e.payment_hash, "1234");
    assert_eq!(e.amount_received_msat, 900);
    assert_eq!(e.payment_time, UtcTime { secs: 1_600_000_000, nanos: 0 });
    let bad = InvoiceResponse {
        payment_request: String::new(),
        r_hash: "%%%".to_string(),
        state: "SETTLED".to_string(),
        amt_paid_msat: 0,
        settle_date: 0,
    };
    assert!(bad.into_paid_event().is_none());
}

#[test]
fn locked_utxos_keep_complete_leases() {
    let leases = vec![
        UtxoLease {
            id: "l1".to_string(),
            outpoint: OutPoint { txid_str: Some("t1".to_string()), output_index: Some(3) },
        },
        UtxoLease { id: "l2".to_string(), outpoint: OutPoint { txid_str: None, output_index: Some(1) } },
    ];
    let utxos = lnd_locked_utxos(&leases);
    assert_eq!(
        utxos,
        vec![BtcLockedUtxo { id: "l1".to_string(), txid: "t1".to_string(), output_index: 3 }]
    );
    let req = lnd_release_request(&utxos[0]);
    assert_eq!(req.outpoint.txid_str, Some("t1".to_string()));
    assert_eq!(req.outpoint.output_index, Some(3));
}

#[test]
fn fund_request_targets_next_block_without_fee_rate() {
    let req = lnd_fund_psbt_request("addr".to_string(), 10_000, None);
    assert_eq!(req.raw.outputs, vec![("addr".to_string(), 10_000)]);
    assert_eq!(req.target_conf, Some(1));
    assert_eq!(req.min_confs, 1);
    assert!(!req.spend_unconfirmed);
    assert_eq!(lnd_fund_psbt_request("addr".to_string(), 1, Some(5)).target_conf, None);
}

#[test]
fn publish_error_fails_broadcast() {
    let ok = PublishTransactionResponse { publish_error: String::new() }.into_outcome("tx".to_string());
    assert_eq!(ok, Ok("tx".to_string()));
    let err = PublishTransactionResponse { publish_error: "rejected".to_string() }.into_outcome("tx".to_string());
    assert_eq!(err, Err(BitcoinError::Transaction("rejected".to_string())));
    assert_eq!(
        publish_outcome("dup".to_string()),
        Err(BitcoinError::BroadcastTransaction("dup".to_string()))
    );
}

fn sample_tx(outgoing: bool, height: Option<u32>) -> BtcTransaction {
    BtcTransaction {
        txid: "tx".to_string(),
        block_height: height,
        outputs: vec![
            BtcTransactionOutput { output_index: 0, address: "ours".to_string(), amount_sat: 100, is_ours: true },
            BtcTransactionOutput { output_index: 1, address: "theirs".to_string(), amount_sat: 50, is_ours: false },
        ],
        is_outgoing: outgoing,
    }
}

#[test]
fn rest_transaction_detects_direction() {
    let resp = TransactionResponse {
        tx_hash: "tx".to_string(),
        block_height: 7,
        output_details: vec![OutputDetailResponse {
            output_index: 2,
            amount: 30,
            address: "a".to_string(),
            is_our_address: true,
        }],
        previous_outpoints: vec![
            PreviousOutpointResponse { is_our_output: false },
            PreviousOutpointResponse { is_our_output: true },
        ],
    };
    let tx = resp.into_transaction();
    assert!(tx.is_outgoing);
    assert_eq!(tx.block_height, Some(7));
    assert_eq!(tx.outputs[0].output_index, 2);
}

#[test]
fn find_output_by_index_or_address() {
    let tx = sample_tx(false, Some(10));
    let by_index = lnd_find_output(&tx, Some(1), None).unwrap();
    assert_eq!(by_index.address, "theirs");
    assert_eq!(by_index.outpoint, "tx:1");
    assert_eq!(by_index.status, BtcOutputStatus::Confirmed);
    let by_address = lnd_find_output(&tx, None, Some("ours")).unwrap();
    assert_eq!(by_address.output_index, 0);
    assert!(lnd_find_output(&tx, None, None).is_none());
    let unmined = lnd_find_output(&sample_tx(false, Some(0)), Some(0), None).unwrap();
    assert_eq!(unmined.status, BtcOutputStatus::Unconfirmed);
}

#[test]
fn sync_batch_reports_relevant_outputs_and_rewinds_cursor() {
    let txs = vec![sample_tx(false, Some(100)), sample_tx(true, Some(104))];
    let batch = lnd_sync_batch(&txs, 6);
    assert_eq!(batch.events.len(), 2);
    match &batch.events[0] {
        OnchainTransaction::Deposit(b) => {
            assert_eq!(b.address, "ours");
            assert_eq!(b.amount_sat, 100);
        }
        other => panic!("unexpected {other:?}"),
    }
    assert!(matches!(&batch.events[1], OnchainTransaction::Withdrawal(w) if w.txid == "tx"));
    assert_eq!(batch.next_cursor, Some(OnchainSyncCursor::BlockHeight(98)));
    let low = lnd_sync_batch(&vec![sample_tx(false, Some(3))], 6);
    assert_eq!(low.next_cursor, Some(OnchainSyncCursor::BlockHeight(0)));
    assert_eq!(lnd_sync_batch(&vec![], 6).next_cursor, None);
    assert_eq!(sync_start_height(Some(OnchainSyncCursor::BlockHeight(98))), 98);
    assert_eq!(sync_start_height(Some(OnchainSyncCursor::CreatedIndex(5))), 0);
}

#[test]
fn projection_advances_cursor_only_for_mined_transactions() {
    let mined = transaction_projection(&sample_tx(true, Some(50)));
    assert_eq!(mined.events.len(), 1);
    assert!(matches!(&mined.events[0], ChainEvent::Withdrawal(w) if w.block_height == Some(50)));
    assert_eq!(mined.cursor, Some(OnchainSyncCursor::BlockHeight(50)));
    let pending = transaction_projection(&sample_tx(false, None));
    assert!(matches!(&pending.events[0], ChainEvent::Deposit(d) if d.amount_sat == 100));
    assert_eq!(pending.cursor, None);
}

#[test]
fn listener_drops_outputs_that_do_not_convert() {
    let t = lnrpc::Transaction {
        tx_hash: "t".to_string(),
        block_height: 0,
        output_details: vec![
            OutputDetail { output_index: -1, amount: 5, address: "a".to_string(), is_our_address: true },
            OutputDetail { output_index: 1, amount: -5, address: "b".to_string(), is_our_address: true },
            OutputDetail { output_index: 2, amount: 5, address: "c".to_string(), is_our_address: true },
        ],
        previous_outpoints: vec![PreviousOutPoint { outpoint: "x:0".to_string(), is_our_output: false }],
    };
    let b = map_transaction(&t);
    assert_eq!(b.outputs.len(), 1);
    assert_eq!(b.outputs[0].address, "c");
    assert_eq!(b.block_height, None);
    assert!(!b.is_outgoing);
}

fn lnrpc_payment(status: lnrpc::PaymentStatus, reason: PaymentFailureReason) -> lnrpc::Payment {
    lnrpc::Payment {
        payment_hash: "h".to_string(),
        value_msat: 2_000,
        creation_time_ns: 3_000_000_000,
        fee_msat: 0,
        payment_preimage: String::new(),
        status,
        failure_reason: reason,
    }
}

#[test]
fn grpc_payment_mapping_and_pay_outcome() {
    let p = payment_from_lnrpc(lnrpc_payment(lnrpc::PaymentStatus::Succeeded, PaymentFailureReason::FailureReasonNone));
    assert_eq!(p.status, PaymentStatus::Settled);
    assert_eq!(p.fee_msat, None);
    assert_eq!(p.error, None);
    assert_eq!(p.lightning.unwrap().payment_preimage, None);
    assert_eq!(
        pay_outcome(lnrpc_payment(lnrpc::PaymentStatus::Failed, PaymentFailureReason::FailureReasonNoRoute)),
        Err(LightningError::Pay("FailureReasonNoRoute".to_string()))
    );
    assert_eq!(
        pay_outcome(lnrpc_payment(lnrpc::PaymentStatus::InFlight, PaymentFailureReason::FailureReasonNone)),
        Err(LightningError::Pay("Unexpected payment status: InFlight".to_string()))
    );
    let req = send_payment_request("ln".to_string(), None, 50, 30);
    assert_eq!(req.amt_msat, 0);
    assert_eq!(req.timeout_seconds, 30);
}

#[test]
fn grpc_leases_and_release() {
    let leases = vec![
        lnrpc::UtxoLease {
            id: vec![0xaa],
            outpoint: Some(lnrpc::OutPoint { txid_bytes: vec![0x01, 0x02], txid_str: String::new(), output_index: 4 }),
        },
        lnrpc::UtxoLease { id: vec![0xbb], outpoint: None },
    ];
    let utxos = grpc_locked_utxos(&leases);
    assert_eq!(utxos, vec![BtcLockedUtxo { id: "aa".to_string(), txid: "0102".to_string(), output_index: 4 }]);
    let (id, outpoint) = release_output_args(&utxos[0]).unwrap();
    assert_eq!(id, vec![0xaa]);
    assert_eq!(outpoint.txid_str, "0102");
    let bad = BtcLockedUtxo { id: "zz".to_string(), txid: "t".to_string(), output_index: 0 };
    assert!(matches!(release_output_args(&bad), Err(BitcoinError::ReleaseTransaction(_))));
}

#[test]
fn grpc_settled_invoice_event() {
    let mut inv = lnrpc::Invoice {
        memo: String::new(),
        r_hash: vec![0xde, 0xad],
        value_msat: 0,
        settle_date: 10,
        payment_request: String::new(),
        description_hash: vec![],
        expiry: 0,
        amt_paid_msat: 77,
        state: InvoiceState::Settled,
    };
    let e = settled_invoice_event(&inv).unwrap();
    assert_eq!(e.payment_hash, "dead");
    assert_eq!(e.amount_received_msat, 77);
    inv.state = InvoiceState::Open;
    assert!(settled_invoice_event(&inv).is_none());
}

#[test]
fn binary_and_base64_macaroons_give_the_same_hex() {
    let binary = vec![0x02, 0x01, 0x03, 0x04, 0x05, 0xff, 0x10];
    let text = format!("{}\n", base64::engine::general_purpose::STANDARD.encode(&binary));
    assert_eq!(macaroon_hex(binary.clone()), macaroon_hex(text.into_bytes()));
    assert_eq!(macaroon_hex(binary), Ok("0201030405ff10".to_string()));
}

#[test]
fn publish_request_needs_the_finalized_transaction() {
    let prepared = swissknife::domain::BtcPreparedTransaction {
        txid: "t".to_string(),
        fee_sat: 1,
        psbt: "p".to_string(),
        raw_tx: None,
        locked_utxos: vec![],
    };
    assert!(matches!(swissknife::lnd::lnd_publish_request(&prepared), Err(BitcoinError::Transaction(_))));
    let with_raw = swissknife::domain::BtcPreparedTransaction { raw_tx: Some(vec![1, 2, 3]), ..prepared };
    assert_eq!(swissknife::lnd::lnd_publish_request(&with_raw).unwrap().tx_hex, "AQID");
}
