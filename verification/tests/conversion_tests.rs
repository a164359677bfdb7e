use base64::Engine;
use bitcoin::{absolute::LockTime, transaction::Version, Amount as Sats, OutPoint, ScriptBuf, Sequence, Transaction, TxIn, TxOut, Witness};

use swissknife::breez_core::{BreezLnInvoice, BreezNetwork};
use swissknife::breez_liquid::{with_requested_expiry, LiquidLnInvoice};
use swissknife::breez_spark::{spark_find_by_hash, spark_invoice_at, spark_invoice_request, SparkHtlcDetails, SparkPayment, SparkPaymentDetails, SparkPaymentMethod, SparkPaymentStatus, SparkPaymentType};
use swissknife::cln_grpc::{
    chainmoves_max_index, classify_chainmove, invoice_wait_step, map_address_type, payment_from_sendpays,
    sendpay_success_event, sendpay_wait_step, Amount, ChainmoveAction, ChainmovePrimaryTag, InvoiceWaitAction,
    ListchainmovesChainmoves, ListinvoicesInvoices, ListinvoicesInvoicesStatus, ListsendpaysPayments,
    ListsendpaysPaymentsStatus, NewaddrAddresstype, Outpoint, SendpayWaitAction, WaitInvoices, WaitInvoicesStatus,
    WaitResponse, WaitSendpays, WaitSendpaysStatus,
};
use swissknife::cln_rest::{
    cln_find_output, cln_prepared_transaction, cln_transaction, ListFundsOutput, ListTransactionsOutput,
    ListTransactionsTransaction, TxPrepareResponse,
};
use swissknife::cln_ws::ChainMovement;
use swissknife::domain::{
    BitcoinError, BtcAddressType, BtcNetwork, BtcOutputStatus, Currency, InvoiceStatus, PaymentStatus,
};
use swissknife::lnd::{FundPsbtResponse, InvoiceResponse};
use swissknife::lnrpc::{self, grpc_prepared_transaction, invoice_from_lnrpc, lnd_grpc_sync_batch, InvoiceState};
use swissknife::time::UtcTime;

const INVOICE: &str = "lnbc25m1pvjluezpp5qqqsyqcyq5rqwzqfqqqsyqcyq5rqwzqfqqqsyqcyq5rqwzqfqypqdq5vdhkven9v5sxyetpdeessp5zyg3zyg3zyg3zyg3zyg3zyg3zyg3zyg3zyg3zyg3zyg3zyg3zygs9q5sqqqqqqqqqqqqqqqpqsq67gye39hfg3zd8rgc80k32tvy9xk2xunwm5lzexnvpx6fd77en8qaq424dxgt56cag2dpt359k3ssyhetktkpqh24jqnjyw6uqd08sgptq44qu";

fn sample_psbt() -> (Vec<u8>, String, Vec<u8>) {
    let tx = Transaction {
        version: Version::TWO,
        lock_time: LockTime::ZERO,
        input: vec![TxIn {
            previous_output: OutPoint::null(),
            script_sig: ScriptBuf::new(),
            sequence: Sequence::MAX,
            witness: Witness::new(),
        }],
        output: vec![TxOut { value: Sats::from_sat(9_000), script_pubkey: ScriptBuf::new() }],
    };
    let txid = tx.compute_txid().to_string();
    let raw = bitcoin::consensus::encode::serialize(&tx);
    let mut psbt = bitcoin::psbt::Psbt::from_unsigned_tx(tx).unwrap();
    psbt.inputs[0].witness_utxo = Some(TxOut { value: Sats::from_sat(10_000), script_pubkey: ScriptBuf::new() });
    (psbt.serialize(), txid, raw)
}

#[test]
fn prepared_transactions_read_fee_and_id_from_the_psbt() {
    let (bytes, txid, raw) = sample_psbt();
    let b64 = base64::engine::general_purpose::STANDARD.encode(&bytes);
    let raw_b64 = base64::engine::general_purpose::STANDARD.encode(&raw);

    let lnd = swissknife::lnd::lnd_prepared_transaction(
        FundPsbtResponse { funded_psbt: b64.clone(), locked_utxos: vec![] },
        &raw_b64,
    )
    .unwrap();
    assert_eq!(lnd.fee_sat, 1_000);
    assert_eq!(lnd.txid, txid);
    assert_eq!(lnd.psbt, b64);
    assert_eq!(lnd.raw_tx, Some(raw.clone()));
    let publish = swissknife::lnd::lnd_publish_request(&lnd).unwrap();
    assert_eq!(publish.tx_hex, raw_b64);
    assert!(matches!(
        swissknife::lnd::lnd_prepared_transaction(
            FundPsbtResponse { funded_psbt: b64.clone(), locked_utxos: vec![] },
            "AAAA",
        ),
        Err(BitcoinError::Transaction(_))
    ));
    assert!(matches!(
        swissknife::lnd::lnd_prepared_transaction(
            FundPsbtResponse { funded_psbt: b64.clone(), locked_utxos: vec![] },
            "!!",
        ),
        Err(BitcoinError::Transaction(_))
    ));

    let grpc = grpc_prepared_transaction(&bytes, &vec![]).unwrap();
    assert_eq!(grpc.fee_sat, 1_000);
    assert_eq!(grpc.psbt, b64);

    let cln = cln_prepared_transaction(TxPrepareResponse { psbt: "orig".to_string(), txid: "t".to_string() }, &b64).unwrap();
    assert_eq!(cln.fee_sat, 1_000);
    assert_eq!(cln.txid, "t");
    assert_eq!(cln.psbt, "orig");

    let bad = swissknife::lnd::lnd_prepared_transaction(
        FundPsbtResponse { funded_psbt: "!!".to_string(), locked_utxos: vec![] },
        &raw_b64,
    );
    assert!(matches!(bad, Err(BitcoinError::ParsePsbt(_))));
    assert!(matches!(grpc_prepared_transaction(&[1, 2, 3], &vec![]), Err(BitcoinError::ParsePsbt(_))));
}

#[test]
fn cln_transaction_resolves_output_addresses() {
    let t = ListTransactionsTransaction {
        hash: "abc".to_string(),
        blockheight: 800_000,
        outputs: vec![ListTransactionsOutput {
            index: 0,
            amount_msat: 1_500_999,
            script_pub_key: "0014751e76e8199196d454941c45d1b3a323f1433bd6".to_string(),
        }],
    };
    let tx = cln_transaction(t, BtcNetwork::Bitcoin).unwrap();
    assert_eq!(tx.outputs[0].address, "bc1qw508d6qejxtdg4y5r3zarvary0c5xw7kv8f3t4");
    assert_eq!(tx.outputs[0].amount_sat, 1_500);
    assert_eq!(tx.block_height, Some(800_000));
    assert!(!tx.is_outgoing);
    let bad = ListTransactionsTransaction {
        hash: "abc".to_string(),
        blockheight: 1,
        outputs: vec![ListTransactionsOutput { index: 0, amount_msat: 0, script_pub_key: "zz".to_string() }],
    };
    assert!(matches!(cln_transaction(bad, BtcNetwork::Bitcoin), Err(BitcoinError::GetTransaction(_))));
}

#[test]
fn cln_output_lookup() {
    let funds = vec![
        ListFundsOutput {
            txid: "t1".to_string(),
            output: 0,
            amount_msat: 5_000,
            address: Some("a0".to_string()),
            status: "spent".to_string(),
            blockheight: Some(3),
        },
        ListFundsOutput {
            txid: "t1".to_string(),
            output: 1,
            amount_msat: 7_000,
            address: Some("a1".to_string()),
            status: "confirmed".to_string(),
            blockheight: Some(3),
        },
    ];
    let by_address = cln_find_output(&funds, "t1", None, Some("a1")).unwrap();
    assert_eq!(by_address.output_index, 1);
    assert_eq!(by_address.amount_sat, 7);
    assert_eq!(by_address.status, BtcOutputStatus::Confirmed);
    let spent = cln_find_output(&funds, "t1", Some(0), None).unwrap();
    assert_eq!(spent.status, BtcOutputStatus::Spent);
    assert_eq!(spent.outpoint, "t1:0");
    assert!(cln_find_output(&funds, "t2", Some(0), None).is_none());
}

#[test]
fn grpc_invoice_and_payment_mapping() {
    let paid = ListinvoicesInvoices {
        bolt11: Some(INVOICE.to_string()),
        status: ListinvoicesInvoicesStatus::Paid,
        paid_at: Some(1_496_315_000),
        amount_received_msat: Some(Amount { msat: 2_500_000_000 }),
    };
    let inv = paid.into_invoice().unwrap();
    assert_eq!(inv.status, InvoiceStatus::Settled);
    assert_eq!(inv.payment_time, Some(UtcTime { secs: 1_496_315_000, nanos: 0 }));
    let no_amount = ListinvoicesInvoices {
        bolt11: Some(INVOICE.to_string()),
        status: ListinvoicesInvoicesStatus::Paid,
        paid_at: Some(1),
        amount_received_msat: None,
    };
    assert!(no_amount.into_invoice().is_err());

    let now = UtcTime { secs: 9, nanos: 0 };
    let sendpays = vec![
        ListsendpaysPayments {
            status: ListsendpaysPaymentsStatus::Pending,
            amount_msat: None,
            amount_sent_msat: None,
            created_at: 1,
            completed_at: None,
            payment_preimage: None,
        },
        ListsendpaysPayments {
            status: ListsendpaysPaymentsStatus::Complete,
            amount_msat: Some(Amount { msat: 1_000 }),
            amount_sent_msat: Some(Amount { msat: 1_003 }),
            created_at: 2,
            completed_at: Some(4),
            payment_preimage: Some(vec![0xab]),
        },
    ];
    let p = payment_from_sendpays(&sendpays, "hh", now).unwrap();
    assert_eq!(p.status, PaymentStatus::Settled);
    assert_eq!(p.amount_msat, 1_000);
    assert_eq!(p.fee_msat, Some(3));
    assert_eq!(p.amount_msat + p.fee_msat.unwrap(), 1_003);
    assert_eq!(p.payment_time, Some(UtcTime { secs: 4, nanos: 0 }));
    assert_eq!(p.lightning.unwrap().payment_preimage, Some("ab".to_string()));
    assert_eq!(map_address_type(BtcAddressType::P2tr), Some(NewaddrAddresstype::P2tr));
    assert_eq!(map_address_type(BtcAddressType::P2pkh), Some(NewaddrAddresstype::Bech32));
}

#[test]
fn grpc_wait_steps() {
    let resp = WaitResponse {
        updated: Some(41),
        created: None,
        invoices: Some(WaitInvoices { status: WaitInvoicesStatus::Paid, label: Some("lbl".to_string()) }),
        sendpays: None,
    };
    assert_eq!(invoice_wait_step(0, &resp), (InvoiceWaitAction::WaitInvoice("lbl".to_string()), 42));
    let empty = WaitResponse { updated: None, created: None, invoices: None, sendpays: None };
    assert_eq!(invoice_wait_step(7, &empty), (InvoiceWaitAction::MissingDetails, 7));
    assert_eq!(invoice_wait_step(0, &empty), (InvoiceWaitAction::Nothing, 0));

    let failed = WaitResponse {
        updated: Some(5),
        created: None,
        invoices: None,
        sendpays: Some(WaitSendpays {
            payment_hash: Some(vec![0x01, 0x02]),
            partid: None,
            groupid: None,
            status: WaitSendpaysStatus::Failed,
        }),
    };
    match sendpay_wait_step(3, &failed) {
        (SendpayWaitAction::Failed(e), 6) => {
            assert_eq!(e.reason, "Payment failed");
            assert_eq!(e.payment_hash, "0102");
        }
        other => panic!("unexpected {other:?}"),
    }
    let no_hash = WaitResponse {
        updated: Some(5),
        created: None,
        invoices: None,
        sendpays: Some(WaitSendpays { payment_hash: None, partid: None, groupid: None, status: WaitSendpaysStatus::Complete }),
    };
    assert_eq!(sendpay_wait_step(3, &no_hash), (SendpayWaitAction::MissingHash, 3));

    let success = sendpay_success_event(&vec![0xaa], Some(Amount { msat: 105 }), Some(Amount { msat: 100 }), &None, UtcTime { secs: 1, nanos: 0 });
    assert_eq!(success.fees_msat, 5);
    assert_eq!(success.payment_hash, "aa");
    assert_eq!(success.payment_preimage, "");
}

#[test]
fn grpc_chainmoves() {
    let deposit = ListchainmovesChainmoves {
        created_index: 11,
        primary_tag: ChainmovePrimaryTag::Deposit,
        account_id: "wallet".to_string(),
        utxo: Some(Outpoint { txid: vec![0x0f], outnum: 2 }),
        spending_txid: None,
        blockheight: 100,
    };
    assert_eq!(classify_chainmove(&deposit), ChainmoveAction::Deposit { txid: "0f".to_string(), outnum: 2 });
    let channel = ListchainmovesChainmoves { account_id: "channel".to_string(), ..deposit.clone() };
    assert_eq!(classify_chainmove(&channel), ChainmoveAction::Ignore);
    let withdrawal = ListchainmovesChainmoves {
        primary_tag: ChainmovePrimaryTag::Withdrawal,
        spending_txid: None,
        ..deposit.clone()
    };
    assert_eq!(classify_chainmove(&withdrawal), ChainmoveAction::MissingSpendingTxid);
    assert_eq!(chainmoves_max_index(&vec![deposit, channel], 5), 11);
    assert_eq!(chainmoves_max_index(&vec![], 5), 5);
}

#[test]
fn lnd_invoice_states() {
    let canceled = InvoiceResponse {
        payment_request: INVOICE.to_string(),
        r_hash: String::new(),
        state: "CANCELED".to_string(),
        amt_paid_msat: 0,
        settle_date: 0,
    };
    assert_eq!(canceled.into_invoice().unwrap().status, InvoiceStatus::Expired);
    let settled = lnrpc::Invoice {
        memo: String::new(),
        r_hash: vec![],
        value_msat: 0,
        settle_date: 1_496_400_000,
        payment_request: INVOICE.to_string(),
        description_hash: vec![],
        expiry: 0,
        amt_paid_msat: 0,
        state: InvoiceState::Settled,
    };
    let inv = invoice_from_lnrpc(settled.clone()).unwrap();
    assert_eq!(inv.status, InvoiceStatus::Settled);
    assert_eq!(inv.amount_received_msat, None);
    let with_amount = lnrpc::Invoice { amt_paid_msat: 5, ..settled };
    assert_eq!(invoice_from_lnrpc(with_amount).unwrap().amount_received_msat, Some(5));
    let garbage = lnrpc::Invoice {
        memo: String::new(),
        r_hash: vec![],
        value_msat: 0,
        settle_date: 0,
        payment_request: "lnbc1x".to_string(),
        description_hash: vec![],
        expiry: 0,
        amt_paid_msat: 0,
        state: InvoiceState::Open,
    };
    assert!(invoice_from_lnrpc(garbage).is_err());
}

#[test]
fn grpc_sync_reads_transactions_as_the_client_does() {
    let raw = vec![lnrpc::Transaction {
        tx_hash: "t".to_string(),
        block_height: 12,
        output_details: vec![lnrpc::OutputDetail {
            output_index: 0,
            amount: 40,
            address: "ours".to_string(),
            is_our_address: true,
        }],
        previous_outpoints: vec![],
    }];
    let batch = lnd_grpc_sync_batch(&raw, 10);
    assert_eq!(batch.events.len(), 1);
    assert_eq!(batch.next_cursor, Some(swissknife::domain::OnchainSyncCursor::BlockHeight(2)));
}

#[test]
fn spark_invoice_from_sdk_bolt11() {
    let now = UtcTime { secs: 77, nanos: 0 };
    let inv = spark_invoice_at(INVOICE, now).unwrap();
    assert_eq!(inv.timestamp, UtcTime { secs: 1_496_314_658, nanos: 0 });
    assert_eq!(inv.amount_msat, Some(2_500_000_000));
    let ln = inv.ln_invoice.unwrap();
    assert_eq!(ln.expires_at, UtcTime { secs: 1_496_314_658 + 3_600, nanos: 0 });
    assert_eq!(ln.payee_pubkey.len(), 66);
    assert!(spark_invoice_at("nonsense", now).is_err());
    let req = spark_invoice_request(999, "d".to_string(), 0);
    assert_eq!(req.amount_sats, Some(1));
    assert_eq!(req.expiry_secs, None);
}

#[test]
fn spark_lookup_by_hash_takes_lightning_payments_only() {
    let make = |hash: &str, lightning: bool| SparkPayment {
        id: hash.to_string(),
        payment_type: SparkPaymentType::Receive,
        status: SparkPaymentStatus::Completed,
        amount: 1,
        fees: 0,
        timestamp: 0,
        method: SparkPaymentMethod::Lightning,
        details: if lightning {
            Some(SparkPaymentDetails::Lightning {
                description: None,
                htlc_details: SparkHtlcDetails { payment_hash: hash.to_string(), preimage: None },
                lnurl_pay_info: None,
                lnurl_receive_metadata: None,
            })
        } else {
            Some(SparkPaymentDetails::Spark {
                invoice_details: None,
                htlc_details: Some(SparkHtlcDetails { payment_hash: hash.to_string(), preimage: None }),
            })
        },
    };
    let found = spark_find_by_hash(vec![make("h", false), make("h", true)], "h").unwrap();
    assert!(matches!(found.details, Some(SparkPaymentDetails::Lightning { .. })));
    assert!(spark_find_by_hash(vec![make("h", false)], "h").is_none());
}

#[test]
fn sdk_invoices_map_onto_wallet_invoices() {
    let liquid = LiquidLnInvoice {
        bolt11: "ln".to_string(),
        payee_pubkey: "pk".to_string(),
        payment_hash: "ph".to_string(),
        description: Some("d".to_string()),
        description_hash: None,
        amount_msat: Some(1_000),
        timestamp: 100,
        expiry: 60,
        payment_secret: vec![0x11, 0x22],
        min_final_cltv_expiry_delta: 18,
    }
    .into_invoice();
    assert_eq!(liquid.currency, Currency::Bitcoin);
    let ln = liquid.ln_invoice.clone().unwrap();
    assert_eq!(ln.payment_secret, "1122");
    assert_eq!(ln.expires_at, UtcTime { secs: 160, nanos: 0 });
    let longer = with_requested_expiry(liquid, 3_600);
    let ln = longer.ln_invoice.unwrap();
    assert_eq!(ln.expiry_secs, 3_600);
    assert_eq!(ln.expires_at, UtcTime { secs: 160, nanos: 0 });

    let core = BreezLnInvoice {
        bolt11: "ln".to_string(),
        network: BreezNetwork::Testnet,
        payee_pubkey: "pk".to_string(),
        payment_hash: "ph".to_string(),
        description: None,
        description_hash: Some("dh".to_string()),
        amount_msat: None,
        timestamp: 10,
        expiry: 5,
        payment_secret: vec![],
        min_final_cltv_expiry_delta: 9,
    }
    .into_invoice();
    assert_eq!(core.currency, Currency::BitcoinTestnet);
    assert_eq!(core.timestamp, UtcTime { secs: 10, nanos: 0 });
}

#[test]
fn chain_movement_output_event() {
    let txid = "7d2f8b5b9f4f1a8f0c3b0c5a7e1e8f2f6a0b9c3d2e1f0a9b8c7d6e5f4a3b2c1d";
    let m = ChainMovement {
        account_id: "wallet".to_string(),
        originating_account: None,
        spending_txid: None,
        primary_tag: "deposit".to_string(),
        utxo: format!("{txid}:3"),
        output_msat: 12_345_678,
        blockheight: Some(9),
    };
    let e = m.clone().into_output_event().unwrap();
    assert_eq!(e.txid, txid);
    assert_eq!(e.output_index, 3);
    assert_eq!(e.amount_sat, 12_345);
    let bad = ChainMovement { utxo: "nope".to_string(), ..m };
    assert!(bad.into_output_event().is_none());
}

#[test]
fn created_lnd_invoice_is_decoded_from_its_own_text() {
    let created = swissknife::lnd::AddInvoiceResponse { payment_request: INVOICE.to_string() };
    let inv = created.into_invoice().unwrap();
    let ln = inv.ln_invoice.unwrap();
    assert_eq!(ln.bolt11, INVOICE);
    assert_eq!(ln.payment_hash, "0001020304050607080900010203040506070809000102030405060708090102");
    assert_eq!(inv.amount_msat, Some(2_500_000_000));
    let bad = swissknife::lnd::AddInvoiceResponse { payment_request: "lnbc1nonsense".to_string() };
    assert!(matches!(bad.into_invoice(), Err(swissknife::domain::LightningError::Invoice(_))));
}
