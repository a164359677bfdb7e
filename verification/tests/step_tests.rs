use swissknife::breez_spark::SparkPendingSends;
use swissknife::cln_grpc::{
    chainmove_replay_done, chainmove_wait_step, deposit_lookup_step, ChainmoveWaitAction, DepositLookupStep,
};
use swissknife::cln_ws::{next_ws_step, ClnWsPlan, WsStep};
use swissknife::domain::{
    BitcoinError, BtcOutput, BtcOutputStatus, LnInvoicePaidEvent, LnPayFailureEvent, OnchainSyncCursor,
};
use swissknife::lnd::finalize_failure_error;
use swissknife::time::UtcTime;

fn output() -> BtcOutput {
    BtcOutput {
        txid: "aa".to_string(),
        output_index: 1,
        address: "bc1q".to_string(),
        amount_sat: 5,
        block_height: Some(7),
        outpoint: "aa:1".to_string(),
        status: BtcOutputStatus::Confirmed,
    }
}

#[test]
fn deposit_lookup_falls_back_to_spent_outputs_once() {
    assert_eq!(deposit_lookup_step(false, Ok(Some(output()))), DepositLookupStep::Credit(output()));
    assert_eq!(deposit_lookup_step(false, Ok(None)), DepositLookupStep::LookUpSpent);
    assert_eq!(deposit_lookup_step(true, Ok(None)), DepositLookupStep::Skip);
    assert_eq!(deposit_lookup_step(true, Ok(Some(output()))), DepositLookupStep::Credit(output()));
    assert_eq!(
        deposit_lookup_step(false, Err(BitcoinError::GetTransaction("down".to_string()))),
        DepositLookupStep::Skip
    );
}

#[test]
fn chainmove_listener_replays_from_its_cursor() {
    assert_eq!(chainmove_wait_step(4, None), ChainmoveWaitAction::WaitAgain);
    assert_eq!(chainmove_wait_step(4, Some(90)), ChainmoveWaitAction::Replay(4));
    assert_eq!(chainmove_replay_done(9), (10, OnchainSyncCursor::CreatedIndex(10)));
    assert_eq!(chainmove_replay_done(u64::MAX), (u64::MAX, OnchainSyncCursor::CreatedIndex(u64::MAX)));
}

#[test]
fn websocket_value_steps_follow_the_plan() {
    let paid = LnInvoicePaidEvent {
        payment_hash: "h".to_string(),
        amount_received_msat: 1,
        fee_msat: 0,
        payment_time: UtcTime { secs: 1, nanos: 0 },
    };
    let failed = LnPayFailureEvent { reason: "r".to_string(), payment_hash: "f".to_string() };
    let mut plan = ClnWsPlan {
        invoice_paid: Some(paid.clone()),
        halt: false,
        outgoing_payment: None,
        failed_payment: Some(failed.clone()),
        sync_onchain: true,
    };
    assert_eq!(next_ws_step(&mut plan), WsStep::WriteInvoicePaid(paid.clone()));
    assert_eq!(next_ws_step(&mut plan), WsStep::WriteFailedPayment(failed));
    assert_eq!(next_ws_step(&mut plan), WsStep::SyncOnchain);
    assert_eq!(next_ws_step(&mut plan), WsStep::NextValue);

    let mut halting = ClnWsPlan {
        invoice_paid: Some(paid.clone()),
        halt: true,
        outgoing_payment: None,
        failed_payment: None,
        sync_onchain: false,
    };
    assert_eq!(next_ws_step(&mut halting), WsStep::WriteInvoicePaid(paid));
    assert_eq!(next_ws_step(&mut halting), WsStep::EndMessage);
}

#[test]
fn prepared_spark_send_is_taken_once() {
    let mut store: SparkPendingSends<u64> = SparkPendingSends::new();
    store.insert("k1".to_string(), 10);
    store.insert("k2".to_string(), 20);
    store.insert("k1".to_string(), 11);
    assert_eq!(store.take("k1"), Ok(11));
    assert_eq!(
        store.take("k1"),
        Err(BitcoinError::FinalizeTransaction("Prepared transaction not found or already consumed".to_string()))
    );
    store.release("k2");
    assert!(store.take("k2").is_err());
}

#[test]
fn failed_finalize_reports_the_release_error_first() {
    assert_eq!(
        finalize_failure_error(Err(BitcoinError::Transaction("release".to_string())), "finalize".to_string()),
        BitcoinError::Transaction("release".to_string())
    );
    assert_eq!(
        finalize_failure_error(Ok(()), "finalize".to_string()),
        BitcoinError::Transaction("finalize".to_string())
    );
}
