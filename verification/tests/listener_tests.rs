use swissknife::domain::{LightningError, OnchainSyncCursor};
use swissknife::listener::{
    backoff_bounds, cursor_after_projection, listener_error_outcome, next_backoff, replay_start, replay_step,
    stream_step, ListenerFailureSignal, ReplayAction, ReplayRound, ReplayState, StreamAction, StreamFrame,
};

#[test]
fn offchain_projection_error_signals_listener_failure() {
    let mut failure = ListenerFailureSignal::new();

    failure.signal_listener_failure("database is locked".to_string());

    let err = failure.try_recv().expect("listener failure");
    assert!(matches!(
        err,
        LightningError::EventProcessing(message) if message.contains("database is locked")
    ));
}

#[test]
fn repeated_offchain_projection_error_is_dropped_after_failure_is_signaled() {
    let mut failure = ListenerFailureSignal::new();

    failure.signal_listener_failure("database is locked".to_string());
    failure.signal_listener_failure("Lightning invoice not found.".to_string());

    assert!(failure.try_recv().is_some());
    assert!(failure.try_recv().is_none());
}

#[test]
fn first_failure_is_the_one_received() {
    let mut failure = ListenerFailureSignal::new();
    failure.signal_listener_failure("first".to_string());
    failure.signal_listener_failure("second".to_string());
    assert_eq!(failure.try_recv(), Some(LightningError::EventProcessing("first".to_string())));
    failure.signal_listener_failure("third".to_string());
    assert_eq!(failure.try_recv(), Some(LightningError::EventProcessing("third".to_string())));
}

#[test]
fn cursor_is_kept_back_after_a_failed_write() {
    let next = Some(OnchainSyncCursor::CreatedIndex(9));
    assert_eq!(cursor_after_projection(next, 3, 3), next);
    assert_eq!(cursor_after_projection(next, 3, 2), None);
    assert_eq!(cursor_after_projection(None, 0, 0), None);
}

#[test]
fn replay_backoff_doubles_up_to_the_cap() {
    assert_eq!(backoff_bounds(0, 0), (100, 100));
    assert_eq!(backoff_bounds(250, 100), (250, 250));
    assert_eq!(backoff_bounds(1_000, 30_000), (1_000, 30_000));
    let (mut delay, cap) = backoff_bounds(1_000, 5_000);
    let mut seen = vec![delay];
    for _ in 0..5 {
        delay = next_backoff(delay, cap);
        seen.push(delay);
    }
    assert_eq!(seen, vec![1_000, 2_000, 4_000, 5_000, 5_000, 5_000]);
}

#[test]
fn fatal_listener_errors_end_the_listener() {
    assert_eq!(
        listener_error_outcome(LightningError::TLSConfig("bad cert".to_string())),
        Some(LightningError::Listener("bad cert".to_string()))
    );
    assert_eq!(
        listener_error_outcome(LightningError::ConnectWebsocket("refused".to_string())),
        Some(LightningError::Listener("refused".to_string()))
    );
    assert_eq!(listener_error_outcome(LightningError::Listener("reset".to_string())), None);
}

#[test]
fn replay_stops_once_all_three_syncs_succeed() {
    let s = replay_start(0, 250);
    assert_eq!(s, ReplayState { backoff_ms: 100, max_ms: 250 });
    let failed = ReplayRound { invoices_ok: true, payments_ok: false, onchain_ok: true };
    let (s, a) = replay_step(s, failed);
    assert_eq!(a, ReplayAction::RetryAfter(100));
    assert_eq!(s.backoff_ms, 200);
    let (s, a) = replay_step(s, failed);
    assert_eq!(a, ReplayAction::RetryAfter(200));
    assert_eq!(s.backoff_ms, 250);
    let ok = ReplayRound { invoices_ok: true, payments_ok: true, onchain_ok: true };
    let (s2, a) = replay_step(s, ok);
    assert_eq!(a, ReplayAction::Done);
    assert_eq!(s2, s);
}

#[test]
fn message_loop_stops_at_the_first_failed_write() {
    assert_eq!(stream_step(StreamFrame::Processed), StreamAction::Continue);
    assert_eq!(stream_step(StreamFrame::Other), StreamAction::Continue);
    assert_eq!(
        stream_step(StreamFrame::ProcessingFailed(LightningError::EventProcessing("db".to_string()))),
        StreamAction::Fail(LightningError::EventProcessing("db".to_string()))
    );
    assert_eq!(stream_step(StreamFrame::Close), StreamAction::Finish);
    assert_eq!(stream_step(StreamFrame::Ended), StreamAction::Finish);
    assert_eq!(
        stream_step(StreamFrame::TransportError("reset".to_string())),
        StreamAction::Fail(LightningError::ConnectWebsocket("reset".to_string()))
    );
}
