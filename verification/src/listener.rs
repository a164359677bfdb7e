//! Decisions the event listeners share: advancing the on-chain cursor,
//! backing off between replays and telling fatal errors from transient ones.
use vstd::prelude::*;

use crate::domain::{LightningError, OnchainSyncCursor};

verus! {

/// The cursor to persist after projecting a synchronisation batch of `events`
/// events of which the first `persisted` were written: the batch's next cursor
/// when every event was written, otherwise none, so that a failed write is
/// replayed by the next synchronisation.
pub fn cursor_after_projection(
    next_cursor: Option<OnchainSyncCursor>,
    events: usize,
    persisted: usize,
) -> (r: Option<OnchainSyncCursor>)
    requires
        persisted <= events,
    ensures
        r == (if persisted == events {
            next_cursor
        } else {
            None
        }),
        r is Some ==> persisted == events,
{
    if persisted == events {
        next_cursor
    } else {
        None
    }
}

/// First and largest delay, in milliseconds, of the replay backoff: a zero
/// minimum becomes 100 ms, and the maximum is never below the minimum.
pub fn backoff_bounds(min_ms: u64, max_ms: u64) -> (r: (u64, u64))
    ensures
        r.0 == (if min_ms == 0 {
            100
        } else {
            min_ms
        }),
        r.1 == (if max_ms > r.0 {
            max_ms
        } else {
            r.0
        }),
        0 < r.0 <= r.1,
{
    let min = if min_ms == 0 { 100 } else { min_ms };
    let max = if max_ms > min { max_ms } else { min };
    (min, max)
}

/// The delay after `delay`: doubled, but never above `cap`.
pub fn next_backoff(delay: u64, cap: u64) -> (r: u64)
    requires
        delay <= cap,
    ensures
        r == (if 2 * delay < cap {
            2 * delay
        } else {
            cap as int
        }),
        delay <= r <= cap,
{
    if delay > cap / 2 {
        cap
    } else {
        if 2 * delay < cap {
            2 * delay
        } else {
            cap
        }
    }
}

/// The backoff delays of a replay loop start at the minimum, grow
/// monotonically and never exceed the cap, whatever the number of retries.
pub proof fn lemma_backoff_stays_bounded(start: u64, cap: u64, delay: u64)
    requires
        0 < start <= cap,
        start <= delay <= cap,
    ensures
        start <= (if 2 * delay < cap {
            2 * delay
        } else {
            cap as int
        }) <= cap,
        delay <= (if 2 * delay < cap {
            2 * delay
        } else {
            cap as int
        }),
{
}

/// The outcome of one round of the replay a listener runs after a reconnect:
/// whether the invoice, the payment and the on-chain synchronisation each
/// succeeded.
#[derive(Clone, Copy, Debug, PartialEq, Eq, Structural)]
pub struct ReplayRound {
    pub invoices_ok: bool,
    pub payments_ok: bool,
    pub onchain_ok: bool,
}

/// What the replay loop does after a round.
#[derive(Clone, Copy, Debug, PartialEq, Eq, Structural)]
pub enum ReplayAction {
    /// Every synchronisation succeeded: the replay is over.
    Done,
    /// Some synchronisation failed: wait this many milliseconds, then run
    /// another round.
    RetryAfter(u64),
}

/// The replay loop's state: the delay before the next retry and its cap, in
/// milliseconds.
#[derive(Clone, Copy, Debug, PartialEq, Eq, Structural)]
pub struct ReplayState {
    pub backoff_ms: u64,
    pub max_ms: u64,
}

/// A replay state whose delay is positive and within its cap.
pub open spec fn replay_state_wf(s: ReplayState) -> bool {
    0 < s.backoff_ms <= s.max_ms
}

/// The replay loop's state before its first round: the bounds of
/// `backoff_bounds`, starting at the minimum.
pub fn replay_start(min_ms: u64, max_ms: u64) -> (r: ReplayState)
    ensures
        r.backoff_ms == (if min_ms == 0 {
            100
        } else {
            min_ms
        }),
        r.max_ms == (if max_ms > r.backoff_ms {
            max_ms
        } else {
            r.backoff_ms
        }),
        replay_state_wf(r),
{
    let (min, max) = backoff_bounds(min_ms, max_ms);
    ReplayState { backoff_ms: min, max_ms: max }
}

/// The replay loop after a round: over when all three synchronisations
/// succeeded in it; otherwise it waits the current delay and doubles it, up
/// to the cap.
pub fn replay_step(s: ReplayState, round: ReplayRound) -> (r: (ReplayState, ReplayAction))
    requires
        replay_state_wf(s),
    ensures
        round.invoices_ok && round.payments_ok && round.onchain_ok ==> r == (s, ReplayAction::Done),
        !(round.invoices_ok && round.payments_ok && round.onchain_ok) ==> r == (
            ReplayState {
                backoff_ms: (if 2 * s.backoff_ms < s.max_ms {
                    2 * s.backoff_ms
                } else {
                    s.max_ms as int
                }) as u64,
                max_ms: s.max_ms,
            },
            ReplayAction::RetryAfter(s.backoff_ms),
        ),
        replay_state_wf(r.0),
{
    if round.invoices_ok && round.payments_ok && round.onchain_ok {
        (s, ReplayAction::Done)
    } else {
        let next = next_backoff(s.backoff_ms, s.max_ms);
        (ReplayState { backoff_ms: next, max_ms: s.max_ms }, ReplayAction::RetryAfter(s.backoff_ms))
    }
}

/// What a subscription's message loop met next: a text frame whose event
/// was processed, or whose processing failed with an error; a close frame;
/// another frame (ping, pong, binary); a transport error; the stream's end.
#[derive(Clone, Debug, PartialEq, Eq)]
pub enum StreamFrame {
    Processed,
    ProcessingFailed(LightningError),
    Close,
    Other,
    TransportError(String),
    Ended,
}

/// What the message loop does next: read another frame, or stop, cleanly or
/// with the subscription's error.
#[derive(Clone, Debug, PartialEq, Eq)]
pub enum StreamAction {
    Continue,
    Finish,
    Fail(LightningError),
}

/// The message loop after a frame: it goes on after a processed event and
/// after frames it ignores; it stops at the first event whose processing
/// failed, with that error, so that the supervisor replays before it
/// subscribes again; a close frame or the stream's end stop it cleanly, and a
/// transport error stops it as a `ConnectWebsocket` error.
pub fn stream_step(frame: StreamFrame) -> (r: StreamAction)
    ensures
        r == match frame {
            StreamFrame::Processed | StreamFrame::Other => StreamAction::Continue,
            StreamFrame::ProcessingFailed(e) => StreamAction::Fail(e),
            StreamFrame::Close | StreamFrame::Ended => StreamAction::Finish,
            StreamFrame::TransportError(m) => StreamAction::Fail(LightningError::ConnectWebsocket(m)),
        },
{
    match frame {
        StreamFrame::Processed | StreamFrame::Other => StreamAction::Continue,
        StreamFrame::ProcessingFailed(e) => StreamAction::Fail(e),
        StreamFrame::Close | StreamFrame::Ended => StreamAction::Finish,
        StreamFrame::TransportError(m) => StreamAction::Fail(LightningError::ConnectWebsocket(m)),
    }
}

/// What a websocket subscription does after its connection ends with an
/// error: configuration, connection, TLS and certificate errors end the
/// listener (as `Listener` errors with the same message); others are retried.
pub fn listener_error_outcome(err: LightningError) -> (r: Option<LightningError>)
    ensures
        match err {
            LightningError::ParseConfig(m) | LightningError::ConnectWebsocket(m)
            | LightningError::TLSConfig(m) | LightningError::ReadCertificates(
                m,
            ) => r == Some(LightningError::Listener(m)),
            _ => r is None,
        },
{
    match err {
        LightningError::ParseConfig(m) | LightningError::ConnectWebsocket(m)
        | LightningError::TLSConfig(m) | LightningError::ReadCertificates(m) => Some(
            LightningError::Listener(m),
        ),
        _ => None,
    }
}


/// The one-slot failure signal a websocket listener's callbacks report a
/// projection failure through: the first failure is kept until the
/// supervisor takes it, and failures signalled meanwhile are dropped.
#[derive(Clone, Debug, PartialEq, Eq)]
pub struct ListenerFailureSignal {
    pub pending: Option<LightningError>,
}

/// The signal after the failure `err` is reported: kept as an
/// `EventProcessing` failure unless one is already pending.
pub open spec fn signal_step(s: ListenerFailureSignal, err: String) -> ListenerFailureSignal {
    if s.pending is None {
        ListenerFailureSignal { pending: Some(LightningError::EventProcessing(err)) }
    } else {
        s
    }
}

impl ListenerFailureSignal {
    /// A signal with no failure pending.
    pub fn new() -> (r: Self)
        ensures
            r.pending is None,
    {
        ListenerFailureSignal { pending: None }
    }

    /// Reports that writing an event failed with the error text `err`: kept
    /// as an `EventProcessing` failure unless one is already pending.
    pub fn signal_listener_failure(&mut self, err: String)
        ensures
            *final(self) == signal_step(*old(self), err),
    {
        if self.pending.is_none() {
            self.pending = Some(LightningError::EventProcessing(err));
        }
    }

    /// Takes the pending failure, if any, leaving none pending.
    pub fn try_recv(&mut self) -> (r: Option<LightningError>)
        ensures
            r == old(self).pending,
            final(self).pending is None,
    {
        let r = self.pending.take();
        r
    }
}

/// Whatever failures are signalled after a first one, the supervisor
/// receives exactly the first, and nothing more until another is signalled.
pub proof fn lemma_first_failure_wins(first: String, later: Seq<String>)
    ensures
        ({
            let after = later.fold_left(
                ListenerFailureSignal { pending: Some(LightningError::EventProcessing(first)) },
                |s: ListenerFailureSignal, e: String| signal_step(s, e),
            );
            after.pending == Some(LightningError::EventProcessing(first))
        }),
    decreases later.len(),
{
    if later.len() > 0 {
        lemma_first_failure_wins(first, later.drop_last());
    }
}

} // verus!
