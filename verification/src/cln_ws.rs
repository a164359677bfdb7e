//! Core Lightning websocket notifications and the events they stand for.
use vstd::prelude::*;

use crate::chain::{outpoint_parse, parse_outpoint, sha256, sha256_digest};
use crate::cln_rest::secs_in_range;
use crate::domain::{BtcOutputEvent, LnInvoicePaidEvent, LnPayFailureEvent, LnPaySuccessEvent};
use crate::text::{hex_bytes, hex_decode, hex_encode, hex_lower, is_hex_text, str_eq};
use crate::time::{at_secs, utc_at_secs, utc_now, UtcTime};

verus! {

/// `invoice_payment` notification: the preimage (hex) and amount received.
#[derive(Clone, Debug, PartialEq, Eq)]
pub struct InvoicePayment {
    pub preimage: String,
    pub msat: u64,
}

/// `sendpay_success` notification.
#[derive(Clone, Debug, PartialEq, Eq)]
pub struct SendPaySuccess {
    pub amount_msat: u64,
    pub amount_sent_msat: u64,
    pub payment_hash: String,
    pub payment_preimage: String,
    pub completed_at: u64,
    pub status: String,
}

/// `sendpay_failure` notification.
#[derive(Clone, Debug, PartialEq, Eq)]
pub struct SendPayFailure {
    pub message: String,
    pub data: SendPayFailureData,
}

/// Payload of a `sendpay_failure` notification.
#[derive(Clone, Debug, PartialEq, Eq)]
pub struct SendPayFailureData {
    pub payment_hash: String,
    pub status: String,
}

/// `coin_movement` notification of a chain movement.
#[derive(Clone, Debug, PartialEq, Eq)]
pub struct ChainMovement {
    pub account_id: String,
    pub originating_account: Option<String>,
    pub spending_txid: Option<String>,
    pub primary_tag: String,
    pub utxo: String,
    pub output_msat: u64,
    pub blockheight: Option<u32>,
}

impl InvoicePayment {
    /// The invoice-paid event at `now`: the hash is the SHA-256 of the
    /// preimage, the amount is what was received, no fee.
    pub fn paid_event_at(self, now: UtcTime) -> (r: LnInvoicePaidEvent)
        requires
            is_hex_text(self.preimage@),
        ensures
            r.payment_hash@ == hex_lower(sha256_digest(hex_bytes(self.preimage@))),
            r.amount_received_msat == self.msat,
            r.fee_msat == 0,
            r.payment_time == now,
    {
        let preimage = match hex_decode(self.preimage.as_str()) {
            Some(b) => b,
            None => Vec::new(),
        };
        let digest = sha256(preimage.as_slice());
        LnInvoicePaidEvent {
            payment_hash: hex_encode(digest.as_slice()),
            amount_received_msat: self.msat,
            fee_msat: 0,
            payment_time: now,
        }
    }

    /// The invoice-paid event, timed now.
    pub fn into_paid_event(self) -> (r: LnInvoicePaidEvent)
        requires
            is_hex_text(self.preimage@),
        ensures
            r.payment_hash@ == hex_lower(sha256_digest(hex_bytes(self.preimage@))),
            r.amount_received_msat == self.msat,
            r.fee_msat == 0,
    {
        let now = utc_now();
        self.paid_event_at(now)
    }
}

impl SendPaySuccess {
    /// Whether the notification reports a completed payment; any other
    /// status ends the handling of the notification.
    pub fn is_complete(&self) -> (r: bool)
        ensures
            r == (self.status@ == "complete"@),
    {
        str_eq(self.status.as_str(), "complete")
    }

    /// The success event: the delivered amount, the fees (sent minus
    /// delivered), hash and preimage, completed at `completed_at`.
    pub fn into_success_event(self) -> (r: LnPaySuccessEvent)
        requires
            self.amount_sent_msat >= self.amount_msat,
            secs_in_range((self.completed_at as i64) as int),
        ensures
            r.amount_msat == self.amount_msat,
            r.fees_msat == self.amount_sent_msat - self.amount_msat,
            r.payment_hash == self.payment_hash,
            r.payment_preimage == self.payment_preimage,
            r.payment_time == at_secs((self.completed_at as i64) as int),
    {
        let payment_time = match utc_at_secs(self.completed_at as i64) {
            Some(t) => t,
            None => UtcTime { secs: 0, nanos: 0 },
        };
        LnPaySuccessEvent {
            amount_msat: self.amount_msat,
            fees_msat: self.amount_sent_msat - self.amount_msat,
            payment_hash: self.payment_hash,
            payment_preimage: self.payment_preimage,
            payment_time,
        }
    }
}

impl SendPayFailure {
    /// The failure event: the notification's message as reason. It is made
    /// whatever status the payload reports, since Core Lightning may report a
    /// failed payment with another status.
    pub fn into_failure_event(self) -> (r: LnPayFailureEvent)
        ensures
            r.reason == self.message,
            r.payment_hash == self.data.payment_hash,
    {
        LnPayFailureEvent { reason: self.message, payment_hash: self.data.payment_hash }
    }
}

impl ChainMovement {
    /// The output event for the movement's outpoint, amount in whole satoshis;
    /// none when the outpoint does not parse.
    pub fn into_output_event(self) -> (r: Option<BtcOutputEvent>)
        ensures
            match outpoint_parse(self.utxo@) {
                Some((t, v)) => r matches Some(e) && e.txid@ == t && e.output_index == v
                    && e.address is None && e.amount_sat == self.output_msat / 1000 && e.block_height
                    == self.blockheight,
                None => r is None,
            },
    {
        match parse_outpoint(self.utxo.as_str()) {
            Some((txid, vout)) => Some(
                BtcOutputEvent {
                    txid,
                    output_index: vout,
                    address: None,
                    amount_sat: self.output_msat / 1000,
                    block_height: self.blockheight,
                },
            ),
            None => None,
        }
    }
}

/// Whether a `coin_movement` notification is a chain movement (type
/// `chain_mvt`), the only kind that triggers an on-chain synchronisation.
pub fn is_chain_movement(movement_type: Option<&str>) -> (r: bool)
    ensures
        r == (movement_type matches Some(t) && t@ == "chain_mvt"@),
{
    match movement_type {
        Some(t) => str_eq(t, "chain_mvt"),
        None => false,
    }
}


/// The notifications one websocket message value carries, as parsed: a kind
/// that is absent or does not parse is none; a coin movement is given by its
/// `type`, if it has one.
#[derive(Clone, Debug, PartialEq, Eq)]
pub struct ClnWsNotification {
    pub invoice_payment: Option<InvoicePayment>,
    pub sendpay_success: Option<SendPaySuccess>,
    pub sendpay_failure: Option<SendPayFailure>,
    pub coin_movement: Option<Option<String>>,
}

/// What the listener writes for one message value, in this order: an
/// invoice paid, an outgoing payment, a failed payment, then an on-chain
/// synchronisation. `halt` ends the handling of the whole message (a
/// `sendpay_success` that is not complete); nothing after it is done.
#[derive(Clone, Debug, PartialEq, Eq)]
pub struct ClnWsPlan {
    pub invoice_paid: Option<LnInvoicePaidEvent>,
    pub halt: bool,
    pub outgoing_payment: Option<LnPaySuccessEvent>,
    pub failed_payment: Option<LnPayFailureEvent>,
    pub sync_onchain: bool,
}

/// Whether the notifications of a value can be mapped: an invoice payment's
/// preimage is hex; a complete payment's amount sent covers the amount
/// delivered and its completion second is representable.
pub open spec fn notification_mappable(n: ClnWsNotification) -> bool {
    &&& (n.invoice_payment matches Some(p) ==> is_hex_text(p.preimage@))
    &&& (n.sendpay_success matches Some(sp) ==> (sp.status@ == "complete"@ ==> (sp.amount_sent_msat
        >= sp.amount_msat && secs_in_range((sp.completed_at as i64) as int))))
}

/// The text of an optional string, as an optional string slice's.
pub open spec fn opt_str_of(o: Option<Option<String>>) -> Option<Seq<char>> {
    match o {
        Some(Some(t)) => Some(t@),
        _ => None,
    }
}

/// What the listener writes for one message value at `now`.
pub fn notification_plan(n: ClnWsNotification, now: UtcTime) -> (r: ClnWsPlan)
    requires
        notification_mappable(n),
    ensures
        match n.invoice_payment {
            Some(p) => r.invoice_paid matches Some(e) && e.payment_hash@ == hex_lower(
                sha256_digest(hex_bytes(p.preimage@)),
            ) && e.amount_received_msat == p.msat && e.fee_msat == 0 && e.payment_time == now,
            None => r.invoice_paid is None,
        },
        r.halt == (n.sendpay_success matches Some(sp) && sp.status@ != "complete"@),
        r.halt ==> r.outgoing_payment is None && r.failed_payment is None && !r.sync_onchain,
        !r.halt ==> match n.sendpay_success {
            Some(sp) => r.outgoing_payment matches Some(e) && e.amount_msat == sp.amount_msat
                && e.fees_msat == sp.amount_sent_msat - sp.amount_msat && e.payment_hash
                == sp.payment_hash && e.payment_preimage == sp.payment_preimage && e.payment_time
                == at_secs((sp.completed_at as i64) as int),
            None => r.outgoing_payment is None,
        },
        !r.halt ==> match n.sendpay_failure {
            Some(f) => r.failed_payment matches Some(e) && e.reason == f.message && e.payment_hash
                == f.data.payment_hash,
            None => r.failed_payment is None,
        },
        !r.halt ==> r.sync_onchain == (opt_str_of(n.coin_movement) == Some("chain_mvt"@)),
{
    let invoice_paid = match n.invoice_payment {
        Some(p) => Some(p.paid_event_at(now)),
        None => None,
    };
    let outgoing_payment = match n.sendpay_success {
        Some(sp) => {
            if !sp.is_complete() {
                return ClnWsPlan {
                    invoice_paid,
                    halt: true,
                    outgoing_payment: None,
                    failed_payment: None,
                    sync_onchain: false,
                };
            }
            Some(sp.into_success_event())
        },
        None => None,
    };
    let failed_payment = match n.sendpay_failure {
        Some(f) => Some(f.into_failure_event()),
        None => None,
    };
    let sync_onchain = match &n.coin_movement {
        Some(Some(t)) => is_chain_movement(Some(t.as_str())),
        _ => false,
    };
    ClnWsPlan { invoice_paid, halt: false, outgoing_payment, failed_payment, sync_onchain }
}

} // verus!

verus! {

/// What the websocket listener does next with one notification value. A
/// write that fails ends the message: the listener signals the failure
/// (`ListenerFailureSignal`) and disconnects, so that the supervisor replays.
#[derive(Clone, Debug, PartialEq, Eq)]
pub enum WsStep {
    /// Record the paid invoice.
    WriteInvoicePaid(LnInvoicePaidEvent),
    /// Record the outgoing payment.
    WriteOutgoingPayment(LnPaySuccessEvent),
    /// Record the failed payment.
    WriteFailedPayment(LnPayFailureEvent),
    /// Synchronise the on-chain wallet from the persisted cursor.
    SyncOnchain,
    /// Drop the rest of the message, later values included.
    EndMessage,
    /// The value is done: go on with the next one.
    NextValue,
}

/// The listener's next step on a value, its plan holding what is still to
/// do: the paid invoice first; then, unless the message halts there, the
/// outgoing payment, the failed payment and the on-chain synchronisation, in
/// that order. Each step taken is removed from the plan.
pub fn next_ws_step(plan: &mut ClnWsPlan) -> (r: WsStep)
    ensures
        match old(plan).invoice_paid {
            Some(e) => r == WsStep::WriteInvoicePaid(e) && *final(plan) == (ClnWsPlan {
                invoice_paid: None,
                ..*old(plan)
            }),
            None => if old(plan).halt {
                r == WsStep::EndMessage && *final(plan) == *old(plan)
            } else {
                match old(plan).outgoing_payment {
                    Some(e) => r == WsStep::WriteOutgoingPayment(e) && *final(plan) == (ClnWsPlan {
                        outgoing_payment: None,
                        ..*old(plan)
                    }),
                    None => match old(plan).failed_payment {
                        Some(e) => r == WsStep::WriteFailedPayment(e) && *final(plan) == (ClnWsPlan {
                            failed_payment: None,
                            ..*old(plan)
                        }),
                        None => if old(plan).sync_onchain {
                            r == WsStep::SyncOnchain && *final(plan) == (ClnWsPlan {
                                sync_onchain: false,
                                ..*old(plan)
                            })
                        } else {
                            r == WsStep::NextValue && *final(plan) == *old(plan)
                        },
                    },
                }
            },
        },
{
    if let Some(e) = plan.invoice_paid.take() {
        return WsStep::WriteInvoicePaid(e);
    }
    if plan.halt {
        return WsStep::EndMessage;
    }
    if let Some(e) = plan.outgoing_payment.take() {
        return WsStep::WriteOutgoingPayment(e);
    }
    if let Some(e) = plan.failed_payment.take() {
        return WsStep::WriteFailedPayment(e);
    }
    if plan.sync_onchain {
        plan.sync_onchain = false;
        return WsStep::SyncOnchain;
    }
    WsStep::NextValue
}

} // verus!
