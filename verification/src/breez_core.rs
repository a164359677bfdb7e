//! Breez SDK (Greenlight): the payments, invoices and events the wallet reads
//! (as plain data) and their verified mapping onto the wallet's model.
use vstd::prelude::*;

use crate::breez::{BreezAction, BreezListener};
use crate::cln_rest::secs_in_range;
use crate::domain::{
    Currency, Invoice, InvoiceStatus, Ledger, LnInvoice, LnInvoicePaidEvent, LnPayFailureEvent,
    LnPaySuccessEvent, LnPayment, Payment, PaymentStatus,
};
use crate::text::{hex_encode, hex_lower, opt_text};
use crate::time::{at_secs, utc_at_secs, UtcTime};

verus! {

/// The networks the Breez SDK runs on.
#[derive(Clone, Copy, Debug, PartialEq, Eq, Structural)]
pub enum BreezNetwork {
    Bitcoin,
    Testnet,
    Signet,
    Regtest,
}

/// Direction of a Breez payment.
#[derive(Clone, Copy, Debug, PartialEq, Eq, Structural)]
pub enum BreezPaymentType {
    Sent,
    Received,
    ClosedChannel,
}

/// State of a Breez payment.
#[derive(Clone, Copy, Debug, PartialEq, Eq, Structural)]
pub enum BreezPaymentStatus {
    Pending,
    Complete,
    Failed,
}

/// What a Breez payment carries: the preimage of a Lightning payment.
#[derive(Clone, Debug, PartialEq, Eq)]
pub enum BreezPaymentDetails {
    Ln { payment_preimage: String },
    ClosedChannel,
}

/// A Breez payment; `id` is its payment hash, amounts in millisatoshis, the
/// time in seconds.
#[derive(Clone, Debug, PartialEq, Eq)]
pub struct BreezPayment {
    pub id: String,
    pub payment_type: BreezPaymentType,
    pub payment_time: i64,
    pub amount_msat: u64,
    pub fee_msat: u64,
    pub status: BreezPaymentStatus,
    pub error: Option<String>,
    pub description: Option<String>,
    pub details: BreezPaymentDetails,
    pub metadata: Option<String>,
}

/// A BOLT 11 invoice as the Breez SDK decodes it.
#[derive(Clone, Debug, PartialEq, Eq)]
pub struct BreezLnInvoice {
    pub bolt11: String,
    pub network: BreezNetwork,
    pub payee_pubkey: String,
    pub payment_hash: String,
    pub description: Option<String>,
    pub description_hash: Option<String>,
    pub amount_msat: Option<u64>,
    pub timestamp: u64,
    pub expiry: u64,
    pub payment_secret: Vec<u8>,
    pub min_final_cltv_expiry_delta: u64,
}

/// A payment that failed, with the invoice it tried to pay.
#[derive(Clone, Debug, PartialEq, Eq)]
pub struct PaymentFailedData {
    pub error: String,
    pub node_id: String,
    pub invoice: Option<BreezLnInvoice>,
}

/// An event of the Breez SDK, as far as the wallet reads it.
#[derive(Clone, Debug, PartialEq, Eq)]
pub enum BreezEvent {
    InvoicePaid { payment_hash: String, bolt11: String, payment: Option<BreezPayment> },
    PaymentSucceed(BreezPayment),
    PaymentFailed(PaymentFailedData),
    Other,
}

/// Settings of the Breez (Greenlight) client.
#[derive(Clone, Debug, PartialEq, Eq)]
pub struct BreezClientConfig {
    pub api_key: String,
    pub working_dir: String,
    pub certs_dir: String,
    pub seed: String,
    pub log_in_file: bool,
    pub restore_only: bool,
}

/// The currency of a Breez network.
pub open spec fn breez_currency(n: BreezNetwork) -> Currency {
    match n {
        BreezNetwork::Bitcoin => Currency::Bitcoin,
        BreezNetwork::Regtest => Currency::Regtest,
        BreezNetwork::Signet => Currency::Signet,
        BreezNetwork::Testnet => Currency::BitcoinTestnet,
    }
}

impl BreezNetwork {
    /// The currency of this network.
    pub fn currency(self) -> (r: Currency)
        ensures
            r == breez_currency(self),
    {
        match self {
            BreezNetwork::Bitcoin => Currency::Bitcoin,
            BreezNetwork::Regtest => Currency::Regtest,
            BreezNetwork::Signet => Currency::Signet,
            BreezNetwork::Testnet => Currency::BitcoinTestnet,
        }
    }
}

/// The preimage of a payment: that of a Lightning payment.
pub open spec fn breez_preimage(d: BreezPaymentDetails) -> Option<Seq<char>> {
    match d {
        BreezPaymentDetails::Ln { payment_preimage } => Some(payment_preimage@),
        BreezPaymentDetails::ClosedChannel => None,
    }
}

/// The wallet payment a Breez payment stands for: its id as the payment hash,
/// the Lightning preimage, its amounts, error, description and metadata, paid
/// at its second; the status keeps its default (pending).
pub open spec fn payment_of_breez(p: BreezPayment, r: Payment) -> bool {
    &&& r.ledger == Ledger::Lightning
    &&& r.status == PaymentStatus::Pending
    &&& r.amount_msat == p.amount_msat
    &&& r.fee_msat == Some(p.fee_msat)
    &&& r.payment_time == Some(at_secs(p.payment_time as int))
    &&& r.error == p.error
    &&& r.description == p.description
    &&& r.lightning matches Some(l) && l.payment_hash == p.id && opt_text(l.payment_preimage)
        == breez_preimage(p.details) && l.metadata == p.metadata && l.ln_address is None
}

impl BreezPayment {
    /// The preimage of this payment, if it is a Lightning payment.
    pub fn preimage(&self) -> (r: Option<String>)
        ensures
            opt_text(r) == breez_preimage(self.details),
    {
        match &self.details {
            BreezPaymentDetails::Ln { payment_preimage } => Some(payment_preimage.clone()),
            BreezPaymentDetails::ClosedChannel => None,
        }
    }

    /// The wallet payment for this payment; its second must be representable.
    pub fn into_payment(self) -> (r: Payment)
        requires
            secs_in_range(self.payment_time as int),
        ensures
            payment_of_breez(self, r),
    {
        let payment_preimage = self.preimage();
        let payment_time = match utc_at_secs(self.payment_time) {
            Some(t) => t,
            None => {
                assert(false);
                UtcTime { secs: 0, nanos: 0 }
            },
        };
        Payment {
            ledger: Ledger::Lightning,
            status: PaymentStatus::Pending,
            amount_msat: self.amount_msat,
            fee_msat: Some(self.fee_msat),
            payment_time: Some(payment_time),
            error: self.error,
            description: self.description,
            lightning: Some(
                LnPayment {
                    ln_address: None,
                    payment_hash: self.id,
                    payment_preimage,
                    metadata: self.metadata,
                },
            ),
        }
    }

    /// The wallet payment `payment_by_hash` reports: the mapped payment with
    /// the Breez state as its status (complete settles, failed fails).
    pub fn into_looked_up_payment(self) -> (r: Payment)
        requires
            secs_in_range(self.payment_time as int),
        ensures
            exists|base: Payment|
                #[trigger] payment_of_breez(self, base) && r == (Payment {
                    status: match self.status {
                        BreezPaymentStatus::Complete => PaymentStatus::Settled,
                        BreezPaymentStatus::Failed => PaymentStatus::Failed,
                        BreezPaymentStatus::Pending => PaymentStatus::Pending,
                    },
                    ..base
                }),
    {
        let status = match self.status {
            BreezPaymentStatus::Complete => PaymentStatus::Settled,
            BreezPaymentStatus::Failed => PaymentStatus::Failed,
            BreezPaymentStatus::Pending => PaymentStatus::Pending,
        };
        let ghost p = self;
        let base = self.into_payment();
        let r = Payment { ledger: Ledger::Lightning, status, ..base };
        assert(payment_of_breez(p, base));
        r
    }

    /// The paid event for this received payment: its id as the hash, its
    /// amount and fee, at its second.
    pub fn paid_event(&self) -> (r: LnInvoicePaidEvent)
        requires
            secs_in_range(self.payment_time as int),
        ensures
            r.payment_hash@ == self.id@,
            r.amount_received_msat == self.amount_msat,
            r.fee_msat == self.fee_msat,
            r.payment_time == at_secs(self.payment_time as int),
    {
        let payment_time = match utc_at_secs(self.payment_time) {
            Some(t) => t,
            None => {
                assert(false);
                UtcTime { secs: 0, nanos: 0 }
            },
        };
        LnInvoicePaidEvent {
            payment_hash: self.id.clone(),
            amount_received_msat: self.amount_msat,
            fee_msat: self.fee_msat,
            payment_time,
        }
    }

    /// The success event for this sent payment: its id as the hash, its
    /// Lightning preimage (empty otherwise), amount and fees, at its second.
    pub fn success_event(&self) -> (r: LnPaySuccessEvent)
        requires
            secs_in_range(self.payment_time as int),
        ensures
            r.payment_hash@ == self.id@,
            Some(r.payment_preimage@) == breez_preimage(self.details) || (breez_preimage(self.details)
                is None && r.payment_preimage@.len() == 0),
            r.amount_msat == self.amount_msat,
            r.fees_msat == self.fee_msat,
            r.payment_time == at_secs(self.payment_time as int),
    {
        let payment_time = match utc_at_secs(self.payment_time) {
            Some(t) => t,
            None => {
                assert(false);
                UtcTime { secs: 0, nanos: 0 }
            },
        };
        let payment_preimage = match self.preimage() {
            Some(p) => p,
            None => String::new(),
        };
        LnPaySuccessEvent {
            amount_msat: self.amount_msat,
            fees_msat: self.fee_msat,
            payment_hash: self.id.clone(),
            payment_preimage,
            payment_time,
        }
    }
}

impl PaymentFailedData {
    /// The failure event for this failed payment: its error as the reason and
    /// the hash of the invoice it tried to pay (which it must carry).
    pub fn failure_event(&self) -> (r: LnPayFailureEvent)
        requires
            self.invoice is Some,
        ensures
            r.reason@ == self.error@,
            r.payment_hash@ == self.invoice->0.payment_hash@,
    {
        let payment_hash = match &self.invoice {
            Some(i) => i.payment_hash.clone(),
            None => {
                assert(false);
                String::new()
            },
        };
        LnPayFailureEvent { reason: self.error.clone(), payment_hash }
    }
}

/// The wallet invoice a decoded Breez invoice stands for: its network's
/// currency, created at its second and expiring `expiry` seconds later.
pub open spec fn invoice_of_breez_ln(i: BreezLnInvoice, r: Invoice) -> bool {
    &&& r.ledger == Ledger::Lightning
    &&& r.currency == breez_currency(i.network)
    &&& r.description == i.description
    &&& r.amount_msat == i.amount_msat
    &&& r.amount_received_msat is None
    &&& r.fee_msat is None
    &&& r.timestamp == at_secs(i.timestamp as int)
    &&& r.status == InvoiceStatus::Pending
    &&& r.payment_time is None
    &&& r.ln_invoice matches Some(ln) && ln.bolt11 == i.bolt11 && ln.payee_pubkey == i.payee_pubkey
        && ln.payment_hash == i.payment_hash && ln.description_hash == i.description_hash
        && ln.payment_secret@ == hex_lower(i.payment_secret@) && ln.min_final_cltv_expiry_delta
        == i.min_final_cltv_expiry_delta && ln.expiry_secs == i.expiry && ln.expires_at == at_secs(
        i.timestamp + i.expiry,
    )
}

impl BreezLnInvoice {
    /// The wallet invoice for this decoded invoice; its creation and expiry
    /// seconds must be representable instants.
    pub fn into_invoice(self) -> (r: Invoice)
        requires
            self.timestamp + self.expiry <= 8_210_266_876_799,
        ensures
            invoice_of_breez_ln(self, r),
    {
        let timestamp = match utc_at_secs(self.timestamp as i64) {
            Some(t) => t,
            None => {
                assert(false);
                UtcTime { secs: 0, nanos: 0 }
            },
        };
        let expires_at = match utc_at_secs((self.timestamp + self.expiry) as i64) {
            Some(t) => t,
            None => {
                assert(false);
                UtcTime { secs: 0, nanos: 0 }
            },
        };
        Invoice {
            ledger: Ledger::Lightning,
            currency: self.network.currency(),
            description: self.description,
            amount_msat: self.amount_msat,
            amount_received_msat: None,
            fee_msat: None,
            timestamp,
            status: InvoiceStatus::Pending,
            payment_time: None,
            ln_invoice: Some(
                LnInvoice {
                    bolt11: self.bolt11,
                    payee_pubkey: self.payee_pubkey,
                    payment_hash: self.payment_hash,
                    description_hash: self.description_hash,
                    payment_secret: hex_encode(self.payment_secret.as_slice()),
                    min_final_cltv_expiry_delta: self.min_final_cltv_expiry_delta,
                    expiry_secs: self.expiry,
                    expires_at,
                },
            ),
        }
    }
}

/// Whether the times and invoices that an event's mapping reads are usable:
/// the second of a complete received payment of a paid invoice, and of a
/// complete sent payment, is representable; a failure carries its invoice.
/// Events that are ignored read nothing.
pub open spec fn breez_event_mappable(e: BreezEvent) -> bool {
    match e {
        BreezEvent::InvoicePaid { payment: Some(p), .. } => p.status == BreezPaymentStatus::Complete
            && p.payment_type == BreezPaymentType::Received ==> secs_in_range(p.payment_time as int),
        BreezEvent::PaymentSucceed(p) => p.status == BreezPaymentStatus::Complete && p.payment_type
            == BreezPaymentType::Sent ==> secs_in_range(p.payment_time as int),
        BreezEvent::PaymentFailed(d) => d.invoice is Some,
        _ => true,
    }
}

/// What the listener does for a Breez SDK event: a paid invoice whose payment
/// is complete and received is recorded as paid; a succeeded payment that is
/// complete and sent as outgoing; a failed payment as a failure; anything
/// else (a missing payment, another status or direction, other events) does
/// nothing.
pub open spec fn breez_action_of(e: BreezEvent, r: Option<BreezAction>) -> bool {
    match e {
        BreezEvent::InvoicePaid { payment, .. } => match payment {
            Some(p) => if p.status == BreezPaymentStatus::Complete && p.payment_type
                == BreezPaymentType::Received {
                r matches Some(BreezAction::InvoicePaid(ev)) && ev.payment_hash@ == p.id@
                    && ev.amount_received_msat == p.amount_msat && ev.fee_msat == p.fee_msat
                    && ev.payment_time == at_secs(p.payment_time as int)
            } else {
                r is None
            },
            None => r is None,
        },
        BreezEvent::PaymentSucceed(p) => if p.status == BreezPaymentStatus::Complete && p.payment_type
            == BreezPaymentType::Sent {
            r matches Some(BreezAction::OutgoingPayment(ev)) && ev.payment_hash@ == p.id@
                && ev.amount_msat == p.amount_msat && ev.fees_msat == p.fee_msat && ev.payment_time
                == at_secs(p.payment_time as int)
        } else {
            r is None
        },
        BreezEvent::PaymentFailed(d) => r matches Some(BreezAction::FailedPayment(f)) && f.reason@
            == d.error@ && f.payment_hash@ == d.invoice->0.payment_hash@,
        BreezEvent::Other => r is None,
    }
}

/// The Breez listener records a paid invoice only for a complete received
/// payment and an outgoing payment only for a complete sent one, with the
/// payment's hash and amounts; a failed payment is recorded as a failure,
/// and nothing else is recorded.
pub proof fn lemma_breez_action_follows_direction(e: BreezEvent, r: Option<BreezAction>)
    requires
        breez_action_of(e, r),
    ensures
        r matches Some(BreezAction::InvoicePaid(ev)) ==> (e matches BreezEvent::InvoicePaid { payment: Some(p), .. }
            && p.status == BreezPaymentStatus::Complete && p.payment_type == BreezPaymentType::Received
            && ev.payment_hash@ == p.id@ && ev.amount_received_msat == p.amount_msat),
        r matches Some(BreezAction::OutgoingPayment(ev)) ==> (e matches BreezEvent::PaymentSucceed(p)
            && p.status == BreezPaymentStatus::Complete && p.payment_type == BreezPaymentType::Sent
            && ev.payment_hash@ == p.id@ && ev.amount_msat == p.amount_msat),
        r matches Some(BreezAction::FailedPayment(_)) <==> e is PaymentFailed,
        !(r matches Some(BreezAction::OnchainDeposit(_, _))) && !(r matches Some(BreezAction::OnchainWithdrawal(_))),
{
}

impl BreezListener {
    /// The action for a Breez SDK event.
    pub fn on_breez_event(&self, e: &BreezEvent) -> (r: Option<BreezAction>)
        requires
            breez_event_mappable(*e),
        ensures
            breez_action_of(*e, r),
    {
        match e {
            BreezEvent::InvoicePaid { payment, .. } => match payment {
                Some(p) => {
                    if p.status == BreezPaymentStatus::Complete && p.payment_type == BreezPaymentType::Received {
                        Some(BreezAction::InvoicePaid(p.paid_event()))
                    } else {
                        None
                    }
                },
                None => None,
            },
            BreezEvent::PaymentSucceed(p) => {
                if p.status == BreezPaymentStatus::Complete && p.payment_type == BreezPaymentType::Sent {
                    Some(BreezAction::OutgoingPayment(p.success_event()))
                } else {
                    None
                }
            },
            BreezEvent::PaymentFailed(d) => Some(BreezAction::FailedPayment(d.failure_event())),
            BreezEvent::Other => None,
        }
    }
}

} // verus!
