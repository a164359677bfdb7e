//! Core Lightning gRPC API: the messages the wallet reads (as plain data) and
//! the verified decisions of the gRPC client and listener.
use vstd::prelude::*;

use crate::bolt11::{bolt11_decodes, bolt11_fields_of, bolt11_fields_wf, invoice_from_bolt11, invoice_of_bolt11, Bolt11Fields};
use crate::chain::{sha256, sha256_digest};
use crate::cln_rest::{sat_sub, secs_in_range};
use crate::domain::{
    BitcoinError, BtcAddressType, BtcOutput, BtcOutputStatus, Invoice, InvoiceStatus, Ledger, LnInvoicePaidEvent,
    LnPayFailureEvent, LnPaySuccessEvent, LnPayment, OnchainSyncCursor, OnchainWithdrawalEvent,
    Payment, PaymentStatus,
};
use crate::text::{hex_encode, hex_lower, opt_text};
use crate::time::{at_secs, utc_at_secs, utc_at_secs_or, utc_now, UtcTime};

verus! {

/// An amount in millisatoshis.
#[derive(Clone, Copy, Debug, PartialEq, Eq, Structural)]
pub struct Amount {
    pub msat: u64,
}

/// The msat of an optional amount, or `default`.
pub open spec fn msat_or(a: Option<Amount>, default: u64) -> u64 {
    match a {
        Some(x) => x.msat,
        None => default,
    }
}

/// `xpay` response: raw preimage and the delivered / sent amounts.
#[derive(Clone, Debug, PartialEq, Eq)]
pub struct XpayResponse {
    pub payment_preimage: Vec<u8>,
    pub failed_parts: u64,
    pub successful_parts: u64,
    pub amount_msat: Option<Amount>,
    pub amount_sent_msat: Option<Amount>,
}

/// The wallet payment an `xpay` result stands for at `now`: the delivered
/// amount (zero when absent), the fee as amount sent (defaulting to the
/// delivered amount) minus delivered, and the payment hash as the SHA-256 of
/// the preimage.
pub open spec fn payment_of_grpc_xpay(x: XpayResponse, now: UtcTime, p: Payment) -> bool {
    let amount = msat_or(x.amount_msat, 0);
    let sent = msat_or(x.amount_sent_msat, amount);
    &&& p.ledger == Ledger::Lightning
    &&& p.status == PaymentStatus::Pending
    &&& p.amount_msat == amount
    &&& p.fee_msat == Some(sat_sub(sent, amount))
    &&& p.payment_time == Some(now)
    &&& p.error is None
    &&& p.description is None
    &&& p.lightning matches Some(l) && l.payment_hash@ == hex_lower(
        sha256_digest(x.payment_preimage@),
    ) && opt_text(l.payment_preimage) == Some(hex_lower(x.payment_preimage@))
        && l.ln_address is None && l.metadata is None
}

impl XpayResponse {
    /// The wallet payment for this `xpay` result, stamped with `now`.
    pub fn payment_at(self, now: UtcTime) -> (r: Payment)
        ensures
            payment_of_grpc_xpay(self, now, r),
    {
        let amount_msat = match self.amount_msat {
            Some(a) => a.msat,
            None => 0,
        };
        let amount_sent_msat = match self.amount_sent_msat {
            Some(a) => a.msat,
            None => amount_msat,
        };
        let digest = sha256(self.payment_preimage.as_slice());
        Payment {
            ledger: Ledger::Lightning,
            status: PaymentStatus::Pending,
            amount_msat,
            fee_msat: Some(amount_sent_msat.saturating_sub(amount_msat)),
            payment_time: Some(now),
            error: None,
            description: None,
            lightning: Some(
                LnPayment {
                    ln_address: None,
                    payment_hash: hex_encode(digest.as_slice()),
                    payment_preimage: Some(hex_encode(self.payment_preimage.as_slice())),
                    metadata: None,
                },
            ),
        }
    }

    /// The wallet payment for this `xpay` result, stamped with the current time.
    pub fn into_payment(self) -> (r: Payment)
        ensures
            exists|now: UtcTime| #[trigger] payment_of_grpc_xpay(self, now, r),
    {
        let now = utc_now();
        let p = self.payment_at(now);
        assert(payment_of_grpc_xpay(self, now, p));
        p
    }
}

/// A gRPC `xpay` payment debits exactly what was sent, when the amount
/// sent covers the delivered amount.
pub proof fn lemma_grpc_xpay_debit_is_amount_sent(x: XpayResponse, now: UtcTime, p: Payment)
    requires
        payment_of_grpc_xpay(x, now, p),
        msat_or(x.amount_sent_msat, msat_or(x.amount_msat, 0)) >= msat_or(x.amount_msat, 0),
    ensures
        p.amount_msat + p.fee_msat->0 == msat_or(x.amount_sent_msat, msat_or(x.amount_msat, 0)),
{
}

/// Status of a `listinvoices` entry.
#[derive(Clone, Copy, Debug, PartialEq, Eq, Structural)]
pub enum ListinvoicesInvoicesStatus {
    Unpaid,
    Paid,
    Expired,
}

/// One invoice of `listinvoices`.
#[derive(Clone, Debug, PartialEq, Eq)]
pub struct ListinvoicesInvoices {
    pub bolt11: Option<String>,
    pub status: ListinvoicesInvoicesStatus,
    pub paid_at: Option<u64>,
    pub amount_received_msat: Option<Amount>,
}

/// A `listinvoices` status applied to the decoded invoice: paid settles it at
/// `paid_at` (zero when absent) with the amount received as its amount, unpaid
/// keeps it pending, expired expires it.
pub open spec fn grpc_status_applied(base: Invoice, e: ListinvoicesInvoices, r: Invoice) -> bool {
    match e.status {
        ListinvoicesInvoicesStatus::Paid => r == Invoice {
            status: InvoiceStatus::Settled,
            payment_time: Some(at_secs((msat_or_zero_u64(e.paid_at) as i64) as int)),
            amount_msat: Some(e.amount_received_msat->0.msat),
            ..base
        },
        ListinvoicesInvoicesStatus::Unpaid => r == Invoice { status: InvoiceStatus::Pending, ..base },
        ListinvoicesInvoicesStatus::Expired => r == Invoice { status: InvoiceStatus::Expired, ..base },
    }
}

/// A `listinvoices` status decides the invoice's status: paid settles it
/// with the amount received as its amount, unpaid keeps it pending, expired
/// expires it; the rest of the decoded invoice is kept.
pub proof fn lemma_grpc_status_decides(base: Invoice, e: ListinvoicesInvoices, r: Invoice)
    requires
        grpc_status_applied(base, e, r),
    ensures
        r.status == InvoiceStatus::Settled <==> e.status == ListinvoicesInvoicesStatus::Paid,
        r.status == InvoiceStatus::Pending <==> e.status == ListinvoicesInvoicesStatus::Unpaid,
        r.status == InvoiceStatus::Expired <==> e.status == ListinvoicesInvoicesStatus::Expired,
        e.status == ListinvoicesInvoicesStatus::Paid ==> r.payment_time is Some,
        r.ledger == base.ledger && r.description == base.description && r.timestamp == base.timestamp
            && r.ln_invoice == base.ln_invoice,
{
}

/// A finished send-pay keeps its outcome: settled exactly when complete,
/// failed (with an error) exactly when failed, for the looked-up hash.
pub proof fn lemma_sendpay_keeps_outcome(e: ListsendpaysPayments, hash: Seq<char>, now: UtcTime, p: Payment)
    requires
        sendpay_is_final(e),
        payment_of_sendpay(e, hash, now, p),
    ensures
        p.status == PaymentStatus::Settled <==> e.status == ListsendpaysPaymentsStatus::Complete,
        p.status == PaymentStatus::Failed <==> e.status == ListsendpaysPaymentsStatus::Failed,
        p.error is Some <==> e.status == ListsendpaysPaymentsStatus::Failed,
        p.lightning matches Some(l) && l.payment_hash@ == hash,
{
}

/// An optional number, or zero.
pub open spec fn msat_or_zero_u64(o: Option<u64>) -> u64 {
    match o {
        Some(v) => v,
        None => 0,
    }
}

/// Whether a paid entry carries what settling it needs: a payment second in
/// range and the amount received.
pub open spec fn grpc_status_applicable(e: ListinvoicesInvoices) -> bool {
    e.status == ListinvoicesInvoicesStatus::Paid ==> (secs_in_range(
        (msat_or_zero_u64(e.paid_at) as i64) as int,
    ) && e.amount_received_msat is Some)
}

impl ListinvoicesInvoices {
    /// The wallet invoice for this entry: its BOLT 11 text decoded, then its
    /// status applied. Fails where the text is missing or does not decode, and
    /// where a paid entry lacks a usable payment time or amount.
    pub fn into_invoice(self) -> (r: Result<Invoice, String>)
        ensures
            r is Ok <==> (self.bolt11 matches Some(b) && bolt11_decodes(b@) && grpc_status_applicable(self)),
            self.bolt11 is None ==> (r matches Err(e) && e@ == "invoice without bolt11"@),
            r matches Ok(inv) ==> (self.bolt11 matches Some(b) && exists|f: Bolt11Fields, base: Invoice|
                bolt11_fields_of(f, b@) && bolt11_fields_wf(f) && #[trigger] invoice_of_bolt11(f, base)
                    && #[trigger] grpc_status_applied(base, self, inv)),
    {
        let bolt11 = match &self.bolt11 {
            Some(b) => b,
            None => return Err("invoice without bolt11".to_string()),
        };
        let base = match invoice_from_bolt11(bolt11.as_str()) {
            Ok(inv) => inv,
            Err(e) => return Err(e),
        };
        let ghost f = choose|f: Bolt11Fields|
            bolt11_fields_of(f, bolt11@) && bolt11_fields_wf(f) && crate::bolt11::bolt11_expiry_in_range(f)
                && #[trigger] invoice_of_bolt11(f, base);
        let r = match self.status {
            ListinvoicesInvoicesStatus::Paid => {
                let paid_at = match self.paid_at {
                    Some(t) => t,
                    None => 0,
                };
                let time = match utc_at_secs(paid_at as i64) {
                    Some(t) => t,
                    None => return Err("payment time out of range".to_string()),
                };
                let received = match self.amount_received_msat {
                    Some(a) => a.msat,
                    None => return Err("paid invoice without amount".to_string()),
                };
                Invoice {
                    status: InvoiceStatus::Settled,
                    payment_time: Some(time),
                    amount_msat: Some(received),
                    ..base
                }
            },
            ListinvoicesInvoicesStatus::Unpaid => Invoice { status: InvoiceStatus::Pending, ..base },
            ListinvoicesInvoicesStatus::Expired => Invoice { status: InvoiceStatus::Expired, ..base },
        };
        assert(invoice_of_bolt11(f, base) && grpc_status_applied(base, self, r));
        Ok(r)
    }
}

/// `waitinvoice` response status.
#[derive(Clone, Copy, Debug, PartialEq, Eq, Structural)]
pub enum WaitinvoiceStatus {
    Paid,
    Expired,
}

/// `waitinvoice` response.
#[derive(Clone, Debug, PartialEq, Eq)]
pub struct WaitinvoiceResponse {
    pub payment_hash: Vec<u8>,
    pub amount_received_msat: Option<Amount>,
    pub paid_at: Option<u64>,
    pub status: WaitinvoiceStatus,
}

impl WaitinvoiceResponse {
    /// The invoice-paid event for a paid `waitinvoice` response: the hash as
    /// hex, the amount received, no fee, paid at `paid_at` (zero when absent).
    pub fn into_paid_event(self) -> (r: LnInvoicePaidEvent)
        requires
            self.amount_received_msat is Some,
            secs_in_range((msat_or_zero_u64(self.paid_at) as i64) as int),
        ensures
            r.payment_hash@ == hex_lower(self.payment_hash@),
            r.amount_received_msat == self.amount_received_msat->0.msat,
            r.fee_msat == 0,
            r.payment_time == at_secs((msat_or_zero_u64(self.paid_at) as i64) as int),
    {
        let paid_at = match self.paid_at {
            Some(t) => t,
            None => 0,
        };
        let payment_time = match utc_at_secs(paid_at as i64) {
            Some(t) => t,
            None => UtcTime { secs: 0, nanos: 0 },
        };
        LnInvoicePaidEvent {
            payment_hash: hex_encode(self.payment_hash.as_slice()),
            amount_received_msat: match self.amount_received_msat {
                Some(a) => a.msat,
                None => 0,
            },
            fee_msat: 0,
            payment_time,
        }
    }
}

/// Status of a `listfunds` output.
#[derive(Clone, Copy, Debug, PartialEq, Eq, Structural)]
pub enum ListfundsOutputsStatus {
    Unconfirmed,
    Confirmed,
    Spent,
    Immature,
}

/// The wallet's output status for a `listfunds` status, one for one.
pub fn output_status(s: ListfundsOutputsStatus) -> (r: BtcOutputStatus)
    ensures
        r == match s {
            ListfundsOutputsStatus::Unconfirmed => BtcOutputStatus::Unconfirmed,
            ListfundsOutputsStatus::Confirmed => BtcOutputStatus::Confirmed,
            ListfundsOutputsStatus::Spent => BtcOutputStatus::Spent,
            ListfundsOutputsStatus::Immature => BtcOutputStatus::Immature,
        },
{
    match s {
        ListfundsOutputsStatus::Unconfirmed => BtcOutputStatus::Unconfirmed,
        ListfundsOutputsStatus::Confirmed => BtcOutputStatus::Confirmed,
        ListfundsOutputsStatus::Spent => BtcOutputStatus::Spent,
        ListfundsOutputsStatus::Immature => BtcOutputStatus::Immature,
    }
}

/// Status of a `listsendpays` entry.
#[derive(Clone, Copy, Debug, PartialEq, Eq, Structural)]
pub enum ListsendpaysPaymentsStatus {
    Pending,
    Failed,
    Complete,
}

/// One entry of `listsendpays`.
#[derive(Clone, Debug, PartialEq, Eq)]
pub struct ListsendpaysPayments {
    pub status: ListsendpaysPaymentsStatus,
    pub amount_msat: Option<Amount>,
    pub amount_sent_msat: Option<Amount>,
    pub created_at: u64,
    pub completed_at: Option<u64>,
    pub payment_preimage: Option<Vec<u8>>,
}

/// The instant for a node second: the second itself when it is below 2^63 and
/// in range, else `now`.
pub open spec fn node_time_or(v: u64, now: UtcTime) -> UtcTime {
    if v < 0x8000_0000_0000_0000 && secs_in_range(v as int) {
        at_secs(v as int)
    } else {
        now
    }
}

/// The instant for a node second, falling back to `now`.
pub fn node_time(v: u64, now: UtcTime) -> (r: UtcTime)
    ensures
        r == node_time_or(v, now),
{
    if v < 0x8000_0000_0000_0000u64 {
        utc_at_secs_or(v as i64, now)
    } else {
        now
    }
}

/// Whether a `listsendpays` entry is finished.
pub open spec fn sendpay_is_final(e: ListsendpaysPayments) -> bool {
    e.status == ListsendpaysPaymentsStatus::Complete || e.status == ListsendpaysPaymentsStatus::Failed
}

/// The wallet payment a finished `listsendpays` entry stands for: settled or
/// failed with its status, the delivered amount as amount, what was sent
/// beyond it as fee (so that the two add up to the amount sent), timed at
/// completion (or creation).
pub open spec fn payment_of_sendpay(e: ListsendpaysPayments, hash: Seq<char>, now: UtcTime, p: Payment) -> bool {
    let amount = msat_or(e.amount_msat, 0);
    let sent = msat_or(e.amount_sent_msat, 0);
    let t = match e.completed_at {
        Some(c) => c,
        None => e.created_at,
    };
    &&& p.ledger == Ledger::Lightning
    &&& p.status == (if e.status == ListsendpaysPaymentsStatus::Complete {
        PaymentStatus::Settled
    } else {
        PaymentStatus::Failed
    })
    &&& p.amount_msat == amount
    &&& p.fee_msat == Some(sat_sub(sent, amount))
    &&& p.payment_time == Some(node_time_or(t, now))
    &&& opt_text(p.error) == (if e.status == ListsendpaysPaymentsStatus::Failed {
        Some("Payment failed"@)
    } else {
        None
    })
    &&& p.description is None
    &&& p.lightning matches Some(l) && l.payment_hash@ == hash && opt_text(l.payment_preimage)
        == match e.payment_preimage {
        Some(b) => Some(hex_lower(b@)),
        None => None,
    } && l.ln_address is None && l.metadata is None
}

/// A finished send-pay debits exactly what was sent: when the amount sent
/// covers the delivered amount, the recorded amount plus the recorded fee is
/// the amount sent, so the routing fee is counted once.
pub proof fn lemma_sendpay_debit_is_amount_sent(e: ListsendpaysPayments, hash: Seq<char>, now: UtcTime, p: Payment)
    requires
        payment_of_sendpay(e, hash, now, p),
        msat_or(e.amount_sent_msat, 0) >= msat_or(e.amount_msat, 0),
    ensures
        p.amount_msat + p.fee_msat->0 == msat_or(e.amount_sent_msat, 0),
{
}

/// The payment `payment_by_hash` reports from `listsendpays` (already
/// filtered by hash): the first finished entry, mapped by `payment_of_sendpay`.
pub fn payment_from_sendpays(
    payments: &Vec<ListsendpaysPayments>,
    payment_hash: &str,
    now: UtcTime,
) -> (r: Option<Payment>)
    ensures
        r is None <==> forall|i: int| 0 <= i < payments@.len() ==> !sendpay_is_final(#[trigger] payments@[i]),
        r matches Some(p) ==> exists|i: int|
            0 <= i < payments@.len() && sendpay_is_final(#[trigger] payments@[i]) && (forall|j: int|
                0 <= j < i ==> !sendpay_is_final(#[trigger] payments@[j])) && payment_of_sendpay(
                payments@[i],
                payment_hash@,
                now,
                p,
            ),
{
    let mut i: usize = 0;
    while i < payments.len()
        invariant
            i <= payments@.len(),
            forall|j: int| 0 <= j < i ==> !sendpay_is_final(#[trigger] payments@[j]),
        decreases payments@.len() - i,
    {
        let e = &payments[i];
        let complete = e.status == ListsendpaysPaymentsStatus::Complete;
        let failed = e.status == ListsendpaysPaymentsStatus::Failed;
        if complete || failed {
            let amount_msat = match e.amount_msat {
                Some(a) => a.msat,
                None => 0,
            };
            let amount_sent_msat = match e.amount_sent_msat {
                Some(a) => a.msat,
                None => 0,
            };
            let t = match e.completed_at {
                Some(c) => c,
                None => e.created_at,
            };
            let p = Payment {
                ledger: Ledger::Lightning,
                status: if complete { PaymentStatus::Settled } else { PaymentStatus::Failed },
                amount_msat,
                fee_msat: Some(amount_sent_msat.saturating_sub(amount_msat)),
                payment_time: Some(node_time(t, now)),
                error: if failed { Some("Payment failed".to_string()) } else { None },
                description: None,
                lightning: Some(
                    LnPayment {
                        ln_address: None,
                        payment_hash: payment_hash.to_string(),
                        payment_preimage: match &e.payment_preimage {
                            Some(b) => Some(hex_encode(b.as_slice())),
                            None => None,
                        },
                        metadata: None,
                    },
                ),
            };
            assert(sendpay_is_final(payments@[i as int]));
            return Some(p);
        }
        i = i + 1;
    }
    None
}

/// The `newaddr` address type the gRPC client asks for: taproot for P2TR,
/// bech32 for every other type.
#[derive(Clone, Copy, Debug, PartialEq, Eq, Structural)]
pub enum NewaddrAddresstype {
    Bech32,
    P2tr,
}

/// The `newaddr` address type for a wallet address type.
pub fn map_address_type(t: BtcAddressType) -> (r: Option<NewaddrAddresstype>)
    ensures
        r == Some(if t == BtcAddressType::P2tr {
            NewaddrAddresstype::P2tr
        } else {
            NewaddrAddresstype::Bech32
        }),
{
    match t {
        BtcAddressType::P2tr => Some(NewaddrAddresstype::P2tr),
        _ => Some(NewaddrAddresstype::Bech32),
    }
}

} // verus!

verus! {

/// Status of an invoice in a `wait` update.
#[derive(Clone, Copy, Debug, PartialEq, Eq, Structural)]
pub enum WaitInvoicesStatus {
    Unpaid,
    Paid,
    Expired,
}

/// The invoice part of a `wait` update.
#[derive(Clone, Debug, PartialEq, Eq)]
pub struct WaitInvoices {
    pub status: WaitInvoicesStatus,
    pub label: Option<String>,
}

/// Status of a sendpay in a `wait` update.
#[derive(Clone, Copy, Debug, PartialEq, Eq, Structural)]
pub enum WaitSendpaysStatus {
    Pending,
    Failed,
    Complete,
}

/// The sendpay part of a `wait` update.
#[derive(Clone, Debug, PartialEq, Eq)]
pub struct WaitSendpays {
    pub payment_hash: Option<Vec<u8>>,
    pub partid: Option<u64>,
    pub groupid: Option<u64>,
    pub status: WaitSendpaysStatus,
}

/// A `wait` response: the index reached and what changed.
#[derive(Clone, Debug, PartialEq, Eq)]
pub struct WaitResponse {
    pub updated: Option<u64>,
    pub created: Option<u64>,
    pub invoices: Option<WaitInvoices>,
    pub sendpays: Option<WaitSendpays>,
}

/// The index the next `wait` asks for after a response: one past the updated
/// index it reports, or the same index when it reports none.
pub open spec fn next_wait_index(next: u64, updated: Option<u64>) -> u64 {
    match updated {
        Some(i) => if i < u64::MAX {
            (i + 1) as u64
        } else {
            u64::MAX
        },
        None => next,
    }
}

/// What the invoice listener does with a `wait` update.
#[derive(Clone, Debug, PartialEq, Eq)]
pub enum InvoiceWaitAction {
    /// Nothing to do.
    Nothing,
    /// A paid update without a label: warn and go on.
    MissingLabel,
    /// An update without invoice details after the first: warn and go on.
    MissingDetails,
    /// A paid update: wait for the invoice with this label and report it.
    WaitInvoice(String),
}

/// One step of the invoice listener: what to do with an update and the index
/// to wait for next.
pub fn invoice_wait_step(next: u64, resp: &WaitResponse) -> (r: (InvoiceWaitAction, u64))
    ensures
        r.1 == next_wait_index(next, resp.updated),
        match resp.invoices {
            Some(inv) => match inv.status {
                WaitInvoicesStatus::Paid => match inv.label {
                    Some(l) => r.0 matches InvoiceWaitAction::WaitInvoice(x) && x@ == l@,
                    None => r.0 == InvoiceWaitAction::MissingLabel,
                },
                _ => r.0 == InvoiceWaitAction::Nothing,
            },
            None => r.0 == (if next != 0 {
                InvoiceWaitAction::MissingDetails
            } else {
                InvoiceWaitAction::Nothing
            }),
        },
{
    let next_index = match resp.updated {
        Some(i) => i.saturating_add(1),
        None => next,
    };
    let action = match &resp.invoices {
        Some(inv) => match inv.status {
            WaitInvoicesStatus::Paid => match &inv.label {
                Some(l) => InvoiceWaitAction::WaitInvoice(l.clone()),
                None => InvoiceWaitAction::MissingLabel,
            },
            _ => InvoiceWaitAction::Nothing,
        },
        None => if next != 0 {
            InvoiceWaitAction::MissingDetails
        } else {
            InvoiceWaitAction::Nothing
        },
    };
    (action, next_index)
}

/// What the sendpay listener does with a `wait` update.
#[derive(Clone, Debug, PartialEq, Eq)]
pub enum SendpayWaitAction {
    /// Nothing to do.
    Nothing,
    /// A sendpay update without a payment hash: warn and wait again at the
    /// same index.
    MissingHash,
    /// A completed sendpay: wait for its result and report the success.
    Complete { payment_hash: Vec<u8>, partid: Option<u64>, groupid: Option<u64> },
    /// A failed sendpay: report the failure.
    Failed(LnPayFailureEvent),
}

/// One step of the sendpay listener: what to do with an update and the index
/// to wait for next (unchanged after an update without a payment hash).
pub fn sendpay_wait_step(next: u64, resp: &WaitResponse) -> (r: (SendpayWaitAction, u64))
    ensures
        match resp.sendpays {
            Some(sp) => match sp.payment_hash {
                None => r.0 == SendpayWaitAction::MissingHash && r.1 == next,
                Some(h) => r.1 == next_wait_index(next, resp.updated) && match sp.status {
                    WaitSendpaysStatus::Complete => r.0 matches SendpayWaitAction::Complete {
                        payment_hash: ph,
                        partid: p,
                        groupid: g,
                    } && ph@ == h@ && p == sp.partid && g == sp.groupid,
                    WaitSendpaysStatus::Failed => r.0 matches SendpayWaitAction::Failed(e)
                        && e.reason@ == "Payment failed"@ && e.payment_hash@ == hex_lower(h@),
                    WaitSendpaysStatus::Pending => r.0 == SendpayWaitAction::Nothing,
                },
            },
            None => r.0 == SendpayWaitAction::Nothing && r.1 == next_wait_index(next, resp.updated),
        },
{
    let next_index = match resp.updated {
        Some(i) => i.saturating_add(1),
        None => next,
    };
    match &resp.sendpays {
        Some(sp) => match &sp.payment_hash {
            None => (SendpayWaitAction::MissingHash, next),
            Some(h) => {
                let action = match sp.status {
                    WaitSendpaysStatus::Complete => SendpayWaitAction::Complete {
                        payment_hash: h.clone(),
                        partid: sp.partid,
                        groupid: sp.groupid,
                    },
                    WaitSendpaysStatus::Failed => SendpayWaitAction::Failed(
                        LnPayFailureEvent {
                            reason: "Payment failed".to_string(),
                            payment_hash: hex_encode(h.as_slice()),
                        },
                    ),
                    WaitSendpaysStatus::Pending => SendpayWaitAction::Nothing,
                };
                (action, next_index)
            },
        },
        None => (SendpayWaitAction::Nothing, next_index),
    }
}

/// The instant a completed sendpay is reported at: its completion instant
/// when known, else its creation second when in range, else `now`.
pub open spec fn sendpay_time_of(completed: Option<UtcTime>, created_at: u64, now: UtcTime) -> UtcTime {
    match completed {
        Some(t) => t,
        None => if secs_in_range((created_at as i64) as int) {
            at_secs((created_at as i64) as int)
        } else {
            now
        },
    }
}

/// The instant a completed sendpay is reported at.
pub fn sendpay_time(completed: Option<UtcTime>, created_at: u64, now: UtcTime) -> (r: UtcTime)
    ensures
        r == sendpay_time_of(completed, created_at, now),
{
    match completed {
        Some(t) => t,
        None => utc_at_secs_or(created_at as i64, now),
    }
}

/// The success event for a completed sendpay: the amount delivered (defaulting
/// to the amount sent), the difference as fees, hash and preimage as hex (an
/// empty preimage when absent).
pub fn sendpay_success_event(
    payment_hash: &Vec<u8>,
    amount_sent_msat: Option<Amount>,
    amount_msat: Option<Amount>,
    payment_preimage: &Option<Vec<u8>>,
    payment_time: UtcTime,
) -> (r: LnPaySuccessEvent)
    ensures
        r.amount_msat == msat_or(amount_msat, msat_or(amount_sent_msat, 0)),
        r.fees_msat == sat_sub(msat_or(amount_sent_msat, 0), r.amount_msat),
        r.payment_hash@ == hex_lower(payment_hash@),
        r.payment_preimage@ == match payment_preimage {
            Some(b) => hex_lower(b@),
            None => Seq::<char>::empty(),
        },
        r.payment_time == payment_time,
{
    let sent = match amount_sent_msat {
        Some(a) => a.msat,
        None => 0,
    };
    let amount = match amount_msat {
        Some(a) => a.msat,
        None => sent,
    };
    LnPaySuccessEvent {
        amount_msat: amount,
        fees_msat: sent.saturating_sub(amount),
        payment_hash: hex_encode(payment_hash.as_slice()),
        payment_preimage: match payment_preimage {
            Some(b) => hex_encode(b.as_slice()),
            None => String::new(),
        },
        payment_time,
    }
}

/// Primary tag of a chain movement.
#[derive(Clone, Copy, Debug, PartialEq, Eq, Structural)]
pub enum ChainmovePrimaryTag {
    Deposit,
    Withdrawal,
    Penalty,
    ChannelOpen,
    ChannelClose,
    DelayedToUs,
    HtlcTx,
    HtlcTimeout,
    HtlcFulfill,
    ToWallet,
    Anchor,
    ToThem,
    Penalized,
    Stolen,
    Ignored,
    ToMiner,
}

/// An outpoint as raw transaction id bytes and output number.
#[derive(Clone, Debug, PartialEq, Eq)]
pub struct Outpoint {
    pub txid: Vec<u8>,
    pub outnum: u32,
}

/// One entry of `listchainmoves`.
#[derive(Clone, Debug, PartialEq, Eq)]
pub struct ListchainmovesChainmoves {
    pub created_index: u64,
    pub primary_tag: ChainmovePrimaryTag,
    pub account_id: String,
    pub utxo: Option<Outpoint>,
    pub spending_txid: Option<Vec<u8>>,
    pub blockheight: u32,
}

/// What the chain-movement listener does with one movement.
#[derive(Clone, Debug, PartialEq, Eq)]
pub enum ChainmoveAction {
    /// Look up this wallet output and report it as a deposit.
    Deposit { txid: String, outnum: u32 },
    /// A wallet deposit without an outpoint: warn and go on.
    MissingOutpoint,
    /// Report this withdrawal.
    Withdrawal(OnchainWithdrawalEvent),
    /// A wallet withdrawal without a spending transaction: warn and go on.
    MissingSpendingTxid,
    /// Not a movement of the wallet.
    Ignore,
}

/// What the listener does with one chain movement: wallet deposits are looked
/// up by outpoint (transaction id as hex), wallet withdrawals are reported at
/// the movement's height, everything else is ignored.
pub fn classify_chainmove(m: &ListchainmovesChainmoves) -> (r: ChainmoveAction)
    ensures
        m.account_id@ != "wallet"@ ==> r == ChainmoveAction::Ignore,
        m.account_id@ == "wallet"@ ==> match m.primary_tag {
            ChainmovePrimaryTag::Deposit => match m.utxo {
                Some(o) => r matches ChainmoveAction::Deposit { txid, outnum } && txid@ == hex_lower(
                    o.txid@,
                ) && outnum == o.outnum,
                None => r == ChainmoveAction::MissingOutpoint,
            },
            ChainmovePrimaryTag::Withdrawal => match m.spending_txid {
                Some(t) => r matches ChainmoveAction::Withdrawal(e) && e.txid@ == hex_lower(t@)
                    && e.block_height == Some(m.blockheight),
                None => r == ChainmoveAction::MissingSpendingTxid,
            },
            _ => r == ChainmoveAction::Ignore,
        },
{
    if !crate::text::str_eq(m.account_id.as_str(), "wallet") {
        return ChainmoveAction::Ignore;
    }
    match m.primary_tag {
        ChainmovePrimaryTag::Deposit => match &m.utxo {
            Some(o) => ChainmoveAction::Deposit { txid: hex_encode(o.txid.as_slice()), outnum: o.outnum },
            None => ChainmoveAction::MissingOutpoint,
        },
        ChainmovePrimaryTag::Withdrawal => match &m.spending_txid {
            Some(t) => ChainmoveAction::Withdrawal(
                OnchainWithdrawalEvent {
                    txid: hex_encode(t.as_slice()),
                    block_height: Some(m.blockheight),
                },
            ),
            None => ChainmoveAction::MissingSpendingTxid,
        },
        _ => ChainmoveAction::Ignore,
    }
}

/// The largest creation index among the movements and `start`.
pub open spec fn max_chainmove_index(moves: Seq<ListchainmovesChainmoves>, start: u64) -> u64
    decreases moves.len(),
{
    if moves.len() == 0 {
        start
    } else {
        let m = max_chainmove_index(moves.drop_last(), start);
        if moves.last().created_index > m {
            moves.last().created_index
        } else {
            m
        }
    }
}

/// The largest creation index among the movements and `start`: where the
/// listener's next replay resumes from (one past it).
pub fn chainmoves_max_index(moves: &Vec<ListchainmovesChainmoves>, start: u64) -> (r: u64)
    ensures
        r == max_chainmove_index(moves@, start),
        r >= start,
        forall|i: int| 0 <= i < moves@.len() ==> (#[trigger] moves@[i]).created_index <= r,
{
    let mut max_index = start;
    let mut i: usize = 0;
    while i < moves.len()
        invariant
            i <= moves@.len(),
            max_index == max_chainmove_index(moves@.subrange(0, i as int), start),
            max_index >= start,
            forall|j: int| 0 <= j < i ==> (#[trigger] moves@[j]).created_index <= max_index,
        decreases moves@.len() - i,
    {
        assert(moves@.subrange(0, i + 1).drop_last() =~= moves@.subrange(0, i as int));
        if moves[i].created_index > max_index {
            max_index = moves[i].created_index;
        }
        i = i + 1;
    }
    assert(moves@.subrange(0, moves@.len() as int) =~= moves@);
    max_index
}

/// What the chain-movement listener does with a wallet deposit after looking
/// its output up.
#[derive(Clone, Debug, PartialEq, Eq)]
pub enum DepositLookupStep {
    /// The output was found: credit it.
    Credit(BtcOutput),
    /// Not among the unspent outputs: look again, spent outputs included.
    LookUpSpent,
    /// Not found even among the spent outputs, or the lookup failed: skip
    /// the movement.
    Skip,
}

/// The deposit lookup after one query: a found output is credited; a miss
/// among the unspent outputs (the bounded query, tried first) is looked up
/// again with the spent ones, since a replayed deposit's output may already
/// be spent; a miss there, or a failed query, skips the movement.
pub fn deposit_lookup_step(include_spent: bool, found: Result<Option<BtcOutput>, BitcoinError>) -> (r: DepositLookupStep)
    ensures
        r == match found {
            Ok(Some(o)) => DepositLookupStep::Credit(o),
            Ok(None) => if include_spent {
                DepositLookupStep::Skip
            } else {
                DepositLookupStep::LookUpSpent
            },
            Err(_) => DepositLookupStep::Skip,
        },
{
    match found {
        Ok(Some(o)) => DepositLookupStep::Credit(o),
        Ok(None) => if include_spent {
            DepositLookupStep::Skip
        } else {
            DepositLookupStep::LookUpSpent
        },
        Err(_) => DepositLookupStep::Skip,
    }
}

/// What the chain-movement listener does when a `wait` returns.
#[derive(Clone, Copy, Debug, PartialEq, Eq, Structural)]
pub enum ChainmoveWaitAction {
    /// The answer carries no creation index: wait again.
    WaitAgain,
    /// Replay the movements from this creation index.
    Replay(u64),
}

/// The listener's move after a `wait` for chain movements: without a
/// creation index in the answer it waits again; otherwise it replays from its
/// persisted index, not from the tip the answer reports, so that no movement
/// between the two is skipped.
pub fn chainmove_wait_step(next_index: u64, created: Option<u64>) -> (r: ChainmoveWaitAction)
    ensures
        r == match created {
            None => ChainmoveWaitAction::WaitAgain,
            Some(_) => ChainmoveWaitAction::Replay(next_index),
        },
{
    match created {
        None => ChainmoveWaitAction::WaitAgain,
        Some(_) => ChainmoveWaitAction::Replay(next_index),
    }
}

/// One past an index, staying at the largest index.
pub open spec fn index_after(i: u64) -> u64 {
    if i < u64::MAX {
        (i + 1) as u64
    } else {
        i
    }
}

/// After a replay whose largest creation index is `max_index`: the index the
/// listener waits for next, one past it, and the cursor it persists there.
pub fn chainmove_replay_done(max_index: u64) -> (r: (u64, OnchainSyncCursor))
    ensures
        r.0 == index_after(max_index),
        r.1 == OnchainSyncCursor::CreatedIndex(r.0),
{
    let next = max_index.saturating_add(1);
    (next, OnchainSyncCursor::CreatedIndex(next))
}

/// The largest creation index bounds every movement's and the start.
pub proof fn lemma_max_chainmove_index(moves: Seq<ListchainmovesChainmoves>, start: u64)
    ensures
        max_chainmove_index(moves, start) >= start,
        forall|i: int| 0 <= i < moves.len() ==> (#[trigger] moves[i]).created_index <= max_chainmove_index(moves, start),
    decreases moves.len(),
{
    if moves.len() > 0 {
        lemma_max_chainmove_index(moves.drop_last(), start);
        assert forall|i: int| 0 <= i < moves.len() implies (#[trigger] moves[i]).created_index
            <= max_chainmove_index(moves, start) by {
            if i < moves.len() - 1 {
                assert(moves[i] == moves.drop_last()[i]);
            }
        }
    }
}

/// After a replay, the cursor the chain-movement listener persists lies past
/// every movement it replayed and never before where the replay started (the
/// index cannot pass the largest index, where it stays).
pub proof fn lemma_chainmove_cursor_past_replayed(moves: Seq<ListchainmovesChainmoves>, start: u64)
    requires
        max_chainmove_index(moves, start) < u64::MAX,
    ensures
        index_after(max_chainmove_index(moves, start)) > start,
        forall|i: int| 0 <= i < moves.len() ==> (#[trigger] moves[i]).created_index < index_after(
            max_chainmove_index(moves, start),
        ),
{
    lemma_max_chainmove_index(moves, start);
}

/// The creation index a persisted cursor stands for (zero for a block-height
/// cursor or none).
pub fn cursor_created_index(c: Option<OnchainSyncCursor>) -> (r: u64)
    ensures
        r == match c {
            Some(OnchainSyncCursor::CreatedIndex(i)) => i,
            _ => 0,
        },
{
    match c {
        Some(OnchainSyncCursor::CreatedIndex(i)) => i,
        _ => 0,
    }
}

} // verus!
