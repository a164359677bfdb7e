//! Breez Liquid SDK: the payments, invoices and events the wallet reads (as
//! plain data) and their verified mapping onto the wallet's model, including
//! the on-chain (chain swap) synchronisation.
use vstd::prelude::*;

use crate::breez::{BreezAction, BreezListener, msat_from_sat, sat_to_msat, text_or_empty};
use crate::chain::{outpoint_string, outpoint_text};
use crate::cln_rest::secs_in_range;
use crate::domain::{
    BitcoinError, BtcAddressType, BtcNetwork, BtcPreparedTransaction, BtcOutput, BtcOutputStatus, BtcTransaction, BtcTransactionOutput, Currency, Invoice,
    InvoiceStatus, Ledger, LightningError, LnInvoice, LnInvoicePaidEvent, LnPayFailureEvent,
    LnPaySuccessEvent, LnPayment, OnchainDepositEvent, OnchainSyncBatch, OnchainSyncCursor,
    OnchainTransaction, OnchainWithdrawalEvent, Payment, PaymentStatus,
};
use crate::text::{concat, hex_encode, hex_lower, lowercase, opt_text, str_eq, to_lowercase};
use crate::time::{at_secs, utc_at_secs, utc_at_secs_or, utc_now, UtcTime};

verus! {

/// State of a Liquid SDK payment.
#[derive(Clone, Copy, Debug, PartialEq, Eq, Structural)]
pub enum LiquidPaymentState {
    Created,
    Pending,
    Complete,
    Failed,
    TimedOut,
    Refundable,
    RefundPending,
    WaitingFeeAcceptance,
}

/// Direction of a Liquid SDK payment.
#[derive(Clone, Copy, Debug, PartialEq, Eq, Structural)]
pub enum LiquidPaymentType {
    Receive,
    Send,
}

/// The LNURL data of a Lightning payment.
#[derive(Clone, Debug, PartialEq, Eq)]
pub struct LnurlInfo {
    pub lnurl_pay_metadata: Option<String>,
    pub ln_address: Option<String>,
}

/// What a Liquid SDK payment carries, by kind.
#[derive(Clone, Debug, PartialEq, Eq)]
pub enum LiquidPaymentDetails {
    Lightning {
        description: String,
        payment_hash: Option<String>,
        preimage: Option<String>,
        lnurl_info: Option<LnurlInfo>,
    },
    Liquid { description: String },
    Bitcoin {
        description: String,
        lockup_tx_id: Option<String>,
        claim_tx_id: Option<String>,
        refund_tx_id: Option<String>,
        bitcoin_address: String,
    },
}

/// A Liquid SDK payment; amounts in satoshis, the time in seconds.
#[derive(Clone, Debug, PartialEq, Eq)]
pub struct LiquidPayment {
    pub tx_id: Option<String>,
    pub timestamp: u32,
    pub amount_sat: u64,
    pub fees_sat: u64,
    pub payment_type: LiquidPaymentType,
    pub status: LiquidPaymentState,
    pub details: LiquidPaymentDetails,
}

/// The Liquid networks.
#[derive(Clone, Copy, Debug, PartialEq, Eq, Structural)]
pub enum LiquidNetwork {
    Mainnet,
    Testnet,
    Regtest,
}

/// A BOLT 11 invoice as the Liquid SDK decodes it.
#[derive(Clone, Debug, PartialEq, Eq)]
pub struct LiquidLnInvoice {
    pub bolt11: String,
    pub payee_pubkey: String,
    pub payment_hash: String,
    pub description: Option<String>,
    pub description_hash: Option<String>,
    pub amount_msat: Option<u64>,
    pub timestamp: u64,
    pub expiry: u64,
    pub payment_secret: Vec<u8>,
    pub min_final_cltv_expiry_delta: u64,
}

/// An event of the Liquid SDK.
#[derive(Clone, Debug, PartialEq, Eq)]
pub enum LiquidEvent {
    PaymentSucceeded(LiquidPayment),
    PaymentFailed(LiquidPayment),
    PaymentPending(LiquidPayment),
    PaymentWaitingConfirmation(LiquidPayment),
    PaymentWaitingFeeAcceptance(LiquidPayment),
    PaymentRefundable(LiquidPayment),
    PaymentRefundPending(LiquidPayment),
    PaymentRefunded(LiquidPayment),
    Synced,
    SyncFailed(String),
    DataSynced(bool),
}

/// Settings of the Breez Liquid client.
#[derive(Clone, Debug, PartialEq, Eq)]
pub struct BreezClientConfig {
    pub api_key: String,
    pub working_dir: String,
    pub mnemonic: String,
    pub passphrase: Option<String>,
    pub log_in_file: bool,
    pub network: String,
}

/// The description every Liquid payment carries.
pub open spec fn liquid_description(d: LiquidPaymentDetails) -> Seq<char> {
    match d {
        LiquidPaymentDetails::Lightning { description, .. } => description@,
        LiquidPaymentDetails::Liquid { description } => description@,
        LiquidPaymentDetails::Bitcoin { description, .. } => description@,
    }
}

/// The payment hash of a Lightning payment.
pub open spec fn liquid_payment_hash(d: LiquidPaymentDetails) -> Option<Seq<char>> {
    match d {
        LiquidPaymentDetails::Lightning { payment_hash, .. } => opt_text(payment_hash),
        _ => None,
    }
}

/// The preimage of a Lightning payment.
pub open spec fn liquid_preimage(d: LiquidPaymentDetails) -> Option<Seq<char>> {
    match d {
        LiquidPaymentDetails::Lightning { preimage, .. } => opt_text(preimage),
        _ => None,
    }
}

/// The LNURL-pay metadata of a Lightning payment.
pub open spec fn liquid_lnurl_metadata(d: LiquidPaymentDetails) -> Option<Seq<char>> {
    match d {
        LiquidPaymentDetails::Lightning { lnurl_info: Some(i), .. } => opt_text(i.lnurl_pay_metadata),
        _ => None,
    }
}

/// The lightning address of a Lightning payment.
pub open spec fn liquid_ln_address(d: LiquidPaymentDetails) -> Option<Seq<char>> {
    match d {
        LiquidPaymentDetails::Lightning { lnurl_info: Some(i), .. } => opt_text(i.ln_address),
        _ => None,
    }
}

/// A copy of an optional string with the same text.
fn copy_opt(o: &Option<String>) -> (r: Option<String>)
    ensures
        opt_text(r) == opt_text(*o),
{
    match o {
        Some(s) => Some(s.clone()),
        None => None,
    }
}

impl LiquidPaymentDetails {
    /// The description of the payment.
    pub fn get_description(&self) -> (r: Option<String>)
        ensures
            opt_text(r) == Some(liquid_description(*self)),
    {
        match self {
            LiquidPaymentDetails::Lightning { description, .. } => Some(description.clone()),
            LiquidPaymentDetails::Liquid { description } => Some(description.clone()),
            LiquidPaymentDetails::Bitcoin { description, .. } => Some(description.clone()),
        }
    }

    /// The payment hash of the payment.
    pub fn get_payment_hash(&self) -> (r: Option<String>)
        ensures
            opt_text(r) == liquid_payment_hash(*self),
    {
        match self {
            LiquidPaymentDetails::Lightning { payment_hash, .. } => copy_opt(payment_hash),
            _ => None,
        }
    }

    /// The preimage of the payment.
    pub fn get_payment_preimage(&self) -> (r: Option<String>)
        ensures
            opt_text(r) == liquid_preimage(*self),
    {
        match self {
            LiquidPaymentDetails::Lightning { preimage, .. } => copy_opt(preimage),
            _ => None,
        }
    }

    /// The LNURL-pay metadata of the payment.
    pub fn get_lnurl_metadata(&self) -> (r: Option<String>)
        ensures
            opt_text(r) == liquid_lnurl_metadata(*self),
    {
        match self {
            LiquidPaymentDetails::Lightning { lnurl_info: Some(i), .. } => copy_opt(&i.lnurl_pay_metadata),
            _ => None,
        }
    }

    /// The lightning address of the payment.
    pub fn get_ln_address(&self) -> (r: Option<String>)
        ensures
            opt_text(r) == liquid_ln_address(*self),
    {
        match self {
            LiquidPaymentDetails::Lightning { lnurl_info: Some(i), .. } => copy_opt(&i.ln_address),
            _ => None,
        }
    }
}

/// The instant of a payment's second, or `now` when it is not representable.
pub open spec fn liquid_time(ts: u32, now: UtcTime) -> UtcTime {
    if secs_in_range(ts as int) {
        at_secs(ts as int)
    } else {
        now
    }
}

/// The wallet status of a Liquid payment state.
pub open spec fn liquid_payment_status(s: LiquidPaymentState) -> PaymentStatus {
    match s {
        LiquidPaymentState::Complete => PaymentStatus::Settled,
        LiquidPaymentState::Failed | LiquidPaymentState::TimedOut => PaymentStatus::Failed,
        _ => PaymentStatus::Pending,
    }
}

/// The wallet invoice status of a Liquid payment state.
pub open spec fn liquid_invoice_status(s: LiquidPaymentState) -> InvoiceStatus {
    match s {
        LiquidPaymentState::Complete => InvoiceStatus::Settled,
        LiquidPaymentState::Failed | LiquidPaymentState::TimedOut => InvoiceStatus::Expired,
        _ => InvoiceStatus::Pending,
    }
}

/// Whether a state is a failure (failed or timed out).
pub open spec fn liquid_failed(s: LiquidPaymentState) -> bool {
    s == LiquidPaymentState::Failed || s == LiquidPaymentState::TimedOut
}

/// The name of a Liquid payment state, as its `Debug` form writes it.
pub open spec fn liquid_state_name(s: LiquidPaymentState) -> Seq<char> {
    match s {
        LiquidPaymentState::Created => "Created"@,
        LiquidPaymentState::Pending => "Pending"@,
        LiquidPaymentState::Complete => "Complete"@,
        LiquidPaymentState::Failed => "Failed"@,
        LiquidPaymentState::TimedOut => "TimedOut"@,
        LiquidPaymentState::Refundable => "Refundable"@,
        LiquidPaymentState::RefundPending => "RefundPending"@,
        LiquidPaymentState::WaitingFeeAcceptance => "WaitingFeeAcceptance"@,
    }
}

/// The name of a Liquid payment state.
pub fn liquid_state_text(s: LiquidPaymentState) -> (r: &'static str)
    ensures
        r@ == liquid_state_name(s),
{
    match s {
        LiquidPaymentState::Created => "Created",
        LiquidPaymentState::Pending => "Pending",
        LiquidPaymentState::Complete => "Complete",
        LiquidPaymentState::Failed => "Failed",
        LiquidPaymentState::TimedOut => "TimedOut",
        LiquidPaymentState::Refundable => "Refundable",
        LiquidPaymentState::RefundPending => "RefundPending",
        LiquidPaymentState::WaitingFeeAcceptance => "WaitingFeeAcceptance",
    }
}

/// The wallet payment a Liquid payment stands for, at `now` when its own time
/// is not representable: Lightning ledger, amounts in millisatoshis
/// (saturating), a failure or time-out as `Payment failed`, and Lightning
/// data when the payment has a hash.
pub open spec fn payment_of_liquid(p: LiquidPayment, now: UtcTime, r: Payment) -> bool {
    &&& r.ledger == Ledger::Lightning
    &&& r.status == liquid_payment_status(p.status)
    &&& opt_text(r.error) == (if liquid_failed(p.status) {
        Some("Payment failed"@)
    } else {
        None
    })
    &&& r.amount_msat == sat_to_msat(p.amount_sat)
    &&& r.fee_msat == Some(sat_to_msat(p.fees_sat))
    &&& r.payment_time == Some(liquid_time(p.timestamp, now))
    &&& opt_text(r.description) == Some(liquid_description(p.details))
    &&& match liquid_payment_hash(p.details) {
        Some(h) => r.lightning matches Some(l) && l.payment_hash@ == h && opt_text(l.ln_address)
            == liquid_ln_address(p.details) && opt_text(l.payment_preimage) == liquid_preimage(
            p.details,
        ) && opt_text(l.metadata) == liquid_lnurl_metadata(p.details),
        None => r.lightning is None,
    }
}

/// The invoice a received Liquid payment stands for, at `now` when its own
/// time is not representable; the fields a payment does not carry keep their
/// defaults (mainnet currency, the epoch as creation time, no BOLT 11 data).
pub open spec fn invoice_of_liquid(p: LiquidPayment, now: UtcTime, r: Invoice) -> bool {
    &&& r.ledger == Ledger::Lightning
    &&& r.currency == Currency::Bitcoin
    &&& opt_text(r.description) == Some(liquid_description(p.details))
    &&& r.amount_msat == Some(sat_to_msat(p.amount_sat))
    &&& r.amount_received_msat is None
    &&& r.fee_msat == Some(sat_to_msat(p.fees_sat))
    &&& r.timestamp == (UtcTime { secs: 0, nanos: 0 })
    &&& r.status == liquid_invoice_status(p.status)
    &&& r.payment_time == Some(liquid_time(p.timestamp, now))
    &&& r.ln_invoice is None
}

impl LiquidPayment {
    /// The wallet payment for this payment, with `now` standing in for an
    /// unrepresentable time.
    pub fn payment_at(&self, now: UtcTime) -> (r: Payment)
        ensures
            payment_of_liquid(*self, now, r),
    {
        let lightning = match self.details.get_payment_hash() {
            Some(hash) => Some(
                LnPayment {
                    ln_address: self.details.get_ln_address(),
                    payment_hash: hash,
                    payment_preimage: self.details.get_payment_preimage(),
                    metadata: self.details.get_lnurl_metadata(),
                },
            ),
            None => None,
        };
        Payment {
            ledger: Ledger::Lightning,
            status: match self.status {
                LiquidPaymentState::Complete => PaymentStatus::Settled,
                LiquidPaymentState::Failed | LiquidPaymentState::TimedOut => PaymentStatus::Failed,
                _ => PaymentStatus::Pending,
            },
            amount_msat: msat_from_sat(self.amount_sat),
            fee_msat: Some(msat_from_sat(self.fees_sat)),
            payment_time: Some(utc_at_secs_or(self.timestamp as i64, now)),
            error: match self.status {
                LiquidPaymentState::Failed | LiquidPaymentState::TimedOut => Some("Payment failed".to_string()),
                _ => None,
            },
            description: self.details.get_description(),
            lightning,
        }
    }

    /// The wallet payment for this payment.
    pub fn into_payment(self) -> (r: Payment)
        ensures
            exists|now: UtcTime| #[trigger] payment_of_liquid(self, now, r),
    {
        let now = utc_now();
        let r = self.payment_at(now);
        assert(payment_of_liquid(self, now, r));
        r
    }

    /// The invoice for this payment, with `now` standing in for an
    /// unrepresentable time.
    pub fn invoice_at(&self, now: UtcTime) -> (r: Invoice)
        ensures
            invoice_of_liquid(*self, now, r),
    {
        Invoice {
            ledger: Ledger::Lightning,
            currency: Currency::Bitcoin,
            description: self.details.get_description(),
            amount_msat: Some(msat_from_sat(self.amount_sat)),
            amount_received_msat: None,
            fee_msat: Some(msat_from_sat(self.fees_sat)),
            timestamp: UtcTime { secs: 0, nanos: 0 },
            status: match self.status {
                LiquidPaymentState::Complete => InvoiceStatus::Settled,
                LiquidPaymentState::Failed | LiquidPaymentState::TimedOut => InvoiceStatus::Expired,
                _ => InvoiceStatus::Pending,
            },
            payment_time: Some(utc_at_secs_or(self.timestamp as i64, now)),
            ln_invoice: None,
        }
    }

    /// The invoice for this payment.
    pub fn into_invoice(self) -> (r: Invoice)
        ensures
            exists|now: UtcTime| #[trigger] invoice_of_liquid(self, now, r),
    {
        let now = utc_now();
        let r = self.invoice_at(now);
        assert(invoice_of_liquid(self, now, r));
        r
    }

    /// The paid event for this received payment: its hash (empty when it has
    /// none), amount and fee in millisatoshis, at its time (else `now`).
    pub fn paid_event_at(&self, now: UtcTime) -> (r: LnInvoicePaidEvent)
        ensures
            text_or_empty(liquid_payment_hash(self.details), r.payment_hash@),
            r.amount_received_msat == sat_to_msat(self.amount_sat),
            r.fee_msat == sat_to_msat(self.fees_sat),
            r.payment_time == liquid_time(self.timestamp, now),
    {
        let payment_hash = match self.details.get_payment_hash() {
            Some(h) => h,
            None => String::new(),
        };
        LnInvoicePaidEvent {
            payment_hash,
            amount_received_msat: msat_from_sat(self.amount_sat),
            fee_msat: msat_from_sat(self.fees_sat),
            payment_time: utc_at_secs_or(self.timestamp as i64, now),
        }
    }

    /// The success event for this sent payment: hash and preimage (empty when
    /// absent), amount and fees in millisatoshis, at its time (else `now`).
    pub fn success_event_at(&self, now: UtcTime) -> (r: LnPaySuccessEvent)
        ensures
            text_or_empty(liquid_payment_hash(self.details), r.payment_hash@),
            text_or_empty(liquid_preimage(self.details), r.payment_preimage@),
            r.amount_msat == sat_to_msat(self.amount_sat),
            r.fees_msat == sat_to_msat(self.fees_sat),
            r.payment_time == liquid_time(self.timestamp, now),
    {
        let payment_hash = match self.details.get_payment_hash() {
            Some(h) => h,
            None => String::new(),
        };
        let payment_preimage = match self.details.get_payment_preimage() {
            Some(p) => p,
            None => String::new(),
        };
        LnPaySuccessEvent {
            amount_msat: msat_from_sat(self.amount_sat),
            fees_msat: msat_from_sat(self.fees_sat),
            payment_hash,
            payment_preimage,
            payment_time: utc_at_secs_or(self.timestamp as i64, now),
        }
    }

    /// The failure event for this payment: `Payment failed with status: ` and
    /// the state's name, with its hash (empty when it has none).
    pub fn failure_event(&self) -> (r: LnPayFailureEvent)
        ensures
            r.reason@ == "Payment failed with status: "@ + liquid_state_name(self.status),
            text_or_empty(liquid_payment_hash(self.details), r.payment_hash@),
    {
        let payment_hash = match self.details.get_payment_hash() {
            Some(h) => h,
            None => String::new(),
        };
        LnPayFailureEvent {
            reason: concat("Payment failed with status: ", liquid_state_text(self.status)),
            payment_hash,
        }
    }
}

/// The wallet invoice a decoded Liquid invoice stands for: created at its
/// second, expiring `expiry` seconds later; the currency keeps its default
/// (mainnet) and the status is pending.
pub open spec fn invoice_of_liquid_ln(i: LiquidLnInvoice, r: Invoice) -> bool {
    &&& r.ledger == Ledger::Lightning
    &&& r.currency == Currency::Bitcoin
    &&& r.description == i.description
    &&& r.amount_msat == i.amount_msat
    &&& r.amount_received_msat is None
    &&& r.fee_msat is None
    &&& r.timestamp == at_secs(i.timestamp as int)
    &&& r.status == InvoiceStatus::Pending
    &&& r.payment_time is None
    &&& r.ln_invoice matches Some(ln) && ln.bolt11 == i.bolt11 && ln.payee_pubkey == i.payee_pubkey
        && ln.payment_hash == i.payment_hash && ln.description_hash == i.description_hash
        && ln.payment_secret@ == hex_lower(i.payment_secret@) && ln.min_final_cltv_expiry_delta
        == i.min_final_cltv_expiry_delta && ln.expiry_secs == i.expiry && ln.expires_at == at_secs(
        i.timestamp + i.expiry,
    )
}

impl LiquidLnInvoice {
    /// The wallet invoice for this decoded invoice; its creation and expiry
    /// seconds must be representable instants.
    pub fn into_invoice(self) -> (r: Invoice)
        requires
            self.timestamp + self.expiry <= 8_210_266_876_799,
        ensures
            invoice_of_liquid_ln(self, r),
    {
        let timestamp = match utc_at_secs(self.timestamp as i64) {
            Some(t) => t,
            None => {
                assert(false);
                UtcTime { secs: 0, nanos: 0 }
            },
        };
        let expires_at = match utc_at_secs((self.timestamp + self.expiry) as i64) {
            Some(t) => t,
            None => {
                assert(false);
                UtcTime { secs: 0, nanos: 0 }
            },
        };
        Invoice {
            ledger: Ledger::Lightning,
            currency: Currency::Bitcoin,
            description: self.description,
            amount_msat: self.amount_msat,
            amount_received_msat: None,
            fee_msat: None,
            timestamp,
            status: InvoiceStatus::Pending,
            payment_time: None,
            ln_invoice: Some(
                LnInvoice {
                    bolt11: self.bolt11,
                    payee_pubkey: self.payee_pubkey,
                    payment_hash: self.payment_hash,
                    description_hash: self.description_hash,
                    payment_secret: hex_encode(self.payment_secret.as_slice()),
                    min_final_cltv_expiry_delta: self.min_final_cltv_expiry_delta,
                    expiry_secs: self.expiry,
                    expires_at,
                },
            ),
        }
    }
}

/// An invoice whose Lightning part records `expiry` seconds as its expiry
/// (its expiry instant is left as decoded).
pub open spec fn expiry_recorded(invoice: Invoice, expiry: u32) -> Invoice {
    Invoice {
        ln_invoice: match invoice.ln_invoice {
            Some(ln) => Some(LnInvoice { expiry_secs: expiry as u64, ..ln }),
            None => None,
        },
        ..invoice
    }
}

/// The invoice the Liquid client returns: a positive requested expiry is
/// recorded on the Lightning part.
pub fn with_requested_expiry(invoice: Invoice, expiry: u32) -> (r: Invoice)
    ensures
        r == (if expiry > 0 {
            expiry_recorded(invoice, expiry)
        } else {
            invoice
        }),
{
    if expiry > 0 {
        let ln_invoice = match invoice.ln_invoice {
            Some(ln) => Some(LnInvoice { expiry_secs: expiry as u64, ..ln }),
            None => None,
        };
        Invoice { ln_invoice, ..invoice }
    } else {
        invoice
    }
}

/// The Liquid and wallet networks a configured network name (any case)
/// selects.
pub open spec fn liquid_networks_of(name: Seq<char>) -> Option<(LiquidNetwork, BtcNetwork)> {
    if name == "bitcoin"@ {
        Some((LiquidNetwork::Mainnet, BtcNetwork::Bitcoin))
    } else if name == "testnet"@ {
        Some((LiquidNetwork::Testnet, BtcNetwork::Testnet))
    } else if name == "regtest"@ {
        Some((LiquidNetwork::Regtest, BtcNetwork::Regtest))
    } else {
        None
    }
}

/// The networks of the Liquid client's configuration; `ParseConfig` for any
/// other name.
pub fn liquid_networks(network: &str) -> (r: Result<(LiquidNetwork, BtcNetwork), LightningError>)
    ensures
        match liquid_networks_of(lowercase(network@)) {
            Some(p) => r == Ok::<(LiquidNetwork, BtcNetwork), LightningError>(p),
            None => r matches Err(LightningError::ParseConfig(m)) && m@ == "Invalid network"@,
        },
{
    let name = to_lowercase(network);
    if str_eq(name.as_str(), "bitcoin") {
        Ok((LiquidNetwork::Mainnet, BtcNetwork::Bitcoin))
    } else if str_eq(name.as_str(), "testnet") {
        Ok((LiquidNetwork::Testnet, BtcNetwork::Testnet))
    } else if str_eq(name.as_str(), "regtest") {
        Ok((LiquidNetwork::Regtest, BtcNetwork::Regtest))
    } else {
        Err(LightningError::ParseConfig("Invalid network".to_string()))
    }
}

/// The payer note sent with a payment or invoice: the label, when not empty.
pub fn payer_note(label: String) -> (r: Option<String>)
    ensures
        label@.len() == 0 ==> r is None,
        label@.len() > 0 ==> r == Some(label),
{
    if label.as_str().unicode_len() == 0 {
        None
    } else {
        Some(label)
    }
}

/// The on-chain transaction id of a Liquid payment: its own, else the swap's
/// lockup, claim or refund transaction's; only Bitcoin (chain swap) payments
/// have one.
pub open spec fn liquid_txid(p: LiquidPayment) -> Option<Seq<char>> {
    match p.details {
        LiquidPaymentDetails::Bitcoin { lockup_tx_id, claim_tx_id, refund_tx_id, .. } => match p.tx_id {
            Some(t) => Some(t@),
            None => match lockup_tx_id {
                Some(t) => Some(t@),
                None => match claim_tx_id {
                    Some(t) => Some(t@),
                    None => opt_text(refund_tx_id),
                },
            },
        },
        _ => None,
    }
}

/// The on-chain transaction id of a payment, if it has one.
pub fn liquid_payment_txid(p: &LiquidPayment) -> (r: Option<String>)
    ensures
        opt_text(r) == liquid_txid(*p),
{
    match &p.details {
        LiquidPaymentDetails::Bitcoin { lockup_tx_id, claim_tx_id, refund_tx_id, .. } => match &p.tx_id {
            Some(t) => Some(t.clone()),
            None => match lockup_tx_id {
                Some(t) => Some(t.clone()),
                None => match claim_tx_id {
                    Some(t) => Some(t.clone()),
                    None => copy_opt(refund_tx_id),
                },
            },
        },
        _ => None,
    }
}

/// Whether a payment is the one of an on-chain transaction id: its own id is
/// it, or (for a chain swap) its lockup, claim or refund transaction is.
pub open spec fn liquid_payment_has_txid(p: LiquidPayment, txid: Seq<char>) -> bool {
    opt_text(p.tx_id) == Some(txid) || match p.details {
        LiquidPaymentDetails::Bitcoin { lockup_tx_id, claim_tx_id, refund_tx_id, .. } => opt_text(lockup_tx_id)
            == Some(txid) || opt_text(claim_tx_id) == Some(txid) || opt_text(refund_tx_id) == Some(txid),
        _ => false,
    }
}

/// Whether an optional string holds exactly `t`.
fn opt_is(o: &Option<String>, t: &str) -> (r: bool)
    ensures
        r == (opt_text(*o) == Some(t@)),
{
    match o {
        Some(s) => str_eq(s.as_str(), t),
        None => false,
    }
}

/// The wallet transaction a chain-swap payment stands for when looked up by
/// `txid`: its resolved transaction id (else the one looked up), unmined, one
/// output at index 0 to the swap's Bitcoin address, ours when received,
/// outgoing when sent.
pub open spec fn tx_of_liquid(p: LiquidPayment, txid: Seq<char>, t: BtcTransaction) -> bool {
    match p.details {
        LiquidPaymentDetails::Bitcoin { bitcoin_address, .. } => {
            &&& t.txid@ == (match liquid_txid(p) {
                Some(x) => x,
                None => txid,
            })
            &&& t.block_height is None
            &&& t.outputs@.len() == 1
            &&& t.outputs@[0].output_index == 0
            &&& t.outputs@[0].address@ == bitcoin_address@
            &&& t.outputs@[0].amount_sat == p.amount_sat
            &&& t.outputs@[0].is_ours == (p.payment_type == LiquidPaymentType::Receive)
            &&& t.is_outgoing == (p.payment_type == LiquidPaymentType::Send)
        },
        _ => false,
    }
}

/// The wallet transaction `get_transaction` reports from the Bitcoin
/// payments: the first payment of the transaction id, when it is a chain
/// swap; none otherwise.
pub fn liquid_transaction(payments: &Vec<LiquidPayment>, txid: &str) -> (r: Option<BtcTransaction>)
    ensures
        (forall|i: int| 0 <= i < payments@.len() ==> !liquid_payment_has_txid(#[trigger] payments@[i], txid@))
            ==> r is None,
        r matches Some(t) ==> exists|i: int|
            0 <= i < payments@.len() && liquid_payment_has_txid(#[trigger] payments@[i], txid@) && (
            forall|j: int| 0 <= j < i ==> !liquid_payment_has_txid(#[trigger] payments@[j], txid@))
                && tx_of_liquid(payments@[i], txid@, t),
        (exists|i: int|
            0 <= i < payments@.len() && liquid_payment_has_txid(#[trigger] payments@[i], txid@) && (
            forall|j: int| 0 <= j < i ==> !liquid_payment_has_txid(#[trigger] payments@[j], txid@))
                && payments@[i].details is Bitcoin) ==> r is Some,
{
    let mut i: usize = 0;
    while i < payments.len()
        invariant
            i <= payments@.len(),
            forall|j: int| 0 <= j < i ==> !liquid_payment_has_txid(#[trigger] payments@[j], txid@),
        decreases payments@.len() - i,
    {
        let p = &payments[i];
        let hit = opt_is(&p.tx_id, txid) || match &p.details {
            LiquidPaymentDetails::Bitcoin { lockup_tx_id, claim_tx_id, refund_tx_id, .. } => opt_is(
                lockup_tx_id,
                txid,
            ) || opt_is(claim_tx_id, txid) || opt_is(refund_tx_id, txid),
            _ => false,
        };
        if hit {
            assert(liquid_payment_has_txid(payments@[i as int], txid@));
            assert forall|k: int|
                0 <= k < payments@.len() && liquid_payment_has_txid(#[trigger] payments@[k], txid@) && (
                forall|j: int| 0 <= j < k ==> !liquid_payment_has_txid(#[trigger] payments@[j], txid@))
                implies k == i by {
                if k < i {
                    assert(!liquid_payment_has_txid(payments@[k], txid@));
                }
                if k > i {
                    assert(!liquid_payment_has_txid(payments@[i as int], txid@));
                }
            }
            return match &p.details {
                LiquidPaymentDetails::Bitcoin { bitcoin_address, .. } => {
                    let resolved = match liquid_payment_txid(p) {
                        Some(t) => t,
                        None => txid.to_string(),
                    };
                    let mut outputs: Vec<BtcTransactionOutput> = Vec::new();
                    outputs.push(
                        BtcTransactionOutput {
                            output_index: 0,
                            address: bitcoin_address.clone(),
                            amount_sat: p.amount_sat,
                            is_ours: p.payment_type == LiquidPaymentType::Receive,
                        },
                    );
                    Some(
                        BtcTransaction {
                            txid: resolved,
                            block_height: None,
                            outputs,
                            is_outgoing: p.payment_type == LiquidPaymentType::Send,
                        },
                    )
                },
                _ => None,
            };
        }
        i = i + 1;
    }
    None
}

/// Where a Liquid synchronisation starts in the Bitcoin payment listing: the
/// stored created index (truncated to 32 bits), else the start.
pub fn liquid_sync_offset(cursor: Option<OnchainSyncCursor>) -> (r: u32)
    ensures
        r == (match cursor {
            Some(OnchainSyncCursor::CreatedIndex(i)) => i as u32,
            _ => 0u32,
        }),
{
    match cursor {
        Some(OnchainSyncCursor::CreatedIndex(i)) => i as u32,
        _ => 0,
    }
}

/// Whether a listed payment yields a synchronisation event: a chain swap
/// with an on-chain transaction id.
pub open spec fn liquid_yields_event(p: LiquidPayment) -> bool {
    p.details is Bitcoin && liquid_txid(p) is Some
}

/// The payments of a listing that yield events, in order.
pub open spec fn liquid_event_payments(s: Seq<LiquidPayment>) -> Seq<LiquidPayment>
    decreases s.len(),
{
    if s.len() == 0 {
        Seq::empty()
    } else if liquid_yields_event(s.last()) {
        liquid_event_payments(s.drop_last()).push(s.last())
    } else {
        liquid_event_payments(s.drop_last())
    }
}

/// The synchronisation event of a chain swap: a deposit of output 0 to the
/// swap address when received (confirmed once complete), a withdrawal when
/// sent; neither has a block height.
pub open spec fn liquid_sync_event_of(p: LiquidPayment, e: OnchainTransaction) -> bool {
    let txid = liquid_txid(p)->0;
    match p.details {
        LiquidPaymentDetails::Bitcoin { bitcoin_address, .. } => match p.payment_type {
            LiquidPaymentType::Receive => e matches OnchainTransaction::Deposit(b) && b.txid@ == txid
                && b.output_index == 0 && b.address@ == bitcoin_address@ && b.amount_sat == p.amount_sat
                && b.block_height is None && b.outpoint@ == outpoint_text(txid, 0) && b.status == (
            if p.status == LiquidPaymentState::Complete {
                BtcOutputStatus::Confirmed
            } else {
                BtcOutputStatus::Unconfirmed
            }),
            LiquidPaymentType::Send => e matches OnchainTransaction::Withdrawal(w) && w.txid@ == txid
                && w.block_height is None,
        },
        _ => false,
    }
}

/// The synchronisation event of one listed payment, if it yields one.
fn liquid_sync_event(p: &LiquidPayment) -> (r: Option<OnchainTransaction>)
    ensures
        r is Some <==> liquid_yields_event(*p),
        r matches Some(e) ==> liquid_sync_event_of(*p, e),
{
    let address = match &p.details {
        LiquidPaymentDetails::Bitcoin { bitcoin_address, .. } => bitcoin_address,
        _ => return None,
    };
    let txid = match liquid_payment_txid(p) {
        Some(t) => t,
        None => return None,
    };
    match p.payment_type {
        LiquidPaymentType::Receive => {
            let outpoint = outpoint_string(txid.as_str(), 0);
            Some(
                OnchainTransaction::Deposit(
                    BtcOutput {
                        txid,
                        output_index: 0,
                        address: address.clone(),
                        amount_sat: p.amount_sat,
                        block_height: None,
                        outpoint,
                        status: if p.status == LiquidPaymentState::Complete {
                            BtcOutputStatus::Confirmed
                        } else {
                            BtcOutputStatus::Unconfirmed
                        },
                    },
                ),
            )
        },
        LiquidPaymentType::Send => Some(
            OnchainTransaction::Withdrawal(OnchainWithdrawalEvent { txid, block_height: None }),
        ),
    }
}

/// The synchronisation batch over one page of Bitcoin payments listed from
/// `offset`: an event per chain swap with a transaction id, and the next
/// page's offset as the cursor (none for an empty page).
pub fn liquid_sync_batch(payments: &Vec<LiquidPayment>, offset: u32) -> (r: OnchainSyncBatch)
    requires
        offset + payments@.len() <= u64::MAX,
    ensures
        r.events@.len() == liquid_event_payments(payments@).len(),
        forall|k: int|
            0 <= k < r.events@.len() ==> liquid_sync_event_of(
                liquid_event_payments(payments@)[k],
                #[trigger] r.events@[k],
            ),
        r.next_cursor == (if payments@.len() == 0 {
            None
        } else {
            Some(OnchainSyncCursor::CreatedIndex((offset + payments@.len()) as u64))
        }),
{
    let mut events: Vec<OnchainTransaction> = Vec::new();
    let mut i: usize = 0;
    while i < payments.len()
        invariant
            i <= payments@.len(),
            events@.len() == liquid_event_payments(payments@.subrange(0, i as int)).len(),
            forall|k: int|
                0 <= k < events@.len() ==> liquid_sync_event_of(
                    liquid_event_payments(payments@.subrange(0, i as int))[k],
                    #[trigger] events@[k],
                ),
        decreases payments@.len() - i,
    {
        let ghost prefix = payments@.subrange(0, i as int);
        let ghost next = payments@.subrange(0, i + 1);
        assert(next.drop_last() =~= prefix);
        assert(next.last() == payments@[i as int]);
        match liquid_sync_event(&payments[i]) {
            Some(e) => {
                events.push(e);
            },
            None => {},
        }
        i = i + 1;
    }
    assert(payments@.subrange(0, payments@.len() as int) =~= payments@);
    let next_cursor = if payments.len() == 0 {
        None
    } else {
        Some(OnchainSyncCursor::CreatedIndex(offset as u64 + payments.len() as u64))
    };
    OnchainSyncBatch { events, next_cursor }
}

/// Breez Liquid exposes no direct Bitcoin deposit address: asking for a new
/// address fails with `Unsupported`, whatever the address type.
pub fn liquid_new_address(address_type: BtcAddressType) -> (r: Result<String, BitcoinError>)
    ensures
        r matches Err(BitcoinError::Unsupported(m))
            && m@ == "Breez Liquid does not expose a direct Bitcoin deposit address API"@,
{
    Err(BitcoinError::Unsupported("Breez Liquid does not expose a direct Bitcoin deposit address API".to_string()))
}

/// The placeholder id of a prepared Liquid on-chain payment.
pub fn liquid_prepared_txid(receiver_amount_sat: u64) -> (r: String)
    ensures
        r@ == "breez-onchain-"@ + crate::text::decimal(receiver_amount_sat as nat),
{
    let n = crate::text::u64_to_decimal(receiver_amount_sat);
    concat("breez-onchain-", n.as_str())
}

/// The prepared on-chain payment of a Liquid swap: a placeholder id naming
/// the amount received, the swap's total fees, and in place of a PSBT the
/// serialized swap request (Breez Liquid exposes no raw PSBT); nothing locked.
pub fn liquid_prepared_transaction(receiver_amount_sat: u64, total_fees_sat: u64, serialized: String) -> (r: BtcPreparedTransaction)
    ensures
        r.txid@ == "breez-onchain-"@ + crate::text::decimal(receiver_amount_sat as nat),
        r.fee_sat == total_fees_sat,
        r.psbt == serialized,
        r.raw_tx is None,
        r.locked_utxos@.len() == 0,
{
    BtcPreparedTransaction {
        txid: liquid_prepared_txid(receiver_amount_sat),
        fee_sat: total_fees_sat,
        psbt: serialized,
        raw_tx: None,
        locked_utxos: Vec::new(),
    }
}

/// The block height the wallet records for a chain swap: the sentinel 1 once
/// complete (the SDK exposes no height), none before.
pub open spec fn liquid_onchain_height(s: LiquidPaymentState) -> Option<u32> {
    if s == LiquidPaymentState::Complete {
        Some(1)
    } else {
        None
    }
}

/// Whether a payment is a Bitcoin chain swap.
pub fn is_bitcoin_payment(details: &LiquidPaymentDetails) -> (r: bool)
    ensures
        r == details is Bitcoin,
{
    match details {
        LiquidPaymentDetails::Bitcoin { .. } => true,
        _ => false,
    }
}

/// The deposit a received chain swap stands for: its transaction id, output 0
/// to the swap address.
pub fn to_deposit_event(p: &LiquidPayment) -> (r: Option<OnchainDepositEvent>)
    ensures
        r is Some <==> liquid_yields_event(*p),
        r matches Some(e) ==> Some(e.txid@) == liquid_txid(*p) && e.output_index == 0 && (
        p.details matches LiquidPaymentDetails::Bitcoin { bitcoin_address, .. }
            && e.address@ == bitcoin_address@) && e.amount_sat == p.amount_sat && e.block_height
            == liquid_onchain_height(p.status),
{
    let address = match &p.details {
        LiquidPaymentDetails::Bitcoin { bitcoin_address, .. } => bitcoin_address.clone(),
        _ => return None,
    };
    let txid = match liquid_payment_txid(p) {
        Some(t) => t,
        None => return None,
    };
    Some(
        OnchainDepositEvent {
            txid,
            output_index: 0,
            address,
            amount_sat: p.amount_sat,
            block_height: if p.status == LiquidPaymentState::Complete { Some(1) } else { None },
        },
    )
}

/// The withdrawal a sent chain swap stands for.
pub fn to_withdrawal_event(p: &LiquidPayment) -> (r: Option<OnchainWithdrawalEvent>)
    ensures
        r is Some <==> liquid_yields_event(*p),
        r matches Some(e) ==> Some(e.txid@) == liquid_txid(*p) && e.block_height
            == liquid_onchain_height(p.status),
{
    if !is_bitcoin_payment(&p.details) {
        return None;
    }
    let txid = match liquid_payment_txid(p) {
        Some(t) => t,
        None => return None,
    };
    Some(
        OnchainWithdrawalEvent {
            txid,
            block_height: if p.status == LiquidPaymentState::Complete { Some(1) } else { None },
        },
    )
}

/// The failure a failed chain swap stands for, with its transaction id in
/// place of a payment hash.
pub fn to_bitcoin_failure_event(p: &LiquidPayment) -> (r: Option<LnPayFailureEvent>)
    ensures
        r is Some <==> liquid_yields_event(*p),
        r matches Some(e) ==> Some(e.payment_hash@) == liquid_txid(*p) && e.reason@
            == "Bitcoin operation failed with status: "@ + liquid_state_name(p.status),
{
    if !is_bitcoin_payment(&p.details) {
        return None;
    }
    let txid = match liquid_payment_txid(p) {
        Some(t) => t,
        None => return None,
    };
    Some(
        LnPayFailureEvent {
            reason: concat("Bitcoin operation failed with status: ", liquid_state_text(p.status)),
            payment_hash: txid,
        },
    )
}

/// What the listener does for a Liquid SDK event at `now`: a succeeded chain
/// swap is a deposit (received) or a withdrawal (sent); a succeeded Lightning
/// payment is an invoice paid or an outgoing payment; a failed payment is a
/// failure (a chain swap by transaction id); other events do nothing.
pub open spec fn liquid_action_of(l: BreezListener, e: LiquidEvent, now: UtcTime, r: Option<BreezAction>) -> bool {
    match e {
        LiquidEvent::PaymentSucceeded(p) => if p.details is Bitcoin {
            if !liquid_yields_event(p) {
                r is None
            } else {
                match p.payment_type {
                    LiquidPaymentType::Receive => r matches Some(BreezAction::OnchainDeposit(d, c))
                        && c == l.currency && Some(d.txid@) == liquid_txid(p) && d.output_index == 0
                        && (p.details matches LiquidPaymentDetails::Bitcoin { bitcoin_address, .. }
                        && d.address@ == bitcoin_address@) && d.amount_sat == p.amount_sat
                        && d.block_height == liquid_onchain_height(p.status),
                    LiquidPaymentType::Send => r matches Some(BreezAction::OnchainWithdrawal(w))
                        && Some(w.txid@) == liquid_txid(p) && w.block_height == liquid_onchain_height(
                        p.status,
                    ),
                }
            }
        } else {
            match p.payment_type {
                LiquidPaymentType::Receive => r matches Some(BreezAction::InvoicePaid(ev))
                    && text_or_empty(liquid_payment_hash(p.details), ev.payment_hash@)
                    && ev.amount_received_msat == sat_to_msat(p.amount_sat) && ev.fee_msat
                    == sat_to_msat(p.fees_sat) && ev.payment_time == liquid_time(p.timestamp, now),
                LiquidPaymentType::Send => r matches Some(BreezAction::OutgoingPayment(ev))
                    && text_or_empty(liquid_payment_hash(p.details), ev.payment_hash@)
                    && text_or_empty(liquid_preimage(p.details), ev.payment_preimage@)
                    && ev.amount_msat == sat_to_msat(p.amount_sat) && ev.fees_msat == sat_to_msat(
                    p.fees_sat,
                ) && ev.payment_time == liquid_time(p.timestamp, now),
            }
        },
        LiquidEvent::PaymentFailed(p) => if p.details is Bitcoin {
            if liquid_yields_event(p) {
                r matches Some(BreezAction::FailedPayment(f)) && Some(f.payment_hash@) == liquid_txid(p)
                    && f.reason@ == "Bitcoin operation failed with status: "@ + liquid_state_name(
                    p.status,
                )
            } else {
                r is None
            }
        } else {
            r matches Some(BreezAction::FailedPayment(f)) && f.reason@ == "Payment failed with status: "@
                + liquid_state_name(p.status) && text_or_empty(liquid_payment_hash(p.details), f.payment_hash@)
        },
        _ => r is None,
    }
}

impl BreezListener {
    /// The action for a Liquid SDK event, with `now` standing in for an
    /// unrepresentable payment time.
    pub fn liquid_action_at(&self, e: &LiquidEvent, now: UtcTime) -> (r: Option<BreezAction>)
        ensures
            liquid_action_of(*self, *e, now, r),
    {
        match e {
            LiquidEvent::PaymentSucceeded(p) => {
                if is_bitcoin_payment(&p.details) {
                    match p.payment_type {
                        LiquidPaymentType::Receive => match to_deposit_event(p) {
                            Some(d) => Some(BreezAction::OnchainDeposit(d, self.currency)),
                            None => None,
                        },
                        LiquidPaymentType::Send => match to_withdrawal_event(p) {
                            Some(w) => Some(BreezAction::OnchainWithdrawal(w)),
                            None => None,
                        },
                    }
                } else {
                    match p.payment_type {
                        LiquidPaymentType::Receive => Some(BreezAction::InvoicePaid(p.paid_event_at(now))),
                        LiquidPaymentType::Send => Some(BreezAction::OutgoingPayment(p.success_event_at(now))),
                    }
                }
            },
            LiquidEvent::PaymentFailed(p) => {
                if is_bitcoin_payment(&p.details) {
                    match to_bitcoin_failure_event(p) {
                        Some(f) => Some(BreezAction::FailedPayment(f)),
                        None => None,
                    }
                } else {
                    Some(BreezAction::FailedPayment(p.failure_event()))
                }
            },
            _ => None,
        }
    }

    /// The action for a Liquid SDK event.
    pub fn on_liquid_event(&self, e: &LiquidEvent) -> (r: Option<BreezAction>)
        ensures
            exists|now: UtcTime| #[trigger] liquid_action_of(*self, *e, now, r),
    {
        let now = utc_now();
        let r = self.liquid_action_at(e, now);
        assert(liquid_action_of(*self, *e, now, r));
        r
    }
}

/// A Liquid synchronisation reports a received chain swap as a deposit and
/// a sent one as a withdrawal, of the swap's transaction; the deposit is at
/// output 0 of the swap's address for the swap's amount, and it is confirmed
/// exactly when the swap is complete: a swap in any other state gives an
/// unconfirmed output.
pub proof fn lemma_liquid_sync_event_follows_swap(p: LiquidPayment, e: OnchainTransaction)
    requires
        liquid_yields_event(p),
        liquid_sync_event_of(p, e),
    ensures
        p.details is Bitcoin,
        e is Deposit <==> p.payment_type == LiquidPaymentType::Receive,
        e is Withdrawal <==> p.payment_type == LiquidPaymentType::Send,
        e matches OnchainTransaction::Deposit(b) ==> {
            &&& Some(b.txid@) == liquid_txid(p)
            &&& b.output_index == 0
            &&& b.amount_sat == p.amount_sat
            &&& (b.status == BtcOutputStatus::Confirmed <==> p.status == LiquidPaymentState::Complete)
            &&& (p.status != LiquidPaymentState::Complete ==> b.status == BtcOutputStatus::Unconfirmed)
        },
        e matches OnchainTransaction::Withdrawal(w) ==> Some(w.txid@) == liquid_txid(p),
{
}

/// Every payment a synchronisation reports on yields an event.
proof fn lemma_liquid_event_payments_yield(s: Seq<LiquidPayment>)
    ensures
        forall|k: int| 0 <= k < liquid_event_payments(s).len() ==> liquid_yields_event(
            #[trigger] liquid_event_payments(s)[k],
        ),
    decreases s.len(),
{
    if s.len() > 0 {
        lemma_liquid_event_payments_yield(s.drop_last());
        let t = liquid_event_payments(s.drop_last());
        if liquid_yields_event(s.last()) {
            assert forall|k: int| 0 <= k < liquid_event_payments(s).len() implies liquid_yields_event(
                #[trigger] liquid_event_payments(s)[k],
            ) by {
                if k < t.len() {
                    assert(liquid_event_payments(s)[k] == t[k]);
                }
            }
        }
    }
}

/// Each deposit a Liquid synchronisation batch reports is confirmed exactly
/// when its chain swap is complete, and unconfirmed otherwise.
pub proof fn lemma_liquid_batch_deposits_confirmed_when_complete(
    payments: Seq<LiquidPayment>,
    events: Seq<OnchainTransaction>,
)
    requires
        events.len() == liquid_event_payments(payments).len(),
        forall|k: int| 0 <= k < events.len() ==> liquid_sync_event_of(
            liquid_event_payments(payments)[k],
            #[trigger] events[k],
        ),
    ensures
        forall|k: int| 0 <= k < events.len() ==> ((#[trigger] events[k]) matches OnchainTransaction::Deposit(b) ==> (
        b.status == BtcOutputStatus::Confirmed <==> liquid_event_payments(payments)[k].status
            == LiquidPaymentState::Complete) && (liquid_event_payments(payments)[k].status
            != LiquidPaymentState::Complete ==> b.status == BtcOutputStatus::Unconfirmed)),
{
    lemma_liquid_event_payments_yield(payments);
    assert forall|k: int| 0 <= k < events.len() implies ((#[trigger] events[k]) matches OnchainTransaction::Deposit(b) ==> (
    b.status == BtcOutputStatus::Confirmed <==> liquid_event_payments(payments)[k].status
        == LiquidPaymentState::Complete) && (liquid_event_payments(payments)[k].status
        != LiquidPaymentState::Complete ==> b.status == BtcOutputStatus::Unconfirmed)) by {
        lemma_liquid_sync_event_follows_swap(liquid_event_payments(payments)[k], events[k]);
    }
}

/// For a succeeded Liquid payment, the listener records what happened in the
/// payment's own direction: a received Lightning payment as a paid invoice
/// and a sent one as an outgoing payment, a received chain swap as a deposit
/// and a sent one as a withdrawal, each with the payment's hash (or
/// transaction) and its amount and fees in millisatoshis. A failed payment is
/// recorded as a failure, never as a success.
pub proof fn lemma_liquid_action_follows_direction(l: BreezListener, e: LiquidEvent, now: UtcTime, r: Option<BreezAction>)
    requires
        liquid_action_of(l, e, now, r),
    ensures
        e matches LiquidEvent::PaymentSucceeded(p) ==> !(p.details is Bitcoin) ==> {
            &&& (r matches Some(BreezAction::InvoicePaid(_))) <==> p.payment_type == LiquidPaymentType::Receive
            &&& (r matches Some(BreezAction::OutgoingPayment(_))) <==> p.payment_type == LiquidPaymentType::Send
            &&& r matches Some(BreezAction::InvoicePaid(ev)) ==> text_or_empty(liquid_payment_hash(p.details), ev.payment_hash@)
                && ev.amount_received_msat == sat_to_msat(p.amount_sat) && ev.fee_msat == sat_to_msat(p.fees_sat)
            &&& r matches Some(BreezAction::OutgoingPayment(ev)) ==> text_or_empty(liquid_payment_hash(p.details), ev.payment_hash@)
                && ev.amount_msat == sat_to_msat(p.amount_sat) && ev.fees_msat == sat_to_msat(p.fees_sat)
        },
        e matches LiquidEvent::PaymentSucceeded(p) ==> p.details is Bitcoin ==> liquid_yields_event(p) ==> {
            &&& (r matches Some(BreezAction::OnchainDeposit(_, _))) <==> p.payment_type == LiquidPaymentType::Receive
            &&& (r matches Some(BreezAction::OnchainWithdrawal(_))) <==> p.payment_type == LiquidPaymentType::Send
            &&& r matches Some(BreezAction::OnchainDeposit(d, c)) ==> Some(d.txid@) == liquid_txid(p)
                && d.amount_sat == p.amount_sat && c == l.currency
        },
        e matches LiquidEvent::PaymentFailed(_) ==> (r is None || r matches Some(BreezAction::FailedPayment(_))),
{
}

/// A Liquid payment keeps its outcome in the wallet: settled exactly when
/// complete, failed exactly when failed or timed out (and then with an
/// error), pending in any other state; its amounts are the payment's, in
/// millisatoshis.
pub proof fn lemma_liquid_payment_keeps_outcome(p: LiquidPayment, now: UtcTime, r: Payment)
    requires
        payment_of_liquid(p, now, r),
    ensures
        r.status == PaymentStatus::Settled <==> p.status == LiquidPaymentState::Complete,
        r.status == PaymentStatus::Failed <==> (p.status == LiquidPaymentState::Failed || p.status
            == LiquidPaymentState::TimedOut),
        r.error is Some <==> r.status == PaymentStatus::Failed,
        r.amount_msat == sat_to_msat(p.amount_sat),
        r.fee_msat == Some(sat_to_msat(p.fees_sat)),
{
}

/// An invoice paid through Liquid is settled exactly when the payment is
/// complete, expired exactly when it failed or timed out, and pending
/// otherwise.
pub proof fn lemma_liquid_invoice_keeps_outcome(p: LiquidPayment, now: UtcTime, r: Invoice)
    requires
        invoice_of_liquid(p, now, r),
    ensures
        r.status == InvoiceStatus::Settled <==> p.status == LiquidPaymentState::Complete,
        r.status == InvoiceStatus::Expired <==> (p.status == LiquidPaymentState::Failed || p.status
            == LiquidPaymentState::TimedOut),
        r.status == InvoiceStatus::Pending <==> !(p.status == LiquidPaymentState::Complete || p.status
            == LiquidPaymentState::Failed || p.status == LiquidPaymentState::TimedOut),
        r.amount_msat == Some(sat_to_msat(p.amount_sat)),
{
}

} // verus!
