//! Breez Spark SDK: the payments and events the wallet reads (as plain data)
//! and their verified mapping onto the wallet's model.
use vstd::prelude::*;

use crate::bolt11::{
    bolt11_expiry_of, bolt11_fields, bolt11_fields_of, bolt11_fields_wf, bolt11_parses, bolt11_timestamp_of,
    decode_bolt11, Bolt11Description, Bolt11Fields,
};
use crate::breez::{BreezAction, BreezListener, sat_at_least_one, sat_amount, sat_to_msat, msat_from_sat, text_or_empty};
use crate::cln_rest::secs_in_range;
use crate::domain::{
    BitcoinError,
    BtcNetwork, BtcPreparedTransaction, Currency, Invoice, InvoiceStatus, Ledger, LightningError,
    LnInvoice, LnInvoicePaidEvent, LnPayFailureEvent, LnPaySuccessEvent, LnPayment,
    OnchainDepositEvent, OnchainSyncBatch, OnchainSyncCursor, OnchainWithdrawalEvent, Payment,
    PaymentStatus,
};
use crate::text::{concat, hex_encode, hex_lower, lowercase, opt_text, str_eq, to_lowercase};
use crate::time::{at_secs, max_utc_secs, utc_add_secs, utc_at_secs_or, utc_now, UtcTime};

verus! {

/// How a Spark payment moved.
#[derive(Clone, Copy, Debug, PartialEq, Eq, Structural)]
pub enum SparkPaymentMethod {
    Lightning,
    Spark,
    Token,
    Deposit,
    Withdraw,
    Unknown,
}

/// State of a Spark payment.
#[derive(Clone, Copy, Debug, PartialEq, Eq, Structural)]
pub enum SparkPaymentStatus {
    Completed,
    Pending,
    Failed,
}

/// Direction of a Spark payment.
#[derive(Clone, Copy, Debug, PartialEq, Eq, Structural)]
pub enum SparkPaymentType {
    Send,
    Receive,
}

/// The HTLC of a Lightning (or Spark HTLC) payment.
#[derive(Clone, Debug, PartialEq, Eq)]
pub struct SparkHtlcDetails {
    pub payment_hash: String,
    pub preimage: Option<String>,
}

/// The invoice of a Spark transfer.
#[derive(Clone, Debug, PartialEq, Eq)]
pub struct SparkInvoiceDetails {
    pub description: Option<String>,
}

/// The LNURL-pay data of a Lightning payment.
#[derive(Clone, Debug, PartialEq, Eq)]
pub struct LnurlPayInfo {
    pub ln_address: Option<String>,
}

/// What a Spark payment carries, by kind.
#[derive(Clone, Debug, PartialEq, Eq)]
pub enum SparkPaymentDetails {
    Spark { invoice_details: Option<SparkInvoiceDetails>, htlc_details: Option<SparkHtlcDetails> },
    Token,
    Lightning {
        description: Option<String>,
        htlc_details: SparkHtlcDetails,
        lnurl_pay_info: Option<LnurlPayInfo>,
        /// The LNURL receive metadata, as its JSON text.
        lnurl_receive_metadata: Option<String>,
    },
    Withdraw { tx_id: String },
    Deposit { tx_id: String },
}

/// A Spark payment. Amounts are in satoshis; the time in seconds since the
/// epoch.
#[derive(Clone, Debug, PartialEq, Eq)]
pub struct SparkPayment {
    pub id: String,
    pub payment_type: SparkPaymentType,
    pub status: SparkPaymentStatus,
    pub amount: u128,
    pub fees: u128,
    pub timestamp: u64,
    pub method: SparkPaymentMethod,
    pub details: Option<SparkPaymentDetails>,
}

/// The Spark networks.
#[derive(Clone, Copy, Debug, PartialEq, Eq, Structural)]
pub enum SparkNetwork {
    Mainnet,
    Regtest,
}

/// The Bitcoin networks Spark names.
#[derive(Clone, Copy, Debug, PartialEq, Eq, Structural)]
pub enum SparkBitcoinNetwork {
    Bitcoin,
    Testnet3,
    Testnet4,
    Signet,
    Regtest,
}

/// An event of the Spark SDK.
#[derive(Clone, Debug, PartialEq, Eq)]
pub enum SparkEvent {
    PaymentSucceeded(SparkPayment),
    PaymentFailed(SparkPayment),
    PaymentPending(SparkPayment),
    UnclaimedDeposits,
    ClaimedDeposits,
    Synced,
    Optimization,
}

/// Settings of the Breez Spark client.
#[derive(Clone, Debug, PartialEq, Eq)]
pub struct BreezClientConfig {
    pub api_key: Option<String>,
    pub working_dir: String,
    pub mnemonic: String,
    pub passphrase: Option<String>,
    pub network: String,
    pub sync_interval_secs: Option<u32>,
    pub prefer_spark_over_lightning: Option<bool>,
    pub real_time_sync_server_url: Option<String>,
    pub lnurl_domain: Option<String>,
}

/// The description of a payment: a Lightning payment's, or the invoice's of a
/// Spark transfer.
pub open spec fn spark_description(d: Option<SparkPaymentDetails>) -> Option<Seq<char>> {
    match d {
        Some(SparkPaymentDetails::Lightning { description, .. }) => opt_text(description),
        Some(SparkPaymentDetails::Spark { invoice_details: Some(i), .. }) => opt_text(i.description),
        _ => None,
    }
}

/// The payment hash of a Lightning payment or of a Spark HTLC transfer.
pub open spec fn spark_payment_hash(d: Option<SparkPaymentDetails>) -> Option<Seq<char>> {
    match d {
        Some(SparkPaymentDetails::Lightning { htlc_details, .. }) => Some(htlc_details.payment_hash@),
        Some(SparkPaymentDetails::Spark { htlc_details: Some(h), .. }) => Some(h.payment_hash@),
        _ => None,
    }
}

/// The preimage of a Lightning payment or of a Spark HTLC transfer.
pub open spec fn spark_preimage(d: Option<SparkPaymentDetails>) -> Option<Seq<char>> {
    match d {
        Some(SparkPaymentDetails::Lightning { htlc_details, .. }) => opt_text(htlc_details.preimage),
        Some(SparkPaymentDetails::Spark { htlc_details: Some(h), .. }) => opt_text(h.preimage),
        _ => None,
    }
}

/// The lightning address a Lightning payment was paid to.
pub open spec fn spark_ln_address(d: Option<SparkPaymentDetails>) -> Option<Seq<char>> {
    match d {
        Some(SparkPaymentDetails::Lightning { lnurl_pay_info: Some(i), .. }) => opt_text(i.ln_address),
        _ => None,
    }
}

/// The LNURL receive metadata of a Lightning payment.
pub open spec fn spark_lnurl_metadata(d: Option<SparkPaymentDetails>) -> Option<Seq<char>> {
    match d {
        Some(SparkPaymentDetails::Lightning { lnurl_receive_metadata, .. }) => opt_text(
            lnurl_receive_metadata,
        ),
        _ => None,
    }
}

/// A copy of an optional string with the same text.
fn copy_opt(o: &Option<String>) -> (r: Option<String>)
    ensures
        opt_text(r) == opt_text(*o),
{
    match o {
        Some(s) => Some(s.clone()),
        None => None,
    }
}

/// The description of a payment.
pub fn get_description(d: &Option<SparkPaymentDetails>) -> (r: Option<String>)
    ensures
        opt_text(r) == spark_description(*d),
{
    match d {
        Some(SparkPaymentDetails::Lightning { description, .. }) => copy_opt(description),
        Some(SparkPaymentDetails::Spark { invoice_details: Some(i), .. }) => copy_opt(&i.description),
        _ => None,
    }
}

/// The payment hash of a payment.
pub fn get_payment_hash(d: &Option<SparkPaymentDetails>) -> (r: Option<String>)
    ensures
        opt_text(r) == spark_payment_hash(*d),
{
    match d {
        Some(SparkPaymentDetails::Lightning { htlc_details, .. }) => Some(htlc_details.payment_hash.clone()),
        Some(SparkPaymentDetails::Spark { htlc_details: Some(h), .. }) => Some(h.payment_hash.clone()),
        _ => None,
    }
}

/// The preimage of a payment.
pub fn get_payment_preimage(d: &Option<SparkPaymentDetails>) -> (r: Option<String>)
    ensures
        opt_text(r) == spark_preimage(*d),
{
    match d {
        Some(SparkPaymentDetails::Lightning { htlc_details, .. }) => copy_opt(&htlc_details.preimage),
        Some(SparkPaymentDetails::Spark { htlc_details: Some(h), .. }) => copy_opt(&h.preimage),
        _ => None,
    }
}

/// The lightning address of a payment.
pub fn get_ln_address(d: &Option<SparkPaymentDetails>) -> (r: Option<String>)
    ensures
        opt_text(r) == spark_ln_address(*d),
{
    match d {
        Some(SparkPaymentDetails::Lightning { lnurl_pay_info: Some(i), .. }) => copy_opt(&i.ln_address),
        _ => None,
    }
}

/// The LNURL receive metadata of a payment.
pub fn get_lnurl_metadata(d: &Option<SparkPaymentDetails>) -> (r: Option<String>)
    ensures
        opt_text(r) == spark_lnurl_metadata(*d),
{
    match d {
        Some(SparkPaymentDetails::Lightning { lnurl_receive_metadata, .. }) => copy_opt(lnurl_receive_metadata),
        _ => None,
    }
}

/// The instant of a payment's second, or `now` when it is not representable.
pub open spec fn spark_time(ts: u64, now: UtcTime) -> UtcTime {
    if secs_in_range((ts as i64) as int) {
        at_secs((ts as i64) as int)
    } else {
        now
    }
}

/// The wallet status of a Spark payment state.
pub open spec fn spark_payment_status(s: SparkPaymentStatus) -> PaymentStatus {
    match s {
        SparkPaymentStatus::Completed => PaymentStatus::Settled,
        SparkPaymentStatus::Failed => PaymentStatus::Failed,
        SparkPaymentStatus::Pending => PaymentStatus::Pending,
    }
}

/// The wallet invoice status of a Spark payment state.
pub open spec fn spark_invoice_status(s: SparkPaymentStatus) -> InvoiceStatus {
    match s {
        SparkPaymentStatus::Completed => InvoiceStatus::Settled,
        SparkPaymentStatus::Failed => InvoiceStatus::Expired,
        SparkPaymentStatus::Pending => InvoiceStatus::Pending,
    }
}

/// The name of a Spark payment state, as its `Debug` form writes it.
pub open spec fn spark_status_name(s: SparkPaymentStatus) -> Seq<char> {
    match s {
        SparkPaymentStatus::Completed => "Completed"@,
        SparkPaymentStatus::Pending => "Pending"@,
        SparkPaymentStatus::Failed => "Failed"@,
    }
}

/// The name of a Spark payment state.
pub fn spark_status_text(s: SparkPaymentStatus) -> (r: &'static str)
    ensures
        r@ == spark_status_name(s),
{
    match s {
        SparkPaymentStatus::Completed => "Completed",
        SparkPaymentStatus::Pending => "Pending",
        SparkPaymentStatus::Failed => "Failed",
    }
}

/// Whether a payment method moves coins on-chain (a deposit or a withdrawal).
pub open spec fn is_onchain_method(m: SparkPaymentMethod) -> bool {
    m == SparkPaymentMethod::Deposit || m == SparkPaymentMethod::Withdraw
}

/// Returns true if the payment is an on-chain deposit or withdrawal.
pub fn is_onchain_payment(method: &SparkPaymentMethod) -> (r: bool)
    ensures
        r == is_onchain_method(*method),
{
    match method {
        SparkPaymentMethod::Deposit | SparkPaymentMethod::Withdraw => true,
        _ => false,
    }
}

/// The wallet payment a Spark payment stands for, at `now` when its own time
/// is not representable: on-chain methods on the on-chain ledger, amounts in
/// millisatoshis (saturating), a failure as `Payment failed`, and Lightning
/// data when the payment has a hash.
pub open spec fn payment_of_spark(p: SparkPayment, now: UtcTime, r: Payment) -> bool {
    &&& r.ledger == (if is_onchain_method(p.method) {
        Ledger::Onchain
    } else {
        Ledger::Lightning
    })
    &&& r.status == spark_payment_status(p.status)
    &&& opt_text(r.error) == (if p.status == SparkPaymentStatus::Failed {
        Some("Payment failed"@)
    } else {
        None
    })
    &&& r.amount_msat == sat_to_msat(p.amount as u64)
    &&& r.fee_msat == Some(sat_to_msat(p.fees as u64))
    &&& r.payment_time == Some(spark_time(p.timestamp, now))
    &&& opt_text(r.description) == spark_description(p.details)
    &&& match spark_payment_hash(p.details) {
        Some(h) => r.lightning matches Some(l) && l.payment_hash@ == h && opt_text(l.ln_address)
            == spark_ln_address(p.details) && opt_text(l.payment_preimage) == spark_preimage(p.details)
            && opt_text(l.metadata) == spark_lnurl_metadata(p.details),
        None => r.lightning is None,
    }
}

/// The invoice a received Spark payment stands for, at `now` when its own
/// time is not representable. The fields a Spark payment does not carry keep
/// their defaults: mainnet currency, the epoch as creation time, no amount
/// received and no BOLT 11 data.
pub open spec fn invoice_of_spark(p: SparkPayment, now: UtcTime, r: Invoice) -> bool {
    &&& r.ledger == Ledger::Lightning
    &&& r.currency == Currency::Bitcoin
    &&& opt_text(r.description) == spark_description(p.details)
    &&& r.amount_msat == Some(sat_to_msat(p.amount as u64))
    &&& r.amount_received_msat is None
    &&& r.fee_msat == Some(sat_to_msat(p.fees as u64))
    &&& r.timestamp == (UtcTime { secs: 0, nanos: 0 })
    &&& r.status == spark_invoice_status(p.status)
    &&& r.payment_time == Some(spark_time(p.timestamp, now))
    &&& r.ln_invoice is None
}

impl SparkPayment {
    /// The wallet payment for this payment, with `now` standing in for an
    /// unrepresentable time.
    pub fn payment_at(&self, now: UtcTime) -> (r: Payment)
        ensures
            payment_of_spark(*self, now, r),
    {
        let ledger = if is_onchain_payment(&self.method) { Ledger::Onchain } else { Ledger::Lightning };
        let status = match self.status {
            SparkPaymentStatus::Completed => PaymentStatus::Settled,
            SparkPaymentStatus::Failed => PaymentStatus::Failed,
            SparkPaymentStatus::Pending => PaymentStatus::Pending,
        };
        let error = match self.status {
            SparkPaymentStatus::Failed => Some("Payment failed".to_string()),
            _ => None,
        };
        let lightning = match get_payment_hash(&self.details) {
            Some(hash) => Some(
                LnPayment {
                    ln_address: get_ln_address(&self.details),
                    payment_hash: hash,
                    payment_preimage: get_payment_preimage(&self.details),
                    metadata: get_lnurl_metadata(&self.details),
                },
            ),
            None => None,
        };
        Payment {
            ledger,
            status,
            amount_msat: msat_from_sat(self.amount as u64),
            fee_msat: Some(msat_from_sat(self.fees as u64)),
            payment_time: Some(utc_at_secs_or(self.timestamp as i64, now)),
            error,
            description: get_description(&self.details),
            lightning,
        }
    }

    /// The wallet payment for this payment.
    pub fn into_payment(self) -> (r: Payment)
        ensures
            exists|now: UtcTime| #[trigger] payment_of_spark(self, now, r),
    {
        let now = utc_now();
        let r = self.payment_at(now);
        assert(payment_of_spark(self, now, r));
        r
    }

    /// The invoice for this payment, with `now` standing in for an
    /// unrepresentable time.
    pub fn invoice_at(&self, now: UtcTime) -> (r: Invoice)
        ensures
            invoice_of_spark(*self, now, r),
    {
        Invoice {
            ledger: Ledger::Lightning,
            currency: Currency::Bitcoin,
            description: get_description(&self.details),
            amount_msat: Some(msat_from_sat(self.amount as u64)),
            amount_received_msat: None,
            fee_msat: Some(msat_from_sat(self.fees as u64)),
            timestamp: UtcTime { secs: 0, nanos: 0 },
            status: match self.status {
                SparkPaymentStatus::Completed => InvoiceStatus::Settled,
                SparkPaymentStatus::Failed => InvoiceStatus::Expired,
                SparkPaymentStatus::Pending => InvoiceStatus::Pending,
            },
            payment_time: Some(utc_at_secs_or(self.timestamp as i64, now)),
            ln_invoice: None,
        }
    }

    /// The invoice for this payment.
    pub fn into_invoice(self) -> (r: Invoice)
        ensures
            exists|now: UtcTime| #[trigger] invoice_of_spark(self, now, r),
    {
        let now = utc_now();
        let r = self.invoice_at(now);
        assert(invoice_of_spark(self, now, r));
        r
    }

    /// The paid event for this received payment: its hash (empty when it has
    /// none), amount and fee in millisatoshis, at its time (else `now`).
    pub fn paid_event_at(&self, now: UtcTime) -> (r: LnInvoicePaidEvent)
        ensures
            text_or_empty(spark_payment_hash(self.details), r.payment_hash@),
            r.amount_received_msat == sat_to_msat(self.amount as u64),
            r.fee_msat == sat_to_msat(self.fees as u64),
            r.payment_time == spark_time(self.timestamp, now),
    {
        let payment_hash = match get_payment_hash(&self.details) {
            Some(h) => h,
            None => String::new(),
        };
        LnInvoicePaidEvent {
            payment_hash,
            amount_received_msat: msat_from_sat(self.amount as u64),
            fee_msat: msat_from_sat(self.fees as u64),
            payment_time: utc_at_secs_or(self.timestamp as i64, now),
        }
    }

    /// The success event for this sent payment: its hash and preimage (empty
    /// when absent), amount and fees in millisatoshis, at its time (else
    /// `now`).
    pub fn success_event_at(&self, now: UtcTime) -> (r: LnPaySuccessEvent)
        ensures
            text_or_empty(spark_payment_hash(self.details), r.payment_hash@),
            text_or_empty(spark_preimage(self.details), r.payment_preimage@),
            r.amount_msat == sat_to_msat(self.amount as u64),
            r.fees_msat == sat_to_msat(self.fees as u64),
            r.payment_time == spark_time(self.timestamp, now),
    {
        let payment_hash = match get_payment_hash(&self.details) {
            Some(h) => h,
            None => String::new(),
        };
        let payment_preimage = match get_payment_preimage(&self.details) {
            Some(p) => p,
            None => String::new(),
        };
        LnPaySuccessEvent {
            amount_msat: msat_from_sat(self.amount as u64),
            fees_msat: msat_from_sat(self.fees as u64),
            payment_hash,
            payment_preimage,
            payment_time: utc_at_secs_or(self.timestamp as i64, now),
        }
    }

    /// The failure event for this payment: `Payment failed with status: `
    /// and the state's name, with its hash (empty when it has none).
    pub fn failure_event(&self) -> (r: LnPayFailureEvent)
        ensures
            r.reason@ == "Payment failed with status: "@ + spark_status_name(self.status),
            text_or_empty(spark_payment_hash(self.details), r.payment_hash@),
    {
        let payment_hash = match get_payment_hash(&self.details) {
            Some(h) => h,
            None => String::new(),
        };
        LnPayFailureEvent {
            reason: concat("Payment failed with status: ", spark_status_text(self.status)),
            payment_hash,
        }
    }
}

/// The block height the wallet records for a Spark on-chain payment: the
/// sentinel 1 once completed (Spark exposes no height), none before.
pub open spec fn spark_onchain_height(s: SparkPaymentStatus) -> Option<u32> {
    if s == SparkPaymentStatus::Completed {
        Some(1)
    } else {
        None
    }
}

/// Converts a Spark Withdraw payment into an OnchainWithdrawalEvent.
pub fn to_withdrawal_event(payment: &SparkPayment) -> (r: Option<OnchainWithdrawalEvent>)
    ensures
        match payment.details {
            Some(SparkPaymentDetails::Withdraw { tx_id }) => r matches Some(e) && e.txid@ == tx_id@
                && e.block_height == spark_onchain_height(payment.status),
            _ => r is None,
        },
{
    let txid = match &payment.details {
        Some(SparkPaymentDetails::Withdraw { tx_id }) => tx_id.clone(),
        _ => return None,
    };
    let block_height = match payment.status {
        SparkPaymentStatus::Completed => Some(1),
        _ => None,
    };
    Some(OnchainWithdrawalEvent { txid, block_height })
}

/// Converts a Spark Deposit payment into an OnchainDepositEvent. Spark's
/// deposit details carry only the transaction id: the output index is 0 and
/// the address empty.
pub fn to_deposit_event(payment: &SparkPayment) -> (r: Option<OnchainDepositEvent>)
    ensures
        match payment.details {
            Some(SparkPaymentDetails::Deposit { tx_id }) => r matches Some(e) && e.txid@ == tx_id@
                && e.output_index == 0 && e.address@.len() == 0 && e.amount_sat == payment.amount as u64
                && e.block_height == spark_onchain_height(payment.status),
            _ => r is None,
        },
{
    let txid = match &payment.details {
        Some(SparkPaymentDetails::Deposit { tx_id }) => tx_id.clone(),
        _ => return None,
    };
    let block_height = match payment.status {
        SparkPaymentStatus::Completed => Some(1),
        _ => None,
    };
    Some(
        OnchainDepositEvent {
            txid,
            output_index: 0,
            address: String::new(),
            amount_sat: payment.amount as u64,
            block_height,
        },
    )
}

/// Converts a failed Bitcoin payment into an LnPayFailureEvent, with the
/// transaction id standing for the payment hash.
pub fn to_bitcoin_failure_event(payment: &SparkPayment) -> (r: Option<LnPayFailureEvent>)
    ensures
        match payment.details {
            Some(SparkPaymentDetails::Deposit { tx_id }) | Some(SparkPaymentDetails::Withdraw { tx_id }) => r matches Some(
                e,
            ) && e.payment_hash@ == tx_id@ && e.reason@ == "Bitcoin operation failed with status: "@
                + spark_status_name(payment.status),
            _ => r is None,
        },
{
    let txid = match &payment.details {
        Some(SparkPaymentDetails::Deposit { tx_id }) | Some(SparkPaymentDetails::Withdraw { tx_id }) => tx_id.clone(),
        _ => return None,
    };
    Some(
        LnPayFailureEvent {
            reason: concat("Bitcoin operation failed with status: ", spark_status_text(payment.status)),
            payment_hash: txid,
        },
    )
}

/// The currency of a Spark network.
pub open spec fn spark_network_currency(n: SparkNetwork) -> Currency {
    match n {
        SparkNetwork::Mainnet => Currency::Bitcoin,
        SparkNetwork::Regtest => Currency::Regtest,
    }
}

/// The currency of a Bitcoin network as Spark names it.
pub open spec fn spark_bitcoin_currency(n: SparkBitcoinNetwork) -> Currency {
    match n {
        SparkBitcoinNetwork::Bitcoin => Currency::Bitcoin,
        SparkBitcoinNetwork::Testnet3 | SparkBitcoinNetwork::Testnet4 => Currency::BitcoinTestnet,
        SparkBitcoinNetwork::Signet => Currency::Signet,
        SparkBitcoinNetwork::Regtest => Currency::Regtest,
    }
}

impl SparkNetwork {
    /// The currency of this network.
    pub fn currency(self) -> (r: Currency)
        ensures
            r == spark_network_currency(self),
    {
        match self {
            SparkNetwork::Mainnet => Currency::Bitcoin,
            SparkNetwork::Regtest => Currency::Regtest,
        }
    }
}

impl SparkBitcoinNetwork {
    /// The currency of this network.
    pub fn currency(self) -> (r: Currency)
        ensures
            r == spark_bitcoin_currency(self),
    {
        match self {
            SparkBitcoinNetwork::Bitcoin => Currency::Bitcoin,
            SparkBitcoinNetwork::Testnet3 | SparkBitcoinNetwork::Testnet4 => Currency::BitcoinTestnet,
            SparkBitcoinNetwork::Signet => Currency::Signet,
            SparkBitcoinNetwork::Regtest => Currency::Regtest,
        }
    }
}

/// What the listener does for a Spark event at `now`: a succeeded on-chain
/// payment is a deposit (received) or a withdrawal (sent) when its details
/// say so; a succeeded Lightning or Spark payment is an invoice paid
/// (received) or an outgoing payment (sent); a failed payment is a failure,
/// on-chain ones by transaction id; other events do nothing.
pub open spec fn spark_action_of(l: BreezListener, e: SparkEvent, now: UtcTime, r: Option<BreezAction>) -> bool {
    match e {
        SparkEvent::PaymentSucceeded(p) => if is_onchain_method(p.method) {
            match p.payment_type {
                SparkPaymentType::Receive => match p.details {
                    Some(SparkPaymentDetails::Deposit { tx_id }) => r matches Some(
                        BreezAction::OnchainDeposit(d, c),
                    ) && c == l.currency && d.txid@ == tx_id@ && d.output_index == 0
                        && d.address@.len() == 0 && d.amount_sat == p.amount as u64 && d.block_height
                        == spark_onchain_height(p.status),
                    _ => r is None,
                },
                SparkPaymentType::Send => match p.details {
                    Some(SparkPaymentDetails::Withdraw { tx_id }) => r matches Some(
                        BreezAction::OnchainWithdrawal(w),
                    ) && w.txid@ == tx_id@ && w.block_height == spark_onchain_height(p.status),
                    _ => r is None,
                },
            }
        } else {
            match p.payment_type {
                SparkPaymentType::Receive => r matches Some(BreezAction::InvoicePaid(ev))
                    && text_or_empty(spark_payment_hash(p.details), ev.payment_hash@)
                    && ev.amount_received_msat == sat_to_msat(p.amount as u64) && ev.fee_msat
                    == sat_to_msat(p.fees as u64) && ev.payment_time == spark_time(p.timestamp, now),
                SparkPaymentType::Send => r matches Some(BreezAction::OutgoingPayment(ev))
                    && text_or_empty(spark_payment_hash(p.details), ev.payment_hash@)
                    && text_or_empty(spark_preimage(p.details), ev.payment_preimage@)
                    && ev.amount_msat == sat_to_msat(p.amount as u64) && ev.fees_msat == sat_to_msat(
                    p.fees as u64,
                ) && ev.payment_time == spark_time(p.timestamp, now),
            }
        },
        SparkEvent::PaymentFailed(p) => if is_onchain_method(p.method) {
            match p.details {
                Some(SparkPaymentDetails::Deposit { tx_id }) | Some(
                    SparkPaymentDetails::Withdraw { tx_id },
                ) => r matches Some(BreezAction::FailedPayment(f)) && f.payment_hash@ == tx_id@
                    && f.reason@ == "Bitcoin operation failed with status: "@ + spark_status_name(
                    p.status,
                ),
                _ => r is None,
            }
        } else {
            r matches Some(BreezAction::FailedPayment(f)) && f.reason@
                == "Payment failed with status: "@ + spark_status_name(p.status) && text_or_empty(
                spark_payment_hash(p.details),
                f.payment_hash@,
            )
        },
        _ => r is None,
    }
}

/// For a succeeded Spark payment, the listener records what happened in the
/// payment's own direction: a received Lightning or Spark payment as a paid
/// invoice and a sent one as an outgoing payment, a received on-chain payment
/// as a deposit and a sent one as a withdrawal; a failed payment is recorded
/// as a failure, never as a success.
pub proof fn lemma_spark_action_follows_direction(l: BreezListener, e: SparkEvent, now: UtcTime, r: Option<BreezAction>)
    requires
        spark_action_of(l, e, now, r),
    ensures
        e matches SparkEvent::PaymentSucceeded(p) ==> !is_onchain_method(p.method) ==> {
            &&& (r matches Some(BreezAction::InvoicePaid(_))) <==> p.payment_type == SparkPaymentType::Receive
            &&& (r matches Some(BreezAction::OutgoingPayment(_))) <==> p.payment_type == SparkPaymentType::Send
            &&& r matches Some(BreezAction::InvoicePaid(ev)) ==> text_or_empty(spark_payment_hash(p.details), ev.payment_hash@)
                && ev.amount_received_msat == sat_to_msat(p.amount as u64)
            &&& r matches Some(BreezAction::OutgoingPayment(ev)) ==> text_or_empty(spark_payment_hash(p.details), ev.payment_hash@)
                && ev.amount_msat == sat_to_msat(p.amount as u64)
        },
        e matches SparkEvent::PaymentSucceeded(p) ==> is_onchain_method(p.method) ==> {
            &&& r matches Some(BreezAction::OnchainDeposit(_, _)) ==> p.payment_type == SparkPaymentType::Receive
            &&& r matches Some(BreezAction::OnchainWithdrawal(_)) ==> p.payment_type == SparkPaymentType::Send
            &&& !(r matches Some(BreezAction::InvoicePaid(_))) && !(r matches Some(BreezAction::OutgoingPayment(_)))
        },
        e matches SparkEvent::PaymentFailed(_) ==> (r is None || r matches Some(BreezAction::FailedPayment(_))),
{
}

/// A Spark payment keeps its outcome in the wallet: settled exactly when
/// completed, failed exactly when failed (and then with an error), pending
/// otherwise; an invoice paid through Spark is settled, expired or pending
/// in the same way.
pub proof fn lemma_spark_keeps_outcome(p: SparkPayment, now: UtcTime, r: Payment, inv: Invoice)
    requires
        payment_of_spark(p, now, r),
        invoice_of_spark(p, now, inv),
    ensures
        r.status == PaymentStatus::Settled <==> p.status == SparkPaymentStatus::Completed,
        r.status == PaymentStatus::Failed <==> p.status == SparkPaymentStatus::Failed,
        r.status == PaymentStatus::Pending <==> p.status == SparkPaymentStatus::Pending,
        r.error is Some <==> p.status == SparkPaymentStatus::Failed,
        inv.status == InvoiceStatus::Settled <==> p.status == SparkPaymentStatus::Completed,
        inv.status == InvoiceStatus::Expired <==> p.status == SparkPaymentStatus::Failed,
        inv.status == InvoiceStatus::Pending <==> p.status == SparkPaymentStatus::Pending,
        r.amount_msat == sat_to_msat(p.amount as u64),
{
}

impl BreezListener {
    /// The action for a Spark event, with `now` standing in for an
    /// unrepresentable payment time.
    pub fn spark_action_at(&self, e: &SparkEvent, now: UtcTime) -> (r: Option<BreezAction>)
        ensures
            spark_action_of(*self, *e, now, r),
    {
        match e {
            SparkEvent::PaymentSucceeded(p) => {
                if is_onchain_payment(&p.method) {
                    match p.payment_type {
                        SparkPaymentType::Receive => match to_deposit_event(p) {
                            Some(d) => Some(BreezAction::OnchainDeposit(d, self.currency)),
                            None => None,
                        },
                        SparkPaymentType::Send => match to_withdrawal_event(p) {
                            Some(w) => Some(BreezAction::OnchainWithdrawal(w)),
                            None => None,
                        },
                    }
                } else {
                    match p.payment_type {
                        SparkPaymentType::Receive => Some(BreezAction::InvoicePaid(p.paid_event_at(now))),
                        SparkPaymentType::Send => Some(BreezAction::OutgoingPayment(p.success_event_at(now))),
                    }
                }
            },
            SparkEvent::PaymentFailed(p) => {
                if is_onchain_payment(&p.method) {
                    match to_bitcoin_failure_event(p) {
                        Some(f) => Some(BreezAction::FailedPayment(f)),
                        None => None,
                    }
                } else {
                    Some(BreezAction::FailedPayment(p.failure_event()))
                }
            },
            _ => None,
        }
    }

    /// The action for a Spark event.
    pub fn on_spark_event(&self, e: &SparkEvent) -> (r: Option<BreezAction>)
        ensures
            exists|now: UtcTime| #[trigger] spark_action_of(*self, *e, now, r),
    {
        let now = utc_now();
        let r = self.spark_action_at(e, now);
        assert(spark_action_of(*self, *e, now, r));
        r
    }
}

/// The Spark and wallet networks a configured network name (any case)
/// selects: `bitcoin` or `mainnet`, or `regtest`.
pub open spec fn spark_networks_of(name: Seq<char>) -> Option<(SparkNetwork, BtcNetwork)> {
    if name == "bitcoin"@ || name == "mainnet"@ {
        Some((SparkNetwork::Mainnet, BtcNetwork::Bitcoin))
    } else if name == "regtest"@ {
        Some((SparkNetwork::Regtest, BtcNetwork::Regtest))
    } else {
        None
    }
}

/// The networks of the Spark client's configuration; `ParseConfig` for a
/// network Spark does not run on.
pub fn spark_networks(network: &str) -> (r: Result<(SparkNetwork, BtcNetwork), LightningError>)
    ensures
        match spark_networks_of(lowercase(network@)) {
            Some(p) => r == Ok::<(SparkNetwork, BtcNetwork), LightningError>(p),
            None => r matches Err(LightningError::ParseConfig(m)) && m@
                == "Invalid network. Spark supports 'bitcoin' (mainnet) and 'regtest' only."@,
        },
{
    let name = to_lowercase(network);
    if str_eq(name.as_str(), "bitcoin") || str_eq(name.as_str(), "mainnet") {
        Ok((SparkNetwork::Mainnet, BtcNetwork::Bitcoin))
    } else if str_eq(name.as_str(), "regtest") {
        Ok((SparkNetwork::Regtest, BtcNetwork::Regtest))
    } else {
        Err(
            LightningError::ParseConfig(
                "Invalid network. Spark supports 'bitcoin' (mainnet) and 'regtest' only.".to_string(),
            ),
        )
    }
}

/// A BOLT 11 invoice request to the Spark SDK.
#[derive(Clone, Debug, PartialEq, Eq)]
pub struct SparkBolt11Request {
    pub description: String,
    pub amount_sats: Option<u64>,
    pub expiry_secs: Option<u32>,
}

/// The BOLT 11 request for an invoice of `amount_msat`: whole satoshis (at
/// least one), and the expiry only when positive.
pub fn spark_invoice_request(amount_msat: u64, description: String, expiry: u32) -> (r: SparkBolt11Request)
    ensures
        r.description == description,
        r.amount_sats == Some(sat_at_least_one(amount_msat)),
        r.expiry_secs == (if expiry > 0 {
            Some(expiry)
        } else {
            None
        }),
{
    SparkBolt11Request {
        description,
        amount_sats: Some(sat_amount(amount_msat)),
        expiry_secs: if expiry > 0 { Some(expiry) } else { None },
    }
}

/// The amount a Spark payment of `amount_msat` sends: whole satoshis, at
/// least one; none to pay the invoice's own amount.
pub fn spark_pay_amount(amount_msat: Option<u64>) -> (r: Option<u128>)
    ensures
        r == (match amount_msat {
            Some(m) => Some(sat_at_least_one(m) as u128),
            None => None,
        }),
{
    match amount_msat {
        Some(m) => Some(sat_amount(m) as u128),
        None => None,
    }
}

/// The invoice the Spark client records for a BOLT 11 invoice it created:
/// created at the invoice's whole second (or `now` when not representable),
/// expiring its expiry later, with the recovered payee key.
pub open spec fn spark_invoice_of(f: Bolt11Fields, now: UtcTime, inv: Invoice) -> bool {
    let created = if secs_in_range(f.timestamp_secs as int) {
        at_secs(f.timestamp_secs as int)
    } else {
        now
    };
    &&& inv.ledger == Ledger::Lightning
    &&& inv.currency == Currency::Bitcoin
    &&& opt_text(inv.description) == match f.description {
        Bolt11Description::Direct(d) => Some(d@),
        Bolt11Description::Hash(_) => None::<Seq<char>>,
    }
    &&& inv.amount_msat == f.amount_msat
    &&& inv.amount_received_msat is None
    &&& inv.fee_msat is None
    &&& inv.timestamp == created
    &&& inv.status == InvoiceStatus::Pending
    &&& inv.payment_time is None
    &&& inv.ln_invoice matches Some(ln) && {
        &&& ln.bolt11@ == f.bolt11@
        &&& ln.payee_pubkey@ == f.recovered_payee_pub_key@
        &&& ln.payment_hash@ == f.payment_hash@
        &&& opt_text(ln.description_hash) == match f.description {
            Bolt11Description::Direct(_) => None::<Seq<char>>,
            Bolt11Description::Hash(h) => Some(h@),
        }
        &&& ln.payment_secret@ == hex_lower(f.payment_secret@)
        &&& ln.min_final_cltv_expiry_delta == f.min_final_cltv_expiry_delta
        &&& ln.expiry_secs == f.expiry_secs
        &&& ln.expires_at == (UtcTime { secs: (created.secs + f.expiry_secs) as i64, nanos: created.nanos })
    }
}

/// The invoice the Spark client records keeps how the BOLT 11 invoice
/// describes its payment: a direct description as the description, a
/// description hash as the description hash, exactly one of the two; it
/// expires its expiry after its creation and is pending.
pub proof fn lemma_spark_invoice_description_kept(f: Bolt11Fields, now: UtcTime, inv: Invoice)
    requires
        spark_invoice_of(f, now, inv),
        inv.timestamp.secs + f.expiry_secs <= max_utc_secs(),
    ensures
        inv.ln_invoice is Some,
        f.description matches Bolt11Description::Direct(d) ==> (inv.description matches Some(x) && x@ == d@)
            && inv.ln_invoice->0.description_hash is None,
        f.description matches Bolt11Description::Hash(h) ==> inv.description is None && (
        inv.ln_invoice->0.description_hash matches Some(x) && x@ == h@),
        inv.description is Some != inv.ln_invoice->0.description_hash is Some,
        inv.ln_invoice->0.expires_at.secs == inv.timestamp.secs + f.expiry_secs,
        inv.status == InvoiceStatus::Pending,
        inv.ln_invoice->0.payment_hash@ == f.payment_hash@,
{
}

/// When the Spark client takes the invoice decoded from the text to be
/// created: at its whole second, or `now` when that is not representable.
pub open spec fn spark_invoice_created(s: Seq<char>, now: UtcTime) -> UtcTime {
    if secs_in_range(bolt11_timestamp_of(s) as int) {
        at_secs(bolt11_timestamp_of(s) as int)
    } else {
        now
    }
}

/// Whether the Spark client records an invoice for the text: the crate
/// accepts it, and its expiry instant, counted from its creation, lies in the
/// range of UTC instants.
pub open spec fn spark_invoice_decodes(s: Seq<char>, now: UtcTime) -> bool {
    &&& bolt11_parses(s)
    &&& spark_invoice_created(s, now).secs + bolt11_expiry_of(s) <= max_utc_secs()
}

/// The invoice for a BOLT 11 text the Spark SDK returned, with `now` standing
/// in for an unrepresentable creation time; `Invoice` when the text does not
/// decode or the expiry instant lies beyond the representable range.
pub fn spark_invoice_at(bolt11: &str, now: UtcTime) -> (r: Result<Invoice, LightningError>)
    requires
        crate::time::utc_valid(now.secs as int, now.nanos as int),
        now.nanos < 1_000_000_000,
    ensures
        r is Ok <==> spark_invoice_decodes(bolt11@, now),
        r matches Err(e) ==> e is Invoice,
        r matches Ok(inv) ==> exists|f: Bolt11Fields|
            bolt11_fields_of(f, bolt11@) && bolt11_fields_wf(f) && #[trigger] spark_invoice_of(f, now, inv),
{
    let parsed = match decode_bolt11(bolt11) {
        Ok(p) => p,
        Err(e) => return Err(LightningError::Invoice(concat("Failed to parse bolt11: ", e.as_str()))),
    };
    let f = bolt11_fields(&parsed);
    let ghost g = f;
    let created = utc_at_secs_or(f.timestamp_secs as i64, now);
    if f.expiry_secs > (8_210_266_876_799i64 - created.secs) as u64 {
        return Err(LightningError::Invoice("invoice expiry lies beyond the representable range".to_string()));
    }
    let expires_at = utc_add_secs(created, f.expiry_secs);
    let (description, description_hash) = match f.description {
        Bolt11Description::Direct(d) => (Some(d), None),
        Bolt11Description::Hash(h) => (None, Some(h)),
    };
    let inv = Invoice {
        ledger: Ledger::Lightning,
        currency: Currency::Bitcoin,
        description,
        amount_msat: f.amount_msat,
        amount_received_msat: None,
        fee_msat: None,
        timestamp: created,
        status: InvoiceStatus::Pending,
        payment_time: None,
        ln_invoice: Some(
            LnInvoice {
                bolt11: f.bolt11,
                payee_pubkey: f.recovered_payee_pub_key,
                payment_hash: f.payment_hash,
                description_hash,
                payment_secret: hex_encode(f.payment_secret.as_slice()),
                min_final_cltv_expiry_delta: f.min_final_cltv_expiry_delta,
                expiry_secs: f.expiry_secs,
                expires_at,
            },
        ),
    };
    assert(spark_invoice_of(g, now, inv));
    Ok(inv)
}

/// Whether a Spark payment is the Lightning payment of a hash.
pub open spec fn is_lightning_payment_of(p: SparkPayment, hash: Seq<char>) -> bool {
    match p.details {
        Some(SparkPaymentDetails::Lightning { htlc_details, .. }) => htlc_details.payment_hash@ == hash,
        _ => false,
    }
}

/// The first payment of a listing that is the Lightning payment of `hash`.
pub fn spark_find_by_hash(payments: Vec<SparkPayment>, hash: &str) -> (r: Option<SparkPayment>)
    ensures
        r is None <==> forall|i: int| 0 <= i < payments@.len() ==> !is_lightning_payment_of(#[trigger] payments@[i], hash@),
        r matches Some(p) ==> exists|i: int|
            0 <= i < payments@.len() && (#[trigger] payments@[i]) == p && is_lightning_payment_of(p, hash@)
                && forall|j: int| 0 <= j < i ==> !is_lightning_payment_of(#[trigger] payments@[j], hash@),
{
    let mut i: usize = 0;
    while i < payments.len()
        invariant
            i <= payments@.len(),
            forall|j: int| 0 <= j < i ==> !is_lightning_payment_of(#[trigger] payments@[j], hash@),
        decreases payments@.len() - i,
    {
        let hit = match &payments[i].details {
            Some(SparkPaymentDetails::Lightning { htlc_details, .. }) => str_eq(htlc_details.payment_hash.as_str(), hash),
            _ => false,
        };
        if hit {
            let ghost all = payments@;
            let mut rest = payments;
            let p = rest.remove(i);
            assert(all[i as int] == p);
            return Some(p);
        }
        i = i + 1;
    }
    None
}

/// The prepared withdrawal Spark keeps under `key`: a placeholder id naming
/// the key, the fee as what the SDK charges beyond the amount (not below
/// zero), the key in place of a PSBT, no locked outputs.
pub fn spark_prepared_transaction(key: String, total_amount: u128, amount_sat: u64) -> (r: BtcPreparedTransaction)
    ensures
        r.txid@ == "breez-withdraw-"@ + key@,
        r.fee_sat == (if total_amount as u64 >= amount_sat {
            (total_amount as u64 - amount_sat) as u64
        } else {
            0
        }),
        r.psbt == key,
        r.raw_tx is None,
        r.locked_utxos@.len() == 0,
{
    let total = total_amount as u64;
    BtcPreparedTransaction {
        txid: concat("breez-withdraw-", key.as_str()),
        fee_sat: if total >= amount_sat { total - amount_sat } else { 0 },
        psbt: key,
        raw_tx: None,
        locked_utxos: Vec::new(),
    }
}

/// The on-chain transaction id of a sent withdrawal, if the payment is one.
pub fn spark_withdrawal_txid(details: &Option<SparkPaymentDetails>) -> (r: Option<String>)
    ensures
        match *details {
            Some(SparkPaymentDetails::Withdraw { tx_id }) => r matches Some(t) && t@ == tx_id@,
            _ => r is None,
        },
{
    match details {
        Some(SparkPaymentDetails::Withdraw { tx_id }) => Some(tx_id.clone()),
        _ => None,
    }
}

/// The synchronisation batch of the Spark wallet: it syncs itself, so there
/// are no events and the cursor stays where it was.
pub fn spark_sync_batch(cursor: Option<OnchainSyncCursor>) -> (r: OnchainSyncBatch)
    ensures
        r.events@.len() == 0,
        r.next_cursor == cursor,
{
    OnchainSyncBatch { events: Vec::new(), next_cursor: cursor }
}

} // verus!

verus! {

/// The map that a list of keyed entries stands for, a later entry replacing
/// an earlier one with the same key.
pub open spec fn entries_map<T>(s: Seq<(String, T)>) -> Map<Seq<char>, T>
    decreases s.len(),
{
    if s.len() == 0 {
        Map::empty()
    } else {
        entries_map(s.drop_last()).insert(s.last().0@, s.last().1)
    }
}

/// No key occurs twice among the entries.
pub open spec fn keys_distinct<T>(s: Seq<(String, T)>) -> bool {
    forall|i: int, j: int| 0 <= i < j < s.len() ==> s[i].0@ != s[j].0@
}

/// With distinct keys, the map holds exactly the entries' keys, each with
/// its entry's value.
proof fn lemma_entries_map_lookup<T>(s: Seq<(String, T)>)
    requires
        keys_distinct(s),
    ensures
        forall|k: Seq<char>| #[trigger] entries_map(s).contains_key(k) <==> exists|i: int| 0 <= i < s.len() && s[i].0@ == k,
        forall|i: int| 0 <= i < s.len() ==> entries_map(s)[#[trigger] s[i].0@] == s[i].1,
    decreases s.len(),
{
    if s.len() > 0 {
        let t = s.drop_last();
        let n = s.len() - 1;
        assert(keys_distinct(t));
        lemma_entries_map_lookup(t);
        assert(entries_map(s) == entries_map(t).insert(s.last().0@, s.last().1));
        assert forall|k: Seq<char>| #[trigger] entries_map(s).contains_key(k) <==> exists|i: int|
            0 <= i < s.len() && s[i].0@ == k by {
            if entries_map(s).contains_key(k) {
                if k == s.last().0@ {
                    assert(s[n].0@ == k);
                } else {
                    assert(entries_map(t).contains_key(k));
                    let i = choose|i: int| 0 <= i < t.len() && t[i].0@ == k;
                    assert(s[i] == t[i]);
                }
            }
            if exists|i: int| 0 <= i < s.len() && s[i].0@ == k {
                let i = choose|i: int| 0 <= i < s.len() && s[i].0@ == k;
                if i < n {
                    assert(t[i] == s[i]);
                    assert(entries_map(t).contains_key(k));
                }
            }
        }
        assert forall|i: int| 0 <= i < s.len() implies entries_map(s)[#[trigger] s[i].0@] == s[i].1 by {
            if i < n {
                assert(t[i] == s[i]);
                assert(s[i].0@ != s[n].0@);
            }
        }
    }
}

/// Removing an entry with distinct keys removes its key from the map and
/// keeps the keys distinct.
proof fn lemma_entries_map_remove<T>(s: Seq<(String, T)>, i: int)
    requires
        keys_distinct(s),
        0 <= i < s.len(),
    ensures
        keys_distinct(s.remove(i)),
        entries_map(s.remove(i)) == entries_map(s).remove(s[i].0@),
    decreases s.len(),
{
    let t = s.drop_last();
    let n = s.len() - 1;
    assert(keys_distinct(t));
    let r = s.remove(i);
    assert forall|a: int, b: int| 0 <= a < b < r.len() implies r[a].0@ != r[b].0@ by {
        let a2 = if a < i { a } else { a + 1 };
        let b2 = if b < i { b } else { b + 1 };
        assert(r[a] == s[a2]);
        assert(r[b] == s[b2]);
    }
    if i == n {
        assert(r =~= t);
        lemma_entries_map_lookup(t);
        assert(!entries_map(t).contains_key(s[n].0@)) by {
            if entries_map(t).contains_key(s[n].0@) {
                let j = choose|j: int| 0 <= j < t.len() && t[j].0@ == s[n].0@;
                assert(t[j] == s[j]);
            }
        }
        assert(entries_map(s).remove(s[i].0@) =~= entries_map(t));
    } else {
        lemma_entries_map_remove(t, i);
        assert(r.drop_last() =~= t.remove(i));
        assert(r.last() == s.last());
        assert(s[i] == t[i]);
        assert(s[i].0@ != s[n].0@);
        assert(entries_map(r) =~= entries_map(s).remove(s[i].0@));
    }
}

/// The prepared withdrawals the Spark client keeps until they are sent or
/// released, by the key handed out in place of a PSBT. Each key is held
/// once.
pub struct SparkPendingSends<T> {
    entries: Vec<(String, T)>,
}

impl<T> View for SparkPendingSends<T> {
    type V = Map<Seq<char>, T>;

    closed spec fn view(&self) -> Map<Seq<char>, T> {
        entries_map(self.entries@)
    }
}

/// A prepared withdrawal is sent at most once: once taken, the store no
/// longer holds it, so taking it again finds nothing; before that, taking it
/// gives back what was stored.
pub proof fn lemma_prepared_send_taken_once<T>(m: Map<Seq<char>, T>, key: Seq<char>, value: T)
    ensures
        m.insert(key, value).contains_key(key),
        m.insert(key, value)[key] == value,
        !m.insert(key, value).remove(key).contains_key(key),
{
}

impl<T> SparkPendingSends<T> {
    /// The store's keys are distinct.
    pub closed spec fn wf(&self) -> bool {
        keys_distinct(self.entries@)
    }

    /// An empty store.
    pub fn new() -> (r: Self)
        ensures
            r.wf(),
            r@ == Map::<Seq<char>, T>::empty(),
    {
        SparkPendingSends { entries: Vec::new() }
    }

    /// Where the entry of `key` stands, if there is one.
    fn position(&self, key: &str) -> (r: Option<usize>)
        ensures
            match r {
                Some(i) => i < self.entries@.len() && self.entries@[i as int].0@ == key@,
                None => forall|i: int| 0 <= i < self.entries@.len() ==> (#[trigger] self.entries@[i]).0@ != key@,
            },
    {
        let mut i: usize = 0;
        while i < self.entries.len()
            invariant
                i <= self.entries@.len(),
                forall|j: int| 0 <= j < i ==> (#[trigger] self.entries@[j]).0@ != key@,
            decreases self.entries@.len() - i,
        {
            if str_eq(self.entries[i].0.as_str(), key) {
                return Some(i);
            }
            i = i + 1;
        }
        None
    }

    /// Stores a prepared withdrawal under `key`, replacing one stored there.
    pub fn insert(&mut self, key: String, value: T)
        requires
            old(self).wf(),
        ensures
            final(self).wf(),
            final(self)@ == old(self)@.insert(key@, value),
    {
        let ghost k = key@;
        match self.position(key.as_str()) {
            Some(i) => {
                proof {
                    lemma_entries_map_remove(self.entries@, i as int);
                }
                let _ = self.entries.remove(i);
            },
            None => {},
        }
        let ghost before = self.entries@;
        proof {
            lemma_entries_map_lookup(before);
            assert(!entries_map(before).contains_key(k));
        }
        self.entries.push((key, value));
        proof {
            let s = self.entries@;
            assert(s.drop_last() =~= before);
            assert forall|a: int, b: int| 0 <= a < b < s.len() implies s[a].0@ != s[b].0@ by {
                if b == s.len() - 1 {
                    assert(s[a] == before[a]);
                    if before[a].0@ == k {
                        assert(entries_map(before).contains_key(k));
                    }
                } else {
                    assert(s[a] == before[a]);
                    assert(s[b] == before[b]);
                }
            }
            assert(entries_map(s) =~= old(self)@.insert(k, value));
        }
    }

    /// Takes the prepared withdrawal stored under `key`, so that it is sent
    /// once; `FinalizeTransaction` when none is stored (never prepared, or
    /// already sent or released).
    pub fn take(&mut self, key: &str) -> (r: Result<T, BitcoinError>)
        requires
            old(self).wf(),
        ensures
            final(self).wf(),
            old(self)@.contains_key(key@) ==> r == Ok::<T, BitcoinError>(old(self)@[key@]) && final(self)@
                == old(self)@.remove(key@),
            !old(self)@.contains_key(key@) ==> (r matches Err(BitcoinError::FinalizeTransaction(m))
                && m@ == "Prepared transaction not found or already consumed"@) && final(self)@ == old(self)@,
    {
        proof {
            lemma_entries_map_lookup(self.entries@);
        }
        match self.position(key) {
            Some(i) => {
                proof {
                    lemma_entries_map_remove(self.entries@, i as int);
                }
                let (_, value) = self.entries.remove(i);
                Ok(value)
            },
            None => Err(
                BitcoinError::FinalizeTransaction("Prepared transaction not found or already consumed".to_string()),
            ),
        }
    }

    /// Forgets the prepared withdrawal stored under `key`, if any.
    pub fn release(&mut self, key: &str)
        requires
            old(self).wf(),
        ensures
            final(self).wf(),
            final(self)@ == old(self)@.remove(key@),
    {
        proof {
            lemma_entries_map_lookup(self.entries@);
        }
        match self.position(key) {
            Some(i) => {
                proof {
                    lemma_entries_map_remove(self.entries@, i as int);
                }
                let _ = self.entries.remove(i);
            },
            None => {
                proof {
                    assert(!old(self)@.contains_key(key@));
                    assert(old(self)@.remove(key@) =~= old(self)@);
                }
            },
        }
    }
}

} // verus!
