//! LND REST API: request and response shapes, and the verified mapping of
//! responses onto the wallet's model.
use vstd::prelude::*;

use crate::bolt11::{bolt11_decodes, bolt11_expiry_in_range, bolt11_fields_of, bolt11_fields_wf, invoice_from_bolt11, invoice_of_bolt11, Bolt11Fields};
use crate::chain::{
    base64_decode, base64_encode, base64_standard_decode, is_base64_char, base64_standard_encode, outpoint_string,
    outpoint_text, psbt_fee_of, psbt_fee_sat, raw_tx_txid_of, sha256, sha256_digest, txid_from_raw_tx,
};
use crate::cln_rest::secs_in_range;
use crate::domain::{
    BitcoinError, BtcAddressType, BtcLockedUtxo, BtcNetwork, BtcOutput, BtcOutputStatus,
    BtcPreparedTransaction, BtcTransaction, BtcTransactionOutput, Invoice, InvoiceStatus, Ledger,
    LightningError, LnInvoicePaidEvent, LnPayment, Payment, PaymentStatus, address_type_name,
};
use crate::network::{network_of_name, parse_network};
use crate::text::{
    concat, contains_text, hex_encode, hex_lower, is_white_space, lowercase, opt_text, str_eq,
    text_contains, trim, trim_end, trim_start, trimmed,
};
use crate::time::{at_secs, utc_at_secs, utc_timestamp_nanos, UtcTime};

verus! {

/// `v1/invoices` request.
#[derive(Clone, Debug, PartialEq, Eq)]
pub struct InvoiceRequest {
    pub memo: String,
    pub expiry: u64,
    pub value_msat: u64,
    /// Hex SHA-256 of the description, or empty.
    pub description_hash: String,
}

/// `v1/invoices` response.
#[derive(Clone, Debug, PartialEq, Eq)]
pub struct AddInvoiceResponse {
    pub payment_request: String,
}

/// `v1/invoice/{hash}` response, and the `result` of an invoice subscription
/// message.
#[derive(Clone, Debug, PartialEq, Eq)]
pub struct InvoiceResponse {
    pub payment_request: String,
    /// The payment hash, base64.
    pub r_hash: String,
    pub state: String,
    pub amt_paid_msat: u64,
    pub settle_date: i64,
}

/// `v2/router/send` request.
#[derive(Clone, Debug, PartialEq, Eq)]
pub struct PayRequest {
    pub payment_request: String,
    pub fee_limit_msat: u64,
    pub amt_msat: Option<u64>,
    pub timeout_seconds: u32,
    pub no_inflight_updates: bool,
}

/// `v2/router/track/{hash}` request.
#[derive(Clone, Debug, PartialEq, Eq)]
pub struct TrackPaymentRequest {
    pub no_inflight_updates: bool,
}

/// `v2/router/track/{hash}` response.
#[derive(Clone, Debug, PartialEq, Eq)]
pub struct TrackPaymentResponse {
    pub payment_hash: String,
    pub payment_preimage: String,
    pub value_msat: Option<u64>,
    pub fee_msat: Option<u64>,
    pub creation_time_ns: Option<i64>,
    pub payment_time_ns: Option<i64>,
    pub status: String,
    pub failure_reason: String,
}

/// One message of the `v2/router/send` stream: a result or an error.
#[derive(Clone, Debug, PartialEq, Eq)]
pub struct StreamPayResponse {
    pub result: Option<PayResponse>,
    pub error: Option<ErrorResponse>,
}

/// The payment reported by `v2/router/send`.
#[derive(Clone, Debug, PartialEq, Eq)]
pub struct PayResponse {
    pub payment_preimage: String,
    pub payment_hash: String,
    pub value_msat: u64,
    pub creation_time_ns: i64,
    pub fee_msat: u64,
    pub status: String,
    pub failure_reason: String,
}

/// `v1/getinfo` response.
#[derive(Clone, Debug, PartialEq, Eq)]
pub struct GetinfoResponse {
    pub chains: Option<Vec<Chain>>,
}

/// A chain of `v1/getinfo`.
#[derive(Clone, Debug, PartialEq, Eq)]
pub struct Chain {
    pub network: Option<String>,
}

/// The error body LND answers a failed request with.
#[derive(Clone, Debug, PartialEq, Eq)]
pub struct ErrorResponse {
    pub message: String,
}

/// `v1/newaddress` response.
#[derive(Clone, Debug, PartialEq, Eq)]
pub struct NewAddressResponse {
    pub address: String,
}

/// `v2/wallet/psbt/fund` request.
#[derive(Clone, Debug, PartialEq, Eq)]
pub struct FundPsbtRequest {
    pub raw: TxTemplate,
    pub sat_per_vbyte: Option<u32>,
    pub min_confs: u32,
    pub spend_unconfirmed: bool,
    pub target_conf: Option<u32>,
}

/// The outputs a funded transaction must pay: address and amount in
/// satoshis, one entry per address.
#[derive(Clone, Debug, PartialEq, Eq)]
pub struct TxTemplate {
    pub outputs: Vec<(String, u64)>,
}

/// `v2/wallet/psbt/fund` response.
#[derive(Clone, Debug, PartialEq, Eq)]
pub struct FundPsbtResponse {
    /// The funded PSBT, base64.
    pub funded_psbt: String,
    pub locked_utxos: Vec<UtxoLease>,
}

/// `v2/wallet/psbt/finalize` request.
#[derive(Clone, Debug, PartialEq, Eq)]
pub struct FinalizePsbtRequest {
    pub funded_psbt: String,
}

/// `v2/wallet/psbt/finalize` response.
#[derive(Clone, Debug, PartialEq, Eq)]
pub struct FinalizePsbtResponse {
    pub raw_final_tx: String,
}

/// `v2/wallet/tx` (publish) request.
#[derive(Clone, Debug, PartialEq, Eq)]
pub struct PublishTransactionRequest {
    pub tx_hex: String,
}

/// `v2/wallet/tx` (publish) response; an empty error means success.
#[derive(Clone, Debug, PartialEq, Eq)]
pub struct PublishTransactionResponse {
    pub publish_error: String,
}

/// `v2/wallet/utxos/release` request.
#[derive(Clone, Debug, PartialEq, Eq)]
pub struct ReleaseOutputRequest {
    pub id: String,
    pub outpoint: OutPoint,
}

/// `v2/wallet/utxos/release` response.
#[derive(Clone, Debug, PartialEq, Eq)]
pub struct ReleaseOutputResponse {
    pub status: String,
}

/// A wallet output leased (locked) by a funding call.
#[derive(Clone, Debug, PartialEq, Eq)]
pub struct UtxoLease {
    pub id: String,
    pub outpoint: OutPoint,
}

/// An outpoint as LND's REST API writes it.
#[derive(Clone, Debug, PartialEq, Eq)]
pub struct OutPoint {
    pub txid_str: Option<String>,
    pub output_index: Option<i64>,
}

/// `v2/wallet/tx?txid=` response, and the `result` of a transaction
/// subscription message.
#[derive(Clone, Debug, PartialEq, Eq)]
pub struct TransactionResponse {
    pub tx_hash: String,
    pub block_height: u32,
    pub output_details: Vec<OutputDetailResponse>,
    pub previous_outpoints: Vec<PreviousOutpointResponse>,
}

/// An output of a `TransactionResponse`.
#[derive(Clone, Debug, PartialEq, Eq)]
pub struct OutputDetailResponse {
    pub output_index: u32,
    pub amount: u64,
    pub address: String,
    pub is_our_address: bool,
}

/// An input of a `TransactionResponse`: whether it spends one of our outputs.
#[derive(Clone, Debug, PartialEq, Eq)]
pub struct PreviousOutpointResponse {
    pub is_our_output: bool,
}

/// The instant `ns` nanoseconds after the epoch (what `Utc.timestamp_nanos`
/// gives): whole seconds rounded down and the nanoseconds beyond them.
pub open spec fn nanos_time(ns: i64) -> UtcTime {
    UtcTime { secs: (ns as int / 1_000_000_000) as i64, nanos: (ns as int % 1_000_000_000) as u32 }
}

/// The hex SHA-256 of a description, as an invoice's description hash.
pub open spec fn description_hash_hex(description: Seq<char>) -> Seq<char> {
    hex_lower(sha256_digest(vstd::utf8::encode_utf8(description)))
}

/// The `v1/invoices` request for an invoice of `amount_msat` with a
/// description; with `deschashonly` the description's SHA-256 (hex) is sent
/// as its hash as well.
pub fn lnd_invoice_request(amount_msat: u64, description: String, expiry: u32, deschashonly: bool) -> (r:
    InvoiceRequest)
    ensures
        r.memo == description,
        r.expiry == expiry as u64,
        r.value_msat == amount_msat,
        r.description_hash@ == (if deschashonly {
            description_hash_hex(description@)
        } else {
            Seq::empty()
        }),
{
    let description_hash = if deschashonly {
        let bytes = description.as_str().as_bytes_vec();
        let digest = sha256(bytes.as_slice());
        hex_encode(digest.as_slice())
    } else {
        String::new()
    };
    InvoiceRequest { memo: description, expiry: expiry as u64, value_msat: amount_msat, description_hash }
}

impl AddInvoiceResponse {
    /// The wallet invoice for the created invoice; `LightningError::Invoice`
    /// when its BOLT 11 text does not decode.
    pub fn into_invoice(self) -> (r: Result<Invoice, LightningError>)
        ensures
            r is Ok <==> bolt11_decodes(self.payment_request@),
            r matches Err(e) ==> e is Invoice,
            r matches Ok(inv) ==> exists|f: Bolt11Fields|
                bolt11_fields_of(f, self.payment_request@) && bolt11_fields_wf(f) && bolt11_expiry_in_range(f)
                    && #[trigger] invoice_of_bolt11(f, inv),
    {
        match invoice_from_bolt11(self.payment_request.as_str()) {
            Ok(inv) => Ok(inv),
            Err(e) => Err(LightningError::Invoice(e)),
        }
    }
}

/// A decoded invoice after LND's invoice state is applied: `SETTLED` settles
/// it at `settle_date` with the amount paid, `OPEN` and `ACCEPTED` keep it
/// pending, `CANCELED` expires it, and any other state leaves it as decoded.
pub open spec fn lnd_state_applied(base: Invoice, state: Seq<char>, settle_date: i64, amt_paid_msat: u64, r: Invoice) -> bool {
    if state == "SETTLED"@ {
        r == Invoice {
            status: InvoiceStatus::Settled,
            payment_time: Some(at_secs(settle_date as int)),
            amount_received_msat: Some(amt_paid_msat),
            ..base
        }
    } else if state == "OPEN"@ || state == "ACCEPTED"@ {
        r == Invoice { status: InvoiceStatus::Pending, ..base }
    } else if state == "CANCELED"@ {
        r == Invoice { status: InvoiceStatus::Expired, ..base }
    } else {
        r == base
    }
}

/// LND's invoice state decides the invoice's status: `SETTLED` settles it at
/// the settle date with the amount paid, `OPEN` and `ACCEPTED` keep it
/// pending, `CANCELED` expires it, and any other state leaves the decoded
/// status; the rest of the decoded invoice is kept.
pub proof fn lemma_lnd_state_decides(base: Invoice, state: Seq<char>, settle_date: i64, amt_paid_msat: u64, r: Invoice)
    requires
        lnd_state_applied(base, state, settle_date, amt_paid_msat, r),
    ensures
        state == "SETTLED"@ ==> r.status == InvoiceStatus::Settled && r.payment_time == Some(
            at_secs(settle_date as int),
        ) && r.amount_received_msat == Some(amt_paid_msat),
        state == "OPEN"@ || state == "ACCEPTED"@ ==> r.status == InvoiceStatus::Pending,
        state == "CANCELED"@ ==> r.status == InvoiceStatus::Expired,
        state != "SETTLED"@ && state != "OPEN"@ && state != "ACCEPTED"@ && state != "CANCELED"@ ==> r
            == base,
        r.ledger == base.ledger && r.amount_msat == base.amount_msat && r.description == base.description
            && r.timestamp == base.timestamp && r.ln_invoice == base.ln_invoice,
{
    reveal_strlit("SETTLED");
    reveal_strlit("OPEN");
    reveal_strlit("ACCEPTED");
    reveal_strlit("CANCELED");
    assert("SETTLED"@[0] != "OPEN"@[0]);
    assert("SETTLED"@[0] != "ACCEPTED"@[0]);
    assert("SETTLED"@[0] != "CANCELED"@[0]);
    assert("OPEN"@[0] != "CANCELED"@[0]);
    assert("ACCEPTED"@[0] != "CANCELED"@[0]);
}

/// Applies LND's invoice state to a decoded invoice.
pub fn apply_lnd_state(base: Invoice, state: &str, settle_date: i64, amt_paid_msat: u64) -> (r: Invoice)
    requires
        state@ == "SETTLED"@ ==> secs_in_range(settle_date as int),
    ensures
        lnd_state_applied(base, state@, settle_date, amt_paid_msat, r),
{
    if str_eq(state, "SETTLED") {
        let time = match utc_at_secs(settle_date) {
            Some(t) => t,
            None => {
                assert(false);
                at_secs_exec(0)
            },
        };
        Invoice {
            status: InvoiceStatus::Settled,
            payment_time: Some(time),
            amount_received_msat: Some(amt_paid_msat),
            ..base
        }
    } else if str_eq(state, "OPEN") || str_eq(state, "ACCEPTED") {
        Invoice { status: InvoiceStatus::Pending, ..base }
    } else if str_eq(state, "CANCELED") {
        Invoice { status: InvoiceStatus::Expired, ..base }
    } else {
        base
    }
}

/// The instant at a whole second that needs no range check (the epoch).
fn at_secs_exec(secs: i64) -> (r: UtcTime)
    ensures
        r == (UtcTime { secs, nanos: 0 }),
{
    UtcTime { secs, nanos: 0 }
}

impl InvoiceResponse {
    /// The wallet invoice for this LND invoice: its BOLT 11 text decoded, then
    /// its state applied; `LightningError::Invoice` when the text does not
    /// decode. A settled invoice's settle date must be a representable second.
    pub fn into_invoice(self) -> (r: Result<Invoice, LightningError>)
        requires
            self.state@ == "SETTLED"@ ==> secs_in_range(self.settle_date as int),
        ensures
            r is Ok <==> bolt11_decodes(self.payment_request@),
            r matches Err(e) ==> e is Invoice,
            r matches Ok(inv) ==> exists|f: Bolt11Fields, base: Invoice|
                bolt11_fields_of(f, self.payment_request@) && bolt11_fields_wf(f)
                    && #[trigger] invoice_of_bolt11(f, base) && #[trigger] lnd_state_applied(
                    base,
                    self.state@,
                    self.settle_date,
                    self.amt_paid_msat,
                    inv,
                ),
    {
        let base = match invoice_from_bolt11(self.payment_request.as_str()) {
            Ok(inv) => inv,
            Err(e) => return Err(LightningError::Invoice(e)),
        };
        Ok(apply_lnd_state(base, self.state.as_str(), self.settle_date, self.amt_paid_msat))
    }

    /// The paid event for this settled invoice, given its payment hash bytes:
    /// the hash as hex, the amount paid, no fee, paid at the settle date.
    pub fn paid_event_with_hash(self, hash: &[u8]) -> (r: LnInvoicePaidEvent)
        requires
            secs_in_range(self.settle_date as int),
        ensures
            r.payment_hash@ == hex_lower(hash@),
            r.amount_received_msat == self.amt_paid_msat,
            r.fee_msat == 0,
            r.payment_time == at_secs(self.settle_date as int),
    {
        let payment_time = match utc_at_secs(self.settle_date) {
            Some(t) => t,
            None => {
                assert(false);
                at_secs_exec(0)
            },
        };
        LnInvoicePaidEvent {
            payment_hash: hex_encode(hash),
            amount_received_msat: self.amt_paid_msat,
            fee_msat: 0,
            payment_time,
        }
    }

    /// The paid event for this invoice: its base64 payment hash decoded and
    /// written as hex. None when the hash is not base64 or the settle date is
    /// not a representable second.
    pub fn into_paid_event(self) -> (r: Option<LnInvoicePaidEvent>)
        ensures
            r is Some <==> (base64_standard_decode(self.r_hash@) is Some && secs_in_range(
                self.settle_date as int,
            )),
            r matches Some(e) ==> e.payment_hash@ == hex_lower(
                base64_standard_decode(self.r_hash@)->0,
            ) && e.amount_received_msat == self.amt_paid_msat && e.fee_msat == 0 && e.payment_time
                == at_secs(self.settle_date as int),
    {
        let hash = match base64_decode(self.r_hash.as_str()) {
            Ok(b) => b,
            Err(_) => return None,
        };
        if self.settle_date < -8_334_601_228_800i64 || self.settle_date > 8_210_266_876_799i64 {
            return None;
        }
        Some(self.paid_event_with_hash(hash.as_slice()))
    }
}

/// The wallet payment a successful `v2/router/send` result stands for: the
/// value as amount, the fee, created at the reported nanosecond instant.
pub open spec fn payment_of_pay_response(p: PayResponse, r: Payment) -> bool {
    &&& r.ledger == Ledger::Lightning
    &&& r.status == PaymentStatus::Pending
    &&& r.amount_msat == p.value_msat
    &&& r.fee_msat == Some(p.fee_msat)
    &&& r.payment_time == Some(nanos_time(p.creation_time_ns))
    &&& r.error is None
    &&& r.description is None
    &&& r.lightning matches Some(l) && l.payment_hash == p.payment_hash && l.payment_preimage
        == Some(p.payment_preimage) && l.ln_address is None && l.metadata is None
}

impl PayResponse {
    /// The wallet payment for this result.
    pub fn into_payment(self) -> (r: Payment)
        ensures
            payment_of_pay_response(self, r),
    {
        let t = utc_timestamp_nanos(self.creation_time_ns);
        Payment {
            ledger: Ledger::Lightning,
            status: PaymentStatus::Pending,
            amount_msat: self.value_msat,
            fee_msat: Some(self.fee_msat),
            payment_time: Some(t),
            error: None,
            description: None,
            lightning: Some(
                LnPayment {
                    ln_address: None,
                    payment_hash: self.payment_hash,
                    payment_preimage: Some(self.payment_preimage),
                    metadata: None,
                },
            ),
        }
    }
}

impl StreamPayResponse {
    /// The outcome of `pay`: a `SUCCEEDED` result is the payment; a `FAILED`
    /// one is `Pay` with its failure reason; any other status is
    /// `UnexpectedStreamPayload` naming it; without a result the stream's
    /// error is `Pay` with its message; with neither, `UnexpectedStreamPayload`.
    pub fn into_payment(self) -> (r: Result<Payment, LightningError>)
        ensures
            match self.result {
                Some(p) => if p.status@ == "SUCCEEDED"@ {
                    r matches Ok(pay) && payment_of_pay_response(p, pay)
                } else if p.status@ == "FAILED"@ {
                    r matches Err(LightningError::Pay(m)) && m == p.failure_reason
                } else {
                    r matches Err(LightningError::UnexpectedStreamPayload(m)) && m@
                        == "Unexpected status "@ + p.status@
                },
                None => match self.error {
                    Some(e) => r matches Err(LightningError::Pay(m)) && m == e.message,
                    None => r matches Err(LightningError::UnexpectedStreamPayload(m)) && m@
                        == "Missing result or error field."@,
                },
            },
    {
        match self.result {
            Some(p) => {
                if str_eq(p.status.as_str(), "SUCCEEDED") {
                    Ok(p.into_payment())
                } else if str_eq(p.status.as_str(), "FAILED") {
                    Err(LightningError::Pay(p.failure_reason))
                } else {
                    Err(
                        LightningError::UnexpectedStreamPayload(
                            concat("Unexpected status ", p.status.as_str()),
                        ),
                    )
                }
            },
            None => match self.error {
                Some(e) => Err(LightningError::Pay(e.message)),
                None => Err(
                    LightningError::UnexpectedStreamPayload("Missing result or error field.".to_string()),
                ),
            },
        }
    }
}

/// The wallet payment a tracked payment stands for: `SUCCEEDED` is settled at
/// its payment time (else its creation time, else the epoch) with hash and
/// preimage; `FAILED` is failed with its failure reason and hash; any other
/// status is none.
pub open spec fn payment_of_track(t: TrackPaymentResponse, r: Option<Payment>) -> bool {
    let amount = match t.value_msat {
        Some(v) => v,
        None => 0u64,
    };
    let ns = match t.payment_time_ns {
        Some(n) => n,
        None => match t.creation_time_ns {
            Some(n) => n,
            None => 0i64,
        },
    };
    match r {
        Some(p) => {
            &&& t.status@ == "SUCCEEDED"@ || t.status@ == "FAILED"@
            &&& p.ledger == Ledger::Lightning
            &&& p.amount_msat == amount
            &&& p.fee_msat == t.fee_msat
            &&& p.description is None
            &&& if t.status@ == "SUCCEEDED"@ {
                &&& p.status == PaymentStatus::Settled
                &&& p.payment_time == Some(nanos_time(ns))
                &&& p.error is None
                &&& p.lightning == Some(
                    LnPayment {
                        ln_address: None,
                        payment_hash: t.payment_hash,
                        payment_preimage: Some(t.payment_preimage),
                        metadata: None,
                    },
                )
            } else {
                &&& p.status == PaymentStatus::Failed
                &&& p.payment_time is None
                &&& p.error == Some(t.failure_reason)
                &&& p.lightning == Some(
                    LnPayment {
                        ln_address: None,
                        payment_hash: t.payment_hash,
                        payment_preimage: None,
                        metadata: None,
                    },
                )
            }
        },
        None => t.status@ != "SUCCEEDED"@ && t.status@ != "FAILED"@,
    }
}

/// A tracked LND payment is reported exactly when it has finished: settled
/// exactly when LND says `SUCCEEDED` (with its time and no error), failed
/// exactly when LND says `FAILED` (with LND's failure reason), always with
/// the tracked hash and amount; a payment still in flight is not reported.
pub proof fn lemma_track_keeps_outcome(t: TrackPaymentResponse, r: Option<Payment>)
    requires
        payment_of_track(t, r),
    ensures
        r is Some <==> (t.status@ == "SUCCEEDED"@ || t.status@ == "FAILED"@),
        r matches Some(p) ==> {
            &&& p.status == PaymentStatus::Settled <==> t.status@ == "SUCCEEDED"@
            &&& p.status == PaymentStatus::Failed <==> t.status@ == "FAILED"@
            &&& p.status != PaymentStatus::Pending
            &&& p.error is Some <==> p.status == PaymentStatus::Failed
            &&& p.payment_time is Some <==> p.status == PaymentStatus::Settled
            &&& p.lightning matches Some(l) && l.payment_hash == t.payment_hash
            &&& p.amount_msat == match t.value_msat {
                Some(v) => v,
                None => 0u64,
            }
        },
{
    reveal_strlit("SUCCEEDED");
    reveal_strlit("FAILED");
    assert("SUCCEEDED"@[0] != "FAILED"@[0]);
}

impl TrackPaymentResponse {
    /// The payment `payment_by_hash` reports for a tracked payment.
    pub fn into_payment(self) -> (r: Option<Payment>)
        ensures
            payment_of_track(self, r),
    {
        let amount_msat = match self.value_msat {
            Some(v) => v,
            None => 0,
        };
        if str_eq(self.status.as_str(), "SUCCEEDED") {
            let ns = match self.payment_time_ns {
                Some(n) => n,
                None => match self.creation_time_ns {
                    Some(n) => n,
                    None => 0,
                },
            };
            Some(
                Payment {
                    ledger: Ledger::Lightning,
                    status: PaymentStatus::Settled,
                    amount_msat,
                    fee_msat: self.fee_msat,
                    payment_time: Some(utc_timestamp_nanos(ns)),
                    error: None,
                    description: None,
                    lightning: Some(
                        LnPayment {
                            ln_address: None,
                            payment_hash: self.payment_hash,
                            payment_preimage: Some(self.payment_preimage),
                            metadata: None,
                        },
                    ),
                },
            )
        } else if str_eq(self.status.as_str(), "FAILED") {
            Some(
                Payment {
                    ledger: Ledger::Lightning,
                    status: PaymentStatus::Failed,
                    amount_msat,
                    fee_msat: self.fee_msat,
                    payment_time: None,
                    error: Some(self.failure_reason),
                    description: None,
                    lightning: Some(
                        LnPayment {
                            ln_address: None,
                            payment_hash: self.payment_hash,
                            payment_preimage: None,
                            metadata: None,
                        },
                    ),
                },
            )
        } else {
            None
        }
    }
}

/// The outcome of a failed invoice lookup: no invoice when LND says it has
/// none (`there are no existing invoices` or `unable to locate invoice`),
/// otherwise `InvoiceByHash` with the message.
pub fn invoice_lookup_failure(message: String) -> (r: Result<Option<Invoice>, LightningError>)
    ensures
        r == (if text_contains(message@, "there are no existing invoices"@) || text_contains(
            message@,
            "unable to locate invoice"@,
        ) {
            Ok(None::<Invoice>)
        } else {
            Err(LightningError::InvoiceByHash(message))
        }),
{
    if contains_text(message.as_str(), "there are no existing invoices") || contains_text(
        message.as_str(),
        "unable to locate invoice",
    ) {
        Ok(None)
    } else {
        Err(LightningError::InvoiceByHash(message))
    }
}

/// The outcome of a failed payment lookup: no payment when LND does not know
/// it (`unable to find payment` or `unknown payment`), otherwise
/// `PaymentByHash` with the message.
pub fn payment_lookup_failure(message: String) -> (r: Result<Option<Payment>, LightningError>)
    ensures
        r == (if text_contains(message@, "unable to find payment"@) || text_contains(
            message@,
            "unknown payment"@,
        ) {
            Ok(None::<Payment>)
        } else {
            Err(LightningError::PaymentByHash(message))
        }),
{
    if contains_text(message.as_str(), "unable to find payment") || contains_text(
        message.as_str(),
        "unknown payment",
    ) {
        Ok(None)
    } else {
        Err(LightningError::PaymentByHash(message))
    }
}


/// The network name a `v1/getinfo` response reports: that of its last chain.
pub open spec fn reported_network_name(r: GetinfoResponse) -> Option<Seq<char>> {
    match r.chains {
        Some(cs) => if cs@.len() > 0 {
            opt_text(cs@.last().network)
        } else {
            None
        },
        None => None,
    }
}

impl GetinfoResponse {
    /// The node's network: the last chain's network name, ignoring case;
    /// `NodeInfo` when no chain with a network is reported.
    pub fn network(self) -> (r: Result<BtcNetwork, LightningError>)
        ensures
            match reported_network_name(self) {
                Some(n) => r == Ok::<BtcNetwork, LightningError>(network_of_name(lowercase(n))),
                None => r matches Err(LightningError::NodeInfo(m)) && m@
                    == "No chain information returned by LND"@,
            },
    {
        let name = match self.chains {
            Some(mut chains) => match chains.pop() {
                Some(chain) => chain.network,
                None => None,
            },
            None => None,
        };
        match name {
            Some(n) => Ok(parse_network(n.as_str())),
            None => Err(LightningError::NodeInfo("No chain information returned by LND".to_string())),
        }
    }
}

/// The `type` LND's `v1/newaddress` takes for an address type; P2PKH is not
/// issued.
pub open spec fn lnd_address_type_param(t: BtcAddressType) -> Option<Seq<char>> {
    match t {
        BtcAddressType::P2sh => Some("NESTED_PUBKEY_HASH"@),
        BtcAddressType::P2tr => Some("TAPROOT_PUBKEY"@),
        BtcAddressType::P2wpkh => Some("WITNESS_PUBKEY_HASH"@),
        _ => None,
    }
}

/// The `v1/newaddress` endpoint for an address type, or `AddressType` naming
/// a type LND does not issue.
pub fn lnd_new_address_endpoint(t: BtcAddressType) -> (r: Result<String, BitcoinError>)
    ensures
        match lnd_address_type_param(t) {
            Some(p) => r matches Ok(e) && e@ == "v1/newaddress?type="@ + p,
            None => r matches Err(BitcoinError::AddressType(n)) && n@ == address_type_name(t),
        },
{
    match t {
        BtcAddressType::P2sh => Ok(concat("v1/newaddress?type=", "NESTED_PUBKEY_HASH")),
        BtcAddressType::P2tr => Ok(concat("v1/newaddress?type=", "TAPROOT_PUBKEY")),
        BtcAddressType::P2wpkh => Ok(concat("v1/newaddress?type=", "WITNESS_PUBKEY_HASH")),
        _ => Err(BitcoinError::AddressType(t.name().to_string())),
    }
}

/// The `v2/router/send` request paying `bolt11` (optionally a given amount)
/// within the fee limit and timeout, without in-flight updates.
pub fn lnd_pay_request(bolt11: String, amount_msat: Option<u64>, fee_limit_msat: u64, timeout_seconds: u32) -> (r:
    PayRequest)
    ensures
        r == (PayRequest {
            payment_request: bolt11,
            fee_limit_msat,
            amt_msat: amount_msat,
            timeout_seconds,
            no_inflight_updates: true,
        }),
{
    PayRequest { payment_request: bolt11, fee_limit_msat, amt_msat: amount_msat, timeout_seconds, no_inflight_updates: true }
}

/// The `v2/wallet/psbt/fund` request paying `amount_sat` to `address` from
/// confirmed coins (one confirmation at least): at the given fee rate, or
/// targeting the next block when none is given.
pub fn lnd_fund_psbt_request(address: String, amount_sat: u64, fee_rate: Option<u32>) -> (r: FundPsbtRequest)
    ensures
        r.raw.outputs@ == seq![(address, amount_sat)],
        r.sat_per_vbyte == fee_rate,
        r.min_confs == 1,
        !r.spend_unconfirmed,
        r.target_conf == (if fee_rate is None {
            Some(1u32)
        } else {
            None
        }),
{
    let mut outputs = Vec::new();
    outputs.push((address, amount_sat));
    FundPsbtRequest {
        raw: TxTemplate { outputs },
        sat_per_vbyte: fee_rate,
        min_confs: 1,
        spend_unconfirmed: false,
        target_conf: if fee_rate.is_none() { Some(1) } else { None },
    }
}

/// A locked output by its lease id, transaction id and output index.
pub open spec fn utxo_view(u: BtcLockedUtxo) -> (Seq<char>, Seq<char>, u32) {
    (u.id@, u.txid@, u.output_index)
}

/// The locked output a lease stands for: only leases whose outpoint has both a
/// transaction id and an index, the index truncated to 32 bits.
pub open spec fn lease_utxo(l: UtxoLease) -> Option<(Seq<char>, Seq<char>, u32)> {
    match (l.outpoint.txid_str, l.outpoint.output_index) {
        (Some(t), Some(i)) => Some((l.id@, t@, i as u32)),
        _ => None,
    }
}

/// The locked outputs of a list of leases, in order.
pub open spec fn leases_utxos(s: Seq<UtxoLease>) -> Seq<(Seq<char>, Seq<char>, u32)>
    decreases s.len(),
{
    if s.len() == 0 {
        Seq::empty()
    } else {
        let rest = leases_utxos(s.drop_last());
        match lease_utxo(s.last()) {
            Some(u) => rest.push(u),
            None => rest,
        }
    }
}

/// The wallet's locked outputs for the leases a funding call returned.
pub fn lnd_locked_utxos(leases: &Vec<UtxoLease>) -> (r: Vec<BtcLockedUtxo>)
    ensures
        r@.map_values(|u: BtcLockedUtxo| utxo_view(u)) == leases_utxos(leases@),
{
    let mut out: Vec<BtcLockedUtxo> = Vec::new();
    let mut i: usize = 0;
    while i < leases.len()
        invariant
            i <= leases@.len(),
            out@.map_values(|u: BtcLockedUtxo| utxo_view(u)) == leases_utxos(leases@.subrange(0, i as int)),
        decreases leases@.len() - i,
    {
        let l = &leases[i];
        let ghost before = out@;
        assert(leases@.subrange(0, i + 1).drop_last() =~= leases@.subrange(0, i as int));
        assert(leases@.subrange(0, i + 1).last() == leases@[i as int]);
        match (&l.outpoint.txid_str, l.outpoint.output_index) {
            (Some(txid), Some(index)) => {
                out.push(BtcLockedUtxo { id: l.id.clone(), txid: txid.clone(), output_index: index as u32 });
                assert(out@.map_values(|u: BtcLockedUtxo| utxo_view(u)) =~= before.map_values(
                    |u: BtcLockedUtxo| utxo_view(u),
                ).push(lease_utxo(leases@[i as int])->0));
            },
            _ => {},
        }
        i = i + 1;
    }
    assert(leases@.subrange(0, leases@.len() as int) =~= leases@);
    out
}

/// The prepared transaction for a funded PSBT that LND finalized into
/// `raw_final_tx` (base64): the PSBT as funded and the fee read from it, the
/// finalized transaction's bytes and the id computed from them, and the
/// leased outputs. Fails with `ParsePsbt` when the PSBT yields no fee, then
/// with `Transaction` when the finalized transaction does not decode.
pub fn lnd_prepared_transaction(fund: FundPsbtResponse, raw_final_tx: &str) -> (r: Result<BtcPreparedTransaction, BitcoinError>)
    ensures
        r is Ok <==> ((base64_standard_decode(fund.funded_psbt@) matches Some(b) && psbt_fee_of(b) is Some)
            && (base64_standard_decode(raw_final_tx@) matches Some(t) && raw_tx_txid_of(t) is Some)),
        !(base64_standard_decode(fund.funded_psbt@) matches Some(b) && psbt_fee_of(b) is Some) ==> (
        r matches Err(e) && e is ParsePsbt),
        r matches Err(e) ==> e is ParsePsbt || e is Transaction,
        r matches Ok(p) ==> (p.psbt == fund.funded_psbt && Some(p.fee_sat) == psbt_fee_of(
            base64_standard_decode(fund.funded_psbt@)->0,
        ) && (p.raw_tx matches Some(raw) && Some(raw@) == base64_standard_decode(raw_final_tx@)
            && Some(p.txid@) == raw_tx_txid_of(raw@)) && p.locked_utxos@.map_values(
            |u: BtcLockedUtxo| utxo_view(u),
        ) == leases_utxos(fund.locked_utxos@)),
{
    let locked_utxos = lnd_locked_utxos(&fund.locked_utxos);
    let fee_sat = psbt_fee_sat(fund.funded_psbt.as_str())?;
    let raw_tx = match base64_decode(raw_final_tx) {
        Ok(b) => b,
        Err(e) => return Err(BitcoinError::Transaction(concat("Failed to decode raw tx: ", e.as_str()))),
    };
    let txid = txid_from_raw_tx(raw_tx.as_slice())?;
    Ok(BtcPreparedTransaction { txid, fee_sat, psbt: fund.funded_psbt, raw_tx: Some(raw_tx), locked_utxos })
}

/// The error a send reports when LND could not finalize its funded PSBT and
/// the leased outputs were then released: the release's own error when
/// releasing failed too, otherwise the finalize error as `Transaction`.
pub fn finalize_failure_error(release: Result<(), BitcoinError>, finalize_error: String) -> (r: BitcoinError)
    ensures
        r == match release {
            Err(e) => e,
            Ok(()) => BitcoinError::Transaction(finalize_error),
        },
{
    match release {
        Err(e) => e,
        Ok(()) => BitcoinError::Transaction(finalize_error),
    }
}

/// The `v2/wallet/tx` request that broadcasts a prepared transaction: its
/// finalized bytes in base64; `Transaction` when it holds none.
pub fn lnd_publish_request(prepared: &BtcPreparedTransaction) -> (r: Result<PublishTransactionRequest, BitcoinError>)
    ensures
        match prepared.raw_tx {
            Some(raw) => r matches Ok(req) && req.tx_hex@ == base64_standard_encode(raw@),
            None => r matches Err(e) && e is Transaction,
        },
{
    match &prepared.raw_tx {
        Some(raw) => Ok(PublishTransactionRequest { tx_hex: base64_encode(raw.as_slice()) }),
        None => Err(BitcoinError::Transaction("Prepared transaction missing raw tx".to_string())),
    }
}

impl PublishTransactionResponse {
    /// The outcome of publishing `txid`: the id when LND reports no error,
    /// otherwise `Transaction` with LND's error.
    pub fn into_outcome(self, txid: String) -> (r: Result<String, BitcoinError>)
        ensures
            r == (if self.publish_error@.len() == 0 {
                Ok::<String, BitcoinError>(txid)
            } else {
                Err(BitcoinError::Transaction(self.publish_error))
            }),
    {
        if self.publish_error.as_str().unicode_len() == 0 {
            Ok(txid)
        } else {
            Err(BitcoinError::Transaction(self.publish_error))
        }
    }
}

/// The `v2/wallet/utxos/release` request releasing one locked output.
pub fn lnd_release_request(utxo: &BtcLockedUtxo) -> (r: ReleaseOutputRequest)
    ensures
        r.id@ == utxo.id@,
        opt_text(r.outpoint.txid_str) == Some(utxo.txid@),
        r.outpoint.output_index == Some(utxo.output_index as i64),
{
    ReleaseOutputRequest {
        id: utxo.id.clone(),
        outpoint: OutPoint { txid_str: Some(utxo.txid.clone()), output_index: Some(utxo.output_index as i64) },
    }
}

/// Whether any input of a transaction spends one of our outputs.
pub open spec fn spends_ours(ps: Seq<PreviousOutpointResponse>) -> bool {
    exists|i: int| 0 <= i < ps.len() && (#[trigger] ps[i]).is_our_output
}

/// The wallet's transaction output for an LND output detail.
pub open spec fn detail_output(d: OutputDetailResponse, o: BtcTransactionOutput) -> bool {
    &&& o.output_index == d.output_index
    &&& o.address@ == d.address@
    &&& o.amount_sat == d.amount
    &&& o.is_ours == d.is_our_address
}

/// Whether any of a list of inputs spends one of our outputs.
pub fn any_our_input(ps: &Vec<PreviousOutpointResponse>) -> (r: bool)
    ensures
        r == spends_ours(ps@),
{
    let mut i: usize = 0;
    while i < ps.len()
        invariant
            i <= ps@.len(),
            forall|j: int| 0 <= j < i ==> !(#[trigger] ps@[j]).is_our_output,
        decreases ps@.len() - i,
    {
        if ps[i].is_our_output {
            return true;
        }
        i = i + 1;
    }
    false
}

impl TransactionResponse {
    /// The wallet's view of this transaction: outgoing when an input spends
    /// one of our outputs, its outputs one for one, mined at its block height.
    pub fn into_transaction(self) -> (r: BtcTransaction)
        ensures
            r.txid == self.tx_hash,
            r.block_height == Some(self.block_height),
            r.is_outgoing == spends_ours(self.previous_outpoints@),
            r.outputs@.len() == self.output_details@.len(),
            forall|i: int|
                0 <= i < self.output_details@.len() ==> detail_output(
                    #[trigger] self.output_details@[i],
                    r.outputs@[i],
                ),
    {
        let is_outgoing = any_our_input(&self.previous_outpoints);
        let mut outputs: Vec<BtcTransactionOutput> = Vec::new();
        let mut i: usize = 0;
        while i < self.output_details.len()
            invariant
                i <= self.output_details@.len(),
                outputs@.len() == i,
                forall|j: int|
                    0 <= j < i ==> detail_output(#[trigger] self.output_details@[j], outputs@[j]),
            decreases self.output_details@.len() - i,
        {
            let d = &self.output_details[i];
            outputs.push(
                BtcTransactionOutput {
                    output_index: d.output_index,
                    address: d.address.clone(),
                    amount_sat: d.amount,
                    is_ours: d.is_our_address,
                },
            );
            i = i + 1;
        }
        BtcTransaction { txid: self.tx_hash, block_height: Some(self.block_height), outputs, is_outgoing }
    }
}

/// The status of an output of a transaction mined at `height`: confirmed once
/// the height is above zero.
pub open spec fn height_status(height: Option<u32>) -> BtcOutputStatus {
    match height {
        Some(h) => if h > 0 {
            BtcOutputStatus::Confirmed
        } else {
            BtcOutputStatus::Unconfirmed
        },
        None => BtcOutputStatus::Unconfirmed,
    }
}

/// The wallet output one output of a transaction stands for.
pub open spec fn output_of_tx(t: BtcTransaction, o: BtcTransactionOutput, b: BtcOutput) -> bool {
    &&& b.txid@ == t.txid@
    &&& b.output_index == o.output_index
    &&& b.address@ == o.address@
    &&& b.amount_sat == o.amount_sat
    &&& b.block_height == t.block_height
    &&& b.outpoint@ == outpoint_text(t.txid@, o.output_index)
    &&& b.status == height_status(t.block_height)
}

/// The wallet output for one output of a transaction.
pub fn tx_output(t: &BtcTransaction, o: &BtcTransactionOutput) -> (r: BtcOutput)
    ensures
        output_of_tx(*t, *o, r),
{
    let status = match t.block_height {
        Some(h) => if h > 0 {
            BtcOutputStatus::Confirmed
        } else {
            BtcOutputStatus::Unconfirmed
        },
        None => BtcOutputStatus::Unconfirmed,
    };
    BtcOutput {
        txid: t.txid.clone(),
        output_index: o.output_index,
        address: o.address.clone(),
        amount_sat: o.amount_sat,
        block_height: t.block_height,
        outpoint: outpoint_string(t.txid.as_str(), o.output_index),
        status,
    }
}

/// Whether a transaction output is the one looked up: the given index, or
/// (without an index) the given address.
pub open spec fn tx_output_matches(o: BtcTransactionOutput, output_index: Option<u32>, address: Option<Seq<char>>) -> bool {
    match output_index {
        Some(i) => o.output_index == i,
        None => match address {
            Some(a) => o.address@ == a,
            None => false,
        },
    }
}

/// The output `get_output` reports from a transaction: the first matching
/// output; none when no output matches.
pub fn lnd_find_output(t: &BtcTransaction, output_index: Option<u32>, address: Option<&str>) -> (r: Option<BtcOutput>)
    ensures
        r is None <==> forall|i: int|
            0 <= i < t.outputs@.len() ==> !tx_output_matches(
                #[trigger] t.outputs@[i],
                output_index,
                crate::cln_rest::opt_str_text(address),
            ),
        r matches Some(b) ==> exists|i: int|
            0 <= i < t.outputs@.len() && tx_output_matches(
                #[trigger] t.outputs@[i],
                output_index,
                crate::cln_rest::opt_str_text(address),
            ) && (forall|j: int|
                0 <= j < i ==> !tx_output_matches(
                    #[trigger] t.outputs@[j],
                    output_index,
                    crate::cln_rest::opt_str_text(address),
                )) && output_of_tx(*t, t.outputs@[i], b),
{
    let mut i: usize = 0;
    while i < t.outputs.len()
        invariant
            i <= t.outputs@.len(),
            forall|j: int|
                0 <= j < i ==> !tx_output_matches(
                    #[trigger] t.outputs@[j],
                    output_index,
                    crate::cln_rest::opt_str_text(address),
                ),
        decreases t.outputs@.len() - i,
    {
        let o = &t.outputs[i];
        let hit = match output_index {
            Some(index) => o.output_index == index,
            None => match address {
                Some(target) => str_eq(o.address.as_str(), target),
                None => false,
            },
        };
        if hit {
            let b = tx_output(t, o);
            assert(tx_output_matches(t.outputs@[i as int], output_index, crate::cln_rest::opt_str_text(address)));
            return Some(b);
        }
        i = i + 1;
    }
    None
}

/// `String::from_utf8`: the text when the bytes are valid UTF-8 (as vstd's
/// `valid_utf8` states it), decoded as vstd's `decode_utf8` states it.
#[verifier::external_body]
pub(crate) fn utf8_decode(bytes: Vec<u8>) -> (r: Option<String>)
    ensures
        r is Some <==> vstd::utf8::valid_utf8(bytes@),
        r matches Some(s) ==> s@ == vstd::utf8::decode_utf8(bytes@),
{
    String::from_utf8(bytes).ok()
}

/// The macaroon bytes a macaroon file holds: the file itself when it starts
/// with the binary marker byte 0x02, otherwise the base64 its UTF-8 text
/// holds once trimmed.
pub open spec fn macaroon_bytes(file: Seq<u8>) -> Option<Seq<u8>> {
    if file.len() > 0 && file[0] == 2 {
        Some(file)
    } else if vstd::utf8::valid_utf8(file) {
        base64_standard_decode(trimmed(vstd::utf8::decode_utf8(file)))
    } else {
        None
    }
}

/// A binary macaroon file and a file holding a base64 text of the same
/// macaroon (as `STANDARD.encode` writes it, with a trailing line break) give
/// the same macaroon bytes, and so the same hex macaroon.
pub proof fn lemma_macaroon_forms_agree(b: Seq<u8>, text: Seq<char>)
    requires
        b.len() > 0,
        b[0] == 2,
        text.len() > 0,
        forall|i: int| 0 <= i < text.len() ==> is_base64_char(#[trigger] text[i]),
        base64_standard_decode(text) == Some(b),
    ensures
        macaroon_bytes(b) == Some(b),
        macaroon_bytes(vstd::utf8::encode_utf8(text + seq!['\n'])) == Some(b),
{
    let s = text + seq!['\n'];
    assert(vstd::utf8::is_ascii_chars(s)) by {
        assert forall|i: int| 0 <= i < s.len() implies '\0' <= #[trigger] s[i] <= '\u{7f}' by {
            if i < text.len() {
                assert(s[i] == text[i]);
                assert(is_base64_char(text[i]));
            }
        }
    }
    vstd::utf8::is_ascii_chars_encode_utf8(s);
    vstd::utf8::encode_utf8_valid_utf8(s);
    vstd::utf8::encode_utf8_decode_utf8(s);
    let file = vstd::utf8::encode_utf8(s);
    assert(s[0] == text[0]);
    assert(is_base64_char(text[0]));
    assert(file[0] == s[0] as u8);
    assert(file[0] != 2);
    assert(!is_white_space(s[0]));
    assert(trim_start(s) == s);
    assert(is_white_space(s.last()));
    assert(s.drop_last() =~= text);
    assert(is_base64_char(text.last()));
    assert(!is_white_space(text.last()));
    assert(trim_end(text) == text);
    assert(trim_end(s) == trim_end(text));
    assert(trimmed(s) == text);
}

/// The hex macaroon LND's requests carry, from the contents of a macaroon
/// file (binary or base64 text); an error when a text file is not UTF-8 or
/// not base64.
pub fn macaroon_hex(file: Vec<u8>) -> (r: Result<String, String>)
    ensures
        match macaroon_bytes(file@) {
            Some(b) => r matches Ok(s) && s@ == hex_lower(b),
            None => r is Err,
        },
{
    if file.len() > 0 && file[0] == 2 {
        return Ok(hex_encode(file.as_slice()));
    }
    let text = match utf8_decode(file) {
        Some(t) => t,
        None => return Err("macaroon file is neither binary nor UTF-8 text".to_string()),
    };
    let bytes = base64_decode(trim(text.as_str()))?;
    Ok(hex_encode(bytes.as_slice()))
}

} // verus!
