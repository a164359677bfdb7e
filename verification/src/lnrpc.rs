//! LND gRPC API: the `lnrpc`, `routerrpc` and `walletrpc` messages the wallet
//! reads (as plain data) and the verified decisions of the gRPC client and
//! listener.
use vstd::prelude::*;

use crate::bolt11::{bolt11_decodes, bolt11_expiry_in_range, bolt11_fields_of, bolt11_fields_wf, invoice_from_bolt11, invoice_of_bolt11, Bolt11Fields};
use crate::chain::{
    base64_encode, base64_standard_decode, base64_standard_encode, psbt_fee_and_txid, psbt_fee_of,
    psbt_txid_of, sha256, sha256_digest,
};
use crate::cln_rest::secs_in_range;
use crate::domain;
use crate::domain::{
    BitcoinError, BtcAddressType, BtcOutputStatus, BtcLockedUtxo, BtcNetwork, BtcPreparedTransaction, BtcTransaction,
    BtcTransactionOutput, InvoiceStatus, Ledger, LightningError, LnInvoicePaidEvent, LnPayment,
    OnchainDepositEvent, OnchainSyncBatch, OnchainSyncCursor, OnchainTransaction,
    OnchainWithdrawalEvent, address_type_name,
};
use crate::lnd::{nanos_time, output_of_tx, tx_output, utxo_view};
use crate::network::{network_of_name, parse_network};
use crate::text::{concat, hex_bytes, hex_decode, hex_encode, hex_lower, is_hex_text, lowercase, opt_text};
use crate::time::{at_secs, utc_at_secs, utc_timestamp_nanos, UtcTime};

verus! {

/// State of an LND invoice.
#[derive(Clone, Copy, Debug, PartialEq, Eq, Structural)]
pub enum InvoiceState {
    Open,
    Settled,
    Canceled,
    Accepted,
}

/// An LND invoice (`lnrpc.Invoice`), as a request and as a response.
#[derive(Clone, Debug, PartialEq, Eq)]
pub struct Invoice {
    pub memo: String,
    pub r_hash: Vec<u8>,
    pub value_msat: i64,
    pub settle_date: i64,
    pub payment_request: String,
    pub description_hash: Vec<u8>,
    pub expiry: i64,
    pub amt_paid_msat: i64,
    pub state: InvoiceState,
}

/// Status of an LND payment (`lnrpc.Payment.PaymentStatus`).
#[derive(Clone, Copy, Debug, PartialEq, Eq, Structural)]
pub enum PaymentStatus {
    Unknown,
    InFlight,
    Succeeded,
    Failed,
    Initiated,
}

/// Why an LND payment failed (`lnrpc.PaymentFailureReason`).
#[derive(Clone, Copy, Debug, PartialEq, Eq, Structural)]
pub enum PaymentFailureReason {
    FailureReasonNone,
    FailureReasonTimeout,
    FailureReasonNoRoute,
    FailureReasonError,
    FailureReasonIncorrectPaymentDetails,
    FailureReasonInsufficientBalance,
    FailureReasonCanceled,
}

/// An LND payment (`lnrpc.Payment`).
#[derive(Clone, Debug, PartialEq, Eq)]
pub struct Payment {
    pub payment_hash: String,
    pub value_msat: i64,
    pub creation_time_ns: i64,
    pub fee_msat: i64,
    pub payment_preimage: String,
    pub status: PaymentStatus,
    pub failure_reason: PaymentFailureReason,
}

/// `routerrpc.SendPaymentRequest`, as far as the wallet fills it.
#[derive(Clone, Debug, PartialEq, Eq)]
pub struct SendPaymentRequest {
    pub payment_request: String,
    pub amt_msat: i64,
    pub fee_limit_msat: i64,
    pub timeout_seconds: i32,
    pub no_inflight_updates: bool,
}

/// A chain of `lnrpc.GetInfoResponse`.
#[derive(Clone, Debug, PartialEq, Eq)]
pub struct Chain {
    pub chain: String,
    pub network: String,
}

/// An output of an LND transaction (`lnrpc.OutputDetail`).
#[derive(Clone, Debug, PartialEq, Eq)]
pub struct OutputDetail {
    pub output_index: i64,
    pub amount: i64,
    pub address: String,
    pub is_our_address: bool,
}

/// An input of an LND transaction (`lnrpc.PreviousOutPoint`).
#[derive(Clone, Debug, PartialEq, Eq)]
pub struct PreviousOutPoint {
    pub outpoint: String,
    pub is_our_output: bool,
}

/// An LND wallet transaction (`lnrpc.Transaction`).
#[derive(Clone, Debug, PartialEq, Eq)]
pub struct Transaction {
    pub tx_hash: String,
    pub block_height: i32,
    pub output_details: Vec<OutputDetail>,
    pub previous_outpoints: Vec<PreviousOutPoint>,
}

/// An outpoint (`lnrpc.OutPoint`).
#[derive(Clone, Debug, PartialEq, Eq)]
pub struct OutPoint {
    pub txid_bytes: Vec<u8>,
    pub txid_str: String,
    pub output_index: u32,
}

/// A leased wallet output (`walletrpc.UtxoLease`).
#[derive(Clone, Debug, PartialEq, Eq)]
pub struct UtxoLease {
    pub id: Vec<u8>,
    pub outpoint: Option<OutPoint>,
}

/// How a PSBT funding call pays its fee (`walletrpc.FundPsbtRequest.fees`).
#[derive(Clone, Copy, Debug, PartialEq, Eq, Structural)]
pub enum FundPsbtFees {
    SatPerVbyte(u64),
    TargetConf(u32),
}

/// Address kinds of `lnrpc.NewAddressRequest`.
#[derive(Clone, Copy, Debug, PartialEq, Eq, Structural)]
pub enum AddressType {
    WitnessPubkeyHash,
    NestedPubkeyHash,
    TaprootPubkey,
}

/// The `add_invoice` request for an invoice of `amount_msat` with a
/// description; with `deschashonly` the description's SHA-256 is sent as its
/// hash as well.
pub fn invoice_request(amount_msat: u64, description: String, expiry: u32, deschashonly: bool) -> (r: Invoice)
    ensures
        r.memo == description,
        r.expiry == expiry as i64,
        r.value_msat == amount_msat as i64,
        r.description_hash@ == (if deschashonly {
            sha256_digest(vstd::utf8::encode_utf8(description@))
        } else {
            Seq::empty()
        }),
        r.r_hash@.len() == 0,
        r.settle_date == 0,
        r.payment_request@.len() == 0,
        r.amt_paid_msat == 0,
        r.state == InvoiceState::Open,
{
    let description_hash = if deschashonly {
        let bytes = description.as_str().as_bytes_vec();
        sha256(bytes.as_slice())
    } else {
        Vec::new()
    };
    Invoice {
        memo: description,
        r_hash: Vec::new(),
        value_msat: amount_msat as i64,
        settle_date: 0,
        payment_request: String::new(),
        description_hash,
        expiry: expiry as i64,
        amt_paid_msat: 0,
        state: InvoiceState::Open,
    }
}

/// A decoded invoice after an LND invoice's state is applied: settled at its
/// settle date (recording the amount paid only when positive), pending while
/// open or accepted, expired once canceled.
pub open spec fn lnrpc_state_applied(base: domain::Invoice, inv: Invoice, r: domain::Invoice) -> bool {
    match inv.state {
        InvoiceState::Settled => r == domain::Invoice {
            status: InvoiceStatus::Settled,
            payment_time: Some(at_secs(inv.settle_date as int)),
            amount_received_msat: if inv.amt_paid_msat > 0 {
                Some(inv.amt_paid_msat as u64)
            } else {
                base.amount_received_msat
            },
            ..base
        },
        InvoiceState::Open | InvoiceState::Accepted => r == domain::Invoice {
            status: InvoiceStatus::Pending,
            ..base
        },
        InvoiceState::Canceled => r == domain::Invoice { status: InvoiceStatus::Expired, ..base },
    }
}

/// The wallet invoice for an LND invoice: its BOLT 11 text decoded, then its
/// state applied; `LightningError::Invoice` when the text does not decode. A
/// settled invoice's settle date must be a representable second.
pub fn invoice_from_lnrpc(response: Invoice) -> (r: Result<domain::Invoice, LightningError>)
    requires
        response.state == InvoiceState::Settled ==> secs_in_range(response.settle_date as int),
    ensures
        r is Ok <==> bolt11_decodes(response.payment_request@),
        r matches Err(e) ==> e is Invoice,
        r matches Ok(inv) ==> exists|f: Bolt11Fields, base: domain::Invoice|
            bolt11_fields_of(f, response.payment_request@) && bolt11_fields_wf(f)
                && #[trigger] invoice_of_bolt11(f, base) && #[trigger] lnrpc_state_applied(
                base,
                response,
                inv,
            ),
{
    let base = match invoice_from_bolt11(response.payment_request.as_str()) {
        Ok(inv) => inv,
        Err(e) => return Err(LightningError::Invoice(e)),
    };
    let ghost b = base;
    let inv = apply_lnrpc_state(base, &response);
    proof {
        let f = choose|f: Bolt11Fields|
            bolt11_fields_of(f, response.payment_request@) && bolt11_fields_wf(f) && bolt11_expiry_in_range(f)
                && #[trigger] invoice_of_bolt11(f, b);
        assert(invoice_of_bolt11(f, b) && lnrpc_state_applied(b, response, inv));
    }
    Ok(inv)
}

/// An LND invoice's state decides the invoice's status: settled invoices are
/// settled at their settle date, open and accepted ones pending, canceled
/// ones expired; the rest of the decoded invoice is kept.
pub proof fn lemma_lnrpc_state_decides(base: domain::Invoice, inv: Invoice, r: domain::Invoice)
    requires
        lnrpc_state_applied(base, inv, r),
    ensures
        r.status == InvoiceStatus::Settled <==> inv.state == InvoiceState::Settled,
        r.status == InvoiceStatus::Pending <==> (inv.state == InvoiceState::Open || inv.state
            == InvoiceState::Accepted),
        r.status == InvoiceStatus::Expired <==> inv.state == InvoiceState::Canceled,
        inv.state == InvoiceState::Settled ==> r.payment_time == Some(at_secs(inv.settle_date as int)),
        r.ledger == base.ledger && r.amount_msat == base.amount_msat && r.description == base.description
            && r.timestamp == base.timestamp && r.ln_invoice == base.ln_invoice,
{
}

/// Applies an LND invoice's state to the invoice decoded from its text.
fn apply_lnrpc_state(base: domain::Invoice, response: &Invoice) -> (r: domain::Invoice)
    requires
        response.state == InvoiceState::Settled ==> secs_in_range(response.settle_date as int),
    ensures
        lnrpc_state_applied(base, *response, r),
{
    match response.state {
        InvoiceState::Settled => {
            let time = match utc_at_secs(response.settle_date) {
                Some(t) => t,
                None => {
                    assert(false);
                    UtcTime { secs: 0, nanos: 0 }
                },
            };
            let amount_received_msat = if response.amt_paid_msat > 0 {
                Some(response.amt_paid_msat as u64)
            } else {
                base.amount_received_msat
            };
            domain::Invoice {
                status: InvoiceStatus::Settled,
                payment_time: Some(time),
                amount_received_msat,
                ..base
            }
        },
        InvoiceState::Open | InvoiceState::Accepted => domain::Invoice {
            status: InvoiceStatus::Pending,
            ..base
        },
        InvoiceState::Canceled => domain::Invoice { status: InvoiceStatus::Expired, ..base },
    }
}

/// The name of a failure reason, as its `Debug` form writes it.
pub open spec fn failure_reason_name(r: PaymentFailureReason) -> Seq<char> {
    match r {
        PaymentFailureReason::FailureReasonNone => "FailureReasonNone"@,
        PaymentFailureReason::FailureReasonTimeout => "FailureReasonTimeout"@,
        PaymentFailureReason::FailureReasonNoRoute => "FailureReasonNoRoute"@,
        PaymentFailureReason::FailureReasonError => "FailureReasonError"@,
        PaymentFailureReason::FailureReasonIncorrectPaymentDetails => "FailureReasonIncorrectPaymentDetails"@,
        PaymentFailureReason::FailureReasonInsufficientBalance => "FailureReasonInsufficientBalance"@,
        PaymentFailureReason::FailureReasonCanceled => "FailureReasonCanceled"@,
    }
}

/// The name of a failure reason.
pub fn failure_reason_text(r: PaymentFailureReason) -> (s: String)
    ensures
        s@ == failure_reason_name(r),
{
    match r {
        PaymentFailureReason::FailureReasonNone => "FailureReasonNone".to_string(),
        PaymentFailureReason::FailureReasonTimeout => "FailureReasonTimeout".to_string(),
        PaymentFailureReason::FailureReasonNoRoute => "FailureReasonNoRoute".to_string(),
        PaymentFailureReason::FailureReasonError => "FailureReasonError".to_string(),
        PaymentFailureReason::FailureReasonIncorrectPaymentDetails => "FailureReasonIncorrectPaymentDetails".to_string(),
        PaymentFailureReason::FailureReasonInsufficientBalance => "FailureReasonInsufficientBalance".to_string(),
        PaymentFailureReason::FailureReasonCanceled => "FailureReasonCanceled".to_string(),
    }
}

/// The name of a payment status, as its `Debug` form writes it.
pub open spec fn payment_status_name(s: PaymentStatus) -> Seq<char> {
    match s {
        PaymentStatus::Unknown => "Unknown"@,
        PaymentStatus::InFlight => "InFlight"@,
        PaymentStatus::Succeeded => "Succeeded"@,
        PaymentStatus::Failed => "Failed"@,
        PaymentStatus::Initiated => "Initiated"@,
    }
}

/// The name of a payment status.
pub fn payment_status_text(s: PaymentStatus) -> (r: &'static str)
    ensures
        r@ == payment_status_name(s),
{
    match s {
        PaymentStatus::Unknown => "Unknown",
        PaymentStatus::InFlight => "InFlight",
        PaymentStatus::Succeeded => "Succeeded",
        PaymentStatus::Failed => "Failed",
        PaymentStatus::Initiated => "Initiated",
    }
}

/// The wallet payment an LND payment stands for: settled when succeeded,
/// failed when failed, pending otherwise; an error naming the failure reason
/// unless there is none; the fee only when positive; created at its
/// nanosecond instant; the preimage only when known.
pub open spec fn payment_of_lnrpc(p: Payment, r: domain::Payment) -> bool {
    &&& r.ledger == Ledger::Lightning
    &&& r.status == match p.status {
        PaymentStatus::Succeeded => domain::PaymentStatus::Settled,
        PaymentStatus::Failed => domain::PaymentStatus::Failed,
        _ => domain::PaymentStatus::Pending,
    }
    &&& opt_text(r.error) == (if p.failure_reason == PaymentFailureReason::FailureReasonNone {
        None
    } else {
        Some(failure_reason_name(p.failure_reason))
    })
    &&& r.amount_msat == p.value_msat as u64
    &&& r.fee_msat == (if p.fee_msat > 0 {
        Some(p.fee_msat as u64)
    } else {
        None
    })
    &&& r.payment_time == Some(nanos_time(p.creation_time_ns))
    &&& r.description is None
    &&& r.lightning matches Some(l) && l.payment_hash == p.payment_hash && l.payment_preimage == (
    if p.payment_preimage@.len() == 0 {
        None
    } else {
        Some(p.payment_preimage)
    }) && l.ln_address is None && l.metadata is None
}

/// An LND payment keeps its outcome in the wallet: settled exactly when LND
/// reports it succeeded, failed exactly when LND reports it failed (never
/// pending), and pending only while it is in flight, initiated or unknown;
/// it carries an error exactly when LND gives a failure reason, and the
/// amount and hash LND reports.
pub proof fn lemma_lnrpc_payment_keeps_outcome(p: Payment, r: domain::Payment)
    requires
        payment_of_lnrpc(p, r),
    ensures
        r.status == domain::PaymentStatus::Settled <==> p.status == PaymentStatus::Succeeded,
        r.status == domain::PaymentStatus::Failed <==> p.status == PaymentStatus::Failed,
        r.status == domain::PaymentStatus::Pending <==> (p.status == PaymentStatus::InFlight || p.status
            == PaymentStatus::Initiated || p.status == PaymentStatus::Unknown),
        r.error is Some <==> p.failure_reason != PaymentFailureReason::FailureReasonNone,
        r.amount_msat == p.value_msat as u64,
        r.lightning matches Some(l) && l.payment_hash == p.payment_hash,
{
}

/// The wallet payment for an LND payment.
pub fn payment_from_lnrpc(payment: Payment) -> (r: domain::Payment)
    ensures
        payment_of_lnrpc(payment, r),
{
    let status = match payment.status {
        PaymentStatus::Succeeded => domain::PaymentStatus::Settled,
        PaymentStatus::Failed => domain::PaymentStatus::Failed,
        _ => domain::PaymentStatus::Pending,
    };
    let error = match payment.failure_reason {
        PaymentFailureReason::FailureReasonNone => None,
        reason => Some(failure_reason_text(reason)),
    };
    let payment_preimage = if payment.payment_preimage.as_str().unicode_len() == 0 {
        None
    } else {
        Some(payment.payment_preimage)
    };
    domain::Payment {
        ledger: Ledger::Lightning,
        status,
        amount_msat: payment.value_msat as u64,
        fee_msat: if payment.fee_msat > 0 { Some(payment.fee_msat as u64) } else { None },
        payment_time: Some(utc_timestamp_nanos(payment.creation_time_ns)),
        error,
        description: None,
        lightning: Some(
            LnPayment { ln_address: None, payment_hash: payment.payment_hash, payment_preimage, metadata: None },
        ),
    }
}

/// The outcome of `pay` for the payment the router reports: the payment when
/// it succeeded; `Pay` naming the failure reason when it failed; `Pay`
/// naming any other status as unexpected.
pub fn pay_outcome(payment: Payment) -> (r: Result<domain::Payment, LightningError>)
    ensures
        match payment.status {
            PaymentStatus::Succeeded => r matches Ok(p) && payment_of_lnrpc(payment, p),
            PaymentStatus::Failed => r matches Err(LightningError::Pay(m)) && m@ == failure_reason_name(
                payment.failure_reason,
            ),
            _ => r matches Err(LightningError::Pay(m)) && m@ == "Unexpected payment status: "@
                + payment_status_name(payment.status),
        },
{
    match payment.status {
        PaymentStatus::Succeeded => Ok(payment_from_lnrpc(payment)),
        PaymentStatus::Failed => Err(LightningError::Pay(failure_reason_text(payment.failure_reason))),
        status => Err(
            LightningError::Pay(concat("Unexpected payment status: ", payment_status_text(status))),
        ),
    }
}

/// The router request paying `bolt11` (the given amount, or zero for the
/// invoice's own), within the fee limit and timeout, without in-flight
/// updates; the wide values are cast to the protocol's signed fields.
pub fn send_payment_request(bolt11: String, amount_msat: Option<u64>, fee_limit_msat: u64, timeout_secs: u64) -> (r:
    SendPaymentRequest)
    ensures
        r.payment_request == bolt11,
        r.amt_msat == (match amount_msat {
            Some(a) => a as i64,
            None => 0i64,
        }),
        r.fee_limit_msat == fee_limit_msat as i64,
        r.timeout_seconds == timeout_secs as i32,
        r.no_inflight_updates,
{
    SendPaymentRequest {
        payment_request: bolt11,
        amt_msat: match amount_msat {
            Some(a) => a as i64,
            None => 0,
        },
        fee_limit_msat: fee_limit_msat as i64,
        timeout_seconds: timeout_secs as i32,
        no_inflight_updates: true,
    }
}

/// The node's network from `get_info`: its first chain's network name,
/// ignoring case; `NodeInfo` when no chain is reported.
pub fn grpc_network(chains: &Vec<Chain>) -> (r: Result<BtcNetwork, LightningError>)
    ensures
        chains@.len() > 0 ==> r == Ok::<BtcNetwork, LightningError>(
            network_of_name(lowercase(chains@[0].network@)),
        ),
        chains@.len() == 0 ==> (r matches Err(LightningError::NodeInfo(m)) && m@
            == "No chain information returned by LND"@),
{
    if chains.len() > 0 {
        Ok(parse_network(chains[0].network.as_str()))
    } else {
        Err(LightningError::NodeInfo("No chain information returned by LND".to_string()))
    }
}

/// The address kind `new_address` asks LND for, or `AddressType` naming a
/// type LND does not issue (P2PKH).
pub fn address_type_of(t: BtcAddressType) -> (r: Result<AddressType, BitcoinError>)
    ensures
        match t {
            BtcAddressType::P2sh => r == Ok::<AddressType, BitcoinError>(AddressType::NestedPubkeyHash),
            BtcAddressType::P2tr => r == Ok::<AddressType, BitcoinError>(AddressType::TaprootPubkey),
            BtcAddressType::P2wpkh => r == Ok::<AddressType, BitcoinError>(AddressType::WitnessPubkeyHash),
            _ => r matches Err(BitcoinError::AddressType(n)) && n@ == address_type_name(t),
        },
{
    match t {
        BtcAddressType::P2sh => Ok(AddressType::NestedPubkeyHash),
        BtcAddressType::P2tr => Ok(AddressType::TaprootPubkey),
        BtcAddressType::P2wpkh => Ok(AddressType::WitnessPubkeyHash),
        _ => Err(BitcoinError::AddressType(t.name().to_string())),
    }
}

/// How a funding call pays its fee: the given rate, else targeting the next
/// block.
pub fn fund_fees(fee_rate: Option<u32>) -> (r: FundPsbtFees)
    ensures
        r == (match fee_rate {
            Some(rate) => FundPsbtFees::SatPerVbyte(rate as u64),
            None => FundPsbtFees::TargetConf(1),
        }),
{
    match fee_rate {
        Some(rate) => FundPsbtFees::SatPerVbyte(rate as u64),
        None => FundPsbtFees::TargetConf(1),
    }
}

/// The locked output a lease stands for: its id as hex, the outpoint's
/// transaction id (text, else its bytes as hex) and index; none without an
/// outpoint or transaction id.
pub open spec fn grpc_lease_utxo(l: UtxoLease) -> Option<(Seq<char>, Seq<char>, u32)> {
    match l.outpoint {
        Some(o) => if o.txid_str@.len() > 0 {
            Some((hex_lower(l.id@), o.txid_str@, o.output_index))
        } else if o.txid_bytes@.len() > 0 {
            Some((hex_lower(l.id@), hex_lower(o.txid_bytes@), o.output_index))
        } else {
            None
        },
        None => None,
    }
}

/// The locked outputs of a list of leases, in order.
pub open spec fn grpc_leases_utxos(s: Seq<UtxoLease>) -> Seq<(Seq<char>, Seq<char>, u32)>
    decreases s.len(),
{
    if s.len() == 0 {
        Seq::empty()
    } else {
        let rest = grpc_leases_utxos(s.drop_last());
        match grpc_lease_utxo(s.last()) {
            Some(u) => rest.push(u),
            None => rest,
        }
    }
}

/// The wallet's locked output for one lease, if it names an outpoint.
pub fn grpc_locked_utxo(l: &UtxoLease) -> (r: Option<BtcLockedUtxo>)
    ensures
        match grpc_lease_utxo(*l) {
            Some(u) => r matches Some(x) && utxo_view(x) == u,
            None => r is None,
        },
{
    match &l.outpoint {
        Some(o) => {
            let txid = if o.txid_str.as_str().unicode_len() > 0 {
                o.txid_str.clone()
            } else if o.txid_bytes.len() > 0 {
                hex_encode(o.txid_bytes.as_slice())
            } else {
                return None;
            };
            Some(BtcLockedUtxo { id: hex_encode(l.id.as_slice()), txid, output_index: o.output_index })
        },
        None => None,
    }
}

/// The wallet's locked outputs for the leases a funding call returned.
pub fn grpc_locked_utxos(leases: &Vec<UtxoLease>) -> (r: Vec<BtcLockedUtxo>)
    ensures
        r@.map_values(|u: BtcLockedUtxo| utxo_view(u)) == grpc_leases_utxos(leases@),
{
    let mut out: Vec<BtcLockedUtxo> = Vec::new();
    let mut i: usize = 0;
    while i < leases.len()
        invariant
            i <= leases@.len(),
            out@.map_values(|u: BtcLockedUtxo| utxo_view(u)) == grpc_leases_utxos(
                leases@.subrange(0, i as int),
            ),
        decreases leases@.len() - i,
    {
        let ghost before = out@;
        assert(leases@.subrange(0, i + 1).drop_last() =~= leases@.subrange(0, i as int));
        assert(leases@.subrange(0, i + 1).last() == leases@[i as int]);
        match grpc_locked_utxo(&leases[i]) {
            Some(u) => {
                out.push(u);
                assert(out@.map_values(|u: BtcLockedUtxo| utxo_view(u)) =~= before.map_values(
                    |u: BtcLockedUtxo| utxo_view(u),
                ).push(grpc_lease_utxo(leases@[i as int])->0));
            },
            None => {},
        }
        i = i + 1;
    }
    assert(leases@.subrange(0, leases@.len() as int) =~= leases@);
    out
}

/// The prepared transaction for a PSBT LND funded (raw bytes): the PSBT as
/// base64, its fee and unsigned transaction id read from it, and the leased
/// outputs; `ParsePsbt` when the PSBT does not decode or its fee cannot be
/// computed.
pub fn grpc_prepared_transaction(funded_psbt: &[u8], leases: &Vec<UtxoLease>) -> (r: Result<
    BtcPreparedTransaction,
    BitcoinError,
>)
    ensures
        r is Ok <==> (base64_standard_decode(base64_standard_encode(funded_psbt@)) matches Some(b)
            && psbt_fee_of(b) is Some),
        r matches Err(e) ==> e is ParsePsbt,
        r matches Ok(p) ==> p.psbt@ == base64_standard_encode(funded_psbt@) && Some(p.fee_sat)
            == psbt_fee_of(base64_standard_decode(p.psbt@)->0) && Some(p.txid@) == psbt_txid_of(
            base64_standard_decode(p.psbt@)->0,
        ) && p.raw_tx is None && p.locked_utxos@.map_values(|u: BtcLockedUtxo| utxo_view(u))
            == grpc_leases_utxos(leases@),
{
    let psbt_base64 = base64_encode(funded_psbt);
    let (fee_sat, txid) = psbt_fee_and_txid(psbt_base64.as_str())?;
    let locked_utxos = grpc_locked_utxos(leases);
    Ok(BtcPreparedTransaction { txid, fee_sat, psbt: psbt_base64, raw_tx: None, locked_utxos })
}

/// The outcome of publishing a transaction: success when LND reports no
/// error, otherwise `BroadcastTransaction` with LND's error.
pub fn publish_outcome(publish_error: String) -> (r: Result<(), BitcoinError>)
    ensures
        r == (if publish_error@.len() == 0 {
            Ok::<(), BitcoinError>(())
        } else {
            Err(BitcoinError::BroadcastTransaction(publish_error))
        }),
{
    if publish_error.as_str().unicode_len() == 0 {
        Ok(())
    } else {
        Err(BitcoinError::BroadcastTransaction(publish_error))
    }
}

/// What releasing one locked output sends: the lease id decoded from hex and
/// the outpoint by its transaction id text; `ReleaseTransaction` when the id
/// is not hex.
pub fn release_output_args(utxo: &BtcLockedUtxo) -> (r: Result<(Vec<u8>, OutPoint), BitcoinError>)
    ensures
        r is Ok <==> is_hex_text(utxo.id@),
        r matches Err(e) ==> e is ReleaseTransaction,
        r matches Ok((id, o)) ==> id@ == hex_bytes(utxo.id@) && o.txid_bytes@.len() == 0
            && o.txid_str@ == utxo.txid@ && o.output_index == utxo.output_index,
{
    let id = match hex_decode(utxo.id.as_str()) {
        Some(b) => b,
        None => return Err(BitcoinError::ReleaseTransaction("lease id is not hex".to_string())),
    };
    Ok((id, OutPoint { txid_bytes: Vec::new(), txid_str: utxo.txid.clone(), output_index: utxo.output_index }))
}

/// The paid event an invoice update stands for: only a settled invoice with a
/// payment hash, whose hash is written as hex, with the amount paid and no
/// fee, paid at its settle date.
pub fn settled_invoice_event(invoice: &Invoice) -> (r: Option<LnInvoicePaidEvent>)
    requires
        invoice.state == InvoiceState::Settled && invoice.r_hash@.len() > 0 ==> secs_in_range(
            invoice.settle_date as int,
        ),
    ensures
        r is Some <==> invoice.state == InvoiceState::Settled && invoice.r_hash@.len() > 0,
        r matches Some(e) ==> e.payment_hash@ == hex_lower(invoice.r_hash@) && e.amount_received_msat
            == invoice.amt_paid_msat as u64 && e.fee_msat == 0 && e.payment_time == at_secs(
            invoice.settle_date as int,
        ),
{
    if invoice.state != InvoiceState::Settled || invoice.r_hash.len() == 0 {
        return None;
    }
    let payment_time = match utc_at_secs(invoice.settle_date) {
        Some(t) => t,
        None => {
            assert(false);
            UtcTime { secs: 0, nanos: 0 }
        },
    };
    Some(
        LnInvoicePaidEvent {
            payment_hash: hex_encode(invoice.r_hash.as_slice()),
            amount_received_msat: invoice.amt_paid_msat as u64,
            fee_msat: 0,
            payment_time,
        },
    )
}


/// Whether any input of an LND transaction spends one of our outputs.
pub open spec fn spends_ours(ps: Seq<PreviousOutPoint>) -> bool {
    exists|i: int| 0 <= i < ps.len() && (#[trigger] ps[i]).is_our_output
}

/// Whether any of a list of inputs spends one of our outputs.
fn any_our_input(ps: &Vec<PreviousOutPoint>) -> (r: bool)
    ensures
        r == spends_ours(ps@),
{
    let mut i: usize = 0;
    while i < ps.len()
        invariant
            i <= ps@.len(),
            forall|j: int| 0 <= j < i ==> !(#[trigger] ps@[j]).is_our_output,
        decreases ps@.len() - i,
    {
        if ps[i].is_our_output {
            return true;
        }
        i = i + 1;
    }
    false
}

/// The wallet's transaction output for an LND output detail, its index and
/// amount cast to the wallet's unsigned fields.
pub open spec fn detail_output(d: OutputDetail, o: BtcTransactionOutput) -> bool {
    &&& o.output_index == d.output_index as u32
    &&& o.address@ == d.address@
    &&& o.amount_sat == d.amount as u64
    &&& o.is_ours == d.is_our_address
}

/// The wallet output for one LND output detail.
fn output_of_detail(d: &OutputDetail) -> (r: BtcTransactionOutput)
    ensures
        detail_output(*d, r),
{
    BtcTransactionOutput {
        output_index: d.output_index as u32,
        address: d.address.clone(),
        amount_sat: d.amount as u64,
        is_ours: d.is_our_address,
    }
}

/// The wallet's view of an LND transaction as the client reads it: outgoing
/// when an input spends one of our outputs, its outputs one for one, mined at
/// its block height (cast to the wallet's unsigned height).
pub open spec fn tx_of_lnrpc(t: Transaction, b: BtcTransaction) -> bool {
    &&& b.txid@ == t.tx_hash@
    &&& b.block_height == Some(t.block_height as u32)
    &&& b.is_outgoing == spends_ours(t.previous_outpoints@)
    &&& b.outputs@.len() == t.output_details@.len()
    &&& forall|i: int|
        0 <= i < t.output_details@.len() ==> detail_output(#[trigger] t.output_details@[i], b.outputs@[i])
}

/// The wallet's view of an LND transaction, as the client reads it.
pub fn transaction_from_lnrpc(t: &Transaction) -> (r: BtcTransaction)
    ensures
        tx_of_lnrpc(*t, r),
{
    let is_outgoing = any_our_input(&t.previous_outpoints);
    let mut outputs: Vec<BtcTransactionOutput> = Vec::new();
    let mut i: usize = 0;
    while i < t.output_details.len()
        invariant
            i <= t.output_details@.len(),
            outputs@.len() == i,
            forall|j: int| 0 <= j < i ==> detail_output(#[trigger] t.output_details@[j], outputs@[j]),
        decreases t.output_details@.len() - i,
    {
        outputs.push(output_of_detail(&t.output_details[i]));
        i = i + 1;
    }
    BtcTransaction {
        txid: t.tx_hash.clone(),
        block_height: Some(t.block_height as u32),
        outputs,
        is_outgoing,
    }
}

/// Whether the listener keeps an output detail: its index fits 32 bits and
/// its amount is not negative.
pub open spec fn detail_kept(d: OutputDetail) -> bool {
    0 <= d.output_index <= u32::MAX && d.amount >= 0
}

/// The output details the listener keeps, in order.
pub open spec fn kept_details(s: Seq<OutputDetail>) -> Seq<OutputDetail>
    decreases s.len(),
{
    if s.len() == 0 {
        Seq::empty()
    } else if detail_kept(s.last()) {
        kept_details(s.drop_last()).push(s.last())
    } else {
        kept_details(s.drop_last())
    }
}

/// The wallet's view of an LND transaction as the listener reads it: like the
/// client's, but outputs whose index or amount do not convert are dropped,
/// and an unmined transaction (height not above zero) has no height.
pub open spec fn tx_of_lnrpc_event(t: Transaction, b: BtcTransaction) -> bool {
    let kept = kept_details(t.output_details@);
    &&& b.txid@ == t.tx_hash@
    &&& b.block_height == (if t.block_height > 0 {
        Some(t.block_height as u32)
    } else {
        None
    })
    &&& b.is_outgoing == spends_ours(t.previous_outpoints@)
    &&& b.outputs@.len() == kept.len()
    &&& forall|i: int| 0 <= i < kept.len() ==> detail_output(#[trigger] kept[i], b.outputs@[i])
}

/// The wallet's view of a transaction notification.
pub fn map_transaction(t: &Transaction) -> (r: BtcTransaction)
    ensures
        tx_of_lnrpc_event(*t, r),
{
    let is_outgoing = any_our_input(&t.previous_outpoints);
    let mut outputs: Vec<BtcTransactionOutput> = Vec::new();
    let mut i: usize = 0;
    while i < t.output_details.len()
        invariant
            i <= t.output_details@.len(),
            outputs@.len() == kept_details(t.output_details@.subrange(0, i as int)).len(),
            forall|j: int|
                0 <= j < outputs@.len() ==> detail_output(
                    #[trigger] kept_details(t.output_details@.subrange(0, i as int))[j],
                    outputs@[j],
                ),
        decreases t.output_details@.len() - i,
    {
        let d = &t.output_details[i];
        let ghost prefix = t.output_details@.subrange(0, i as int);
        let ghost next = t.output_details@.subrange(0, i + 1);
        assert(next.drop_last() =~= prefix);
        assert(next.last() == *d);
        if 0 <= d.output_index && d.output_index <= 4294967295i64 && d.amount >= 0 {
            outputs.push(output_of_detail(d));
            assert(kept_details(next) == kept_details(prefix).push(*d));
        } else {
            assert(kept_details(next) == kept_details(prefix));
        }
        i = i + 1;
    }
    assert(t.output_details@.subrange(0, t.output_details@.len() as int) =~= t.output_details@);
    BtcTransaction {
        txid: t.tx_hash.clone(),
        block_height: if t.block_height > 0 { Some(t.block_height as u32) } else { None },
        outputs,
        is_outgoing,
    }
}

/// Whether an output of a transaction is reported: a foreign output of an
/// outgoing transaction (a withdrawal), or one of our outputs of an incoming
/// transaction (a deposit).
pub open spec fn is_relevant(t: BtcTransaction, o: BtcTransactionOutput) -> bool {
    if t.is_outgoing {
        !o.is_ours
    } else {
        o.is_ours
    }
}

/// The indices, in order, of the reported outputs among the first `n`.
pub open spec fn relevant_indices(t: BtcTransaction, n: int) -> Seq<int>
    decreases n,
{
    if n <= 0 {
        Seq::empty()
    } else if is_relevant(t, t.outputs@[n - 1]) {
        relevant_indices(t, n - 1).push(n - 1)
    } else {
        relevant_indices(t, n - 1)
    }
}

/// The indices, in order, of a transaction's reported outputs.
pub open spec fn relevant_outputs(t: BtcTransaction) -> Seq<int> {
    relevant_indices(t, t.outputs@.len() as int)
}

/// The reported indices of a transaction are exactly its relevant
/// outputs, each once and in increasing order.
pub proof fn lemma_relevant_indices(t: BtcTransaction, n: int)
    requires
        0 <= n <= t.outputs@.len(),
    ensures
        forall|k: int|
            0 <= k < relevant_indices(t, n).len() ==> 0 <= #[trigger] relevant_indices(t, n)[k] < n
                && is_relevant(t, t.outputs@[relevant_indices(t, n)[k]]),
        forall|k1: int, k2: int|
            0 <= k1 < k2 < relevant_indices(t, n).len() ==> #[trigger] relevant_indices(t, n)[k1]
                < #[trigger] relevant_indices(t, n)[k2],
        forall|j: int|
            0 <= j < n && is_relevant(t, #[trigger] t.outputs@[j]) ==> relevant_indices(t, n).contains(j),
    decreases n,
{
    if n > 0 {
        lemma_relevant_indices(t, n - 1);
        let prev = relevant_indices(t, n - 1);
        if is_relevant(t, t.outputs@[n - 1]) {
            assert(relevant_indices(t, n) == prev.push(n - 1));
            assert forall|j: int| 0 <= j < n && is_relevant(t, #[trigger] t.outputs@[j]) implies relevant_indices(
                t,
                n,
            ).contains(j) by {
                if j < n - 1 {
                    let k = choose|k: int| 0 <= k < prev.len() && prev[k] == j;
                    assert(relevant_indices(t, n)[k] == j);
                } else {
                    assert(relevant_indices(t, n)[prev.len() as int] == j);
                }
            }
        }
    }
}

/// The synchronisation event a reported output stands for: a withdrawal of
/// the transaction when it is outgoing, else a deposit of the output.
pub open spec fn sync_event_of(t: BtcTransaction, o: BtcTransactionOutput, e: OnchainTransaction) -> bool {
    if t.is_outgoing {
        e matches OnchainTransaction::Withdrawal(w) && w.txid@ == t.txid@ && w.block_height
            == t.block_height
    } else {
        e matches OnchainTransaction::Deposit(b) && output_of_tx(t, o, b)
    }
}

/// A synchronisation reports an outgoing transaction as a withdrawal of the
/// transaction and an incoming one as a deposit of the output, at the
/// transaction's height, with the output's amount and address; the deposit
/// is confirmed exactly when the transaction is mined at a positive height.
pub proof fn lemma_sync_event_follows_direction(t: BtcTransaction, o: BtcTransactionOutput, e: OnchainTransaction)
    requires
        sync_event_of(t, o, e),
    ensures
        e is Withdrawal <==> t.is_outgoing,
        e is Deposit <==> !t.is_outgoing,
        e matches OnchainTransaction::Withdrawal(w) ==> w.txid@ == t.txid@ && w.block_height == t.block_height,
        e matches OnchainTransaction::Deposit(b) ==> {
            &&& b.txid@ == t.txid@
            &&& b.output_index == o.output_index
            &&& b.amount_sat == o.amount_sat
            &&& b.address@ == o.address@
            &&& b.block_height == t.block_height
            &&& (b.status == BtcOutputStatus::Confirmed <==> (t.block_height matches Some(h) && h > 0))
            &&& b.status != BtcOutputStatus::Spent
        },
{
}

/// The synchronisation events of one transaction, one per reported output.
fn tx_sync_events(t: &BtcTransaction) -> (r: Vec<OnchainTransaction>)
    ensures
        r@.len() == relevant_outputs(*t).len(),
        forall|k: int|
            0 <= k < r@.len() ==> sync_event_of(*t, t.outputs@[relevant_outputs(*t)[k]], #[trigger] r@[k]),
{
    let mut r: Vec<OnchainTransaction> = Vec::new();
    let mut j: usize = 0;
    while j < t.outputs.len()
        invariant
            j <= t.outputs@.len(),
            r@.len() == relevant_indices(*t, j as int).len(),
            forall|k: int|
                0 <= k < r@.len() ==> sync_event_of(
                    *t,
                    t.outputs@[relevant_indices(*t, j as int)[k]],
                    #[trigger] r@[k],
                ),
        decreases t.outputs@.len() - j,
    {
        let o = &t.outputs[j];
        let relevant = if t.is_outgoing { !o.is_ours } else { o.is_ours };
        if relevant {
            let e = if t.is_outgoing {
                OnchainTransaction::Withdrawal(t.withdrawal_event())
            } else {
                OnchainTransaction::Deposit(tx_output(t, o))
            };
            r.push(e);
        }
        assert(relevant == is_relevant(*t, t.outputs@[j as int]));
        j = j + 1;
    }
    r
}

/// The (transaction, output) index of each event of a batch over the first
/// `n` transactions, in order.
pub open spec fn batch_keys(txs: Seq<BtcTransaction>, n: int) -> Seq<(int, int)>
    decreases n,
{
    if n <= 0 {
        Seq::empty()
    } else {
        batch_keys(txs, n - 1) + relevant_outputs(txs[n - 1]).map_values(|j: int| (n - 1, j))
    }
}

/// The highest block height among the first `n` transactions.
pub open spec fn max_height(txs: Seq<BtcTransaction>, n: int) -> Option<u32>
    decreases n,
{
    if n <= 0 {
        None
    } else {
        let m = max_height(txs, n - 1);
        match txs[n - 1].block_height {
            Some(h) => match m {
                Some(c) => Some(if h > c { h } else { c }),
                None => Some(h),
            },
            None => m,
        }
    }
}

/// Where the next synchronisation starts: `reorg_buffer` blocks below the
/// highest height seen (not below zero), so recent blocks are scanned again;
/// none when no transaction has a height.
pub open spec fn sync_next_cursor(txs: Seq<BtcTransaction>, reorg_buffer: u32) -> Option<OnchainSyncCursor> {
    match max_height(txs, txs.len() as int) {
        Some(h) => Some(
            OnchainSyncCursor::BlockHeight(if h >= reorg_buffer { (h - reorg_buffer) as u32 } else { 0 }),
        ),
        None => None,
    }
}

/// The batch a synchronisation over `txs` yields: one event per reported
/// output, transaction by transaction, and the rewound cursor.
pub open spec fn sync_batch_of(txs: Seq<BtcTransaction>, reorg_buffer: u32, r: OnchainSyncBatch) -> bool {
    let keys = batch_keys(txs, txs.len() as int);
    &&& r.events@.len() == keys.len()
    &&& forall|k: int|
        0 <= k < keys.len() ==> sync_event_of(
            txs[keys[k].0],
            txs[keys[k].0].outputs@[keys[k].1],
            #[trigger] r.events@[k],
        )
    &&& r.next_cursor == sync_next_cursor(txs, reorg_buffer)
}

/// The synchronisation batch over the wallet's transactions.
pub fn lnd_sync_batch(txs: &Vec<BtcTransaction>, reorg_buffer: u32) -> (r: OnchainSyncBatch)
    ensures
        sync_batch_of(txs@, reorg_buffer, r),
{
    let mut events: Vec<OnchainTransaction> = Vec::new();
    let mut max: Option<u32> = None;
    let mut i: usize = 0;
    while i < txs.len()
        invariant
            i <= txs@.len(),
            events@.len() == batch_keys(txs@, i as int).len(),
            forall|k: int|
                0 <= k < events@.len() ==> sync_event_of(
                    txs@[batch_keys(txs@, i as int)[k].0],
                    txs@[batch_keys(txs@, i as int)[k].0].outputs@[batch_keys(txs@, i as int)[k].1],
                    #[trigger] events@[k],
                ),
            max == max_height(txs@, i as int),
        decreases txs@.len() - i,
    {
        let t = &txs[i];
        let mut es = tx_sync_events(t);
        let ghost old_events = events@;
        let ghost new_events = es@;
        let ghost ro = relevant_outputs(*t);
        events.append(&mut es);
        let ghost keys = batch_keys(txs@, i + 1);
        assert(keys == batch_keys(txs@, i as int) + ro.map_values(|j: int| (i as int, j)));
        assert forall|k: int| 0 <= k < events@.len() implies sync_event_of(
            txs@[keys[k].0],
            txs@[keys[k].0].outputs@[keys[k].1],
            #[trigger] events@[k],
        ) by {
            if k < old_events.len() {
                assert(events@[k] == old_events[k]);
            } else {
                let m = k - old_events.len();
                assert(events@[k] == new_events[m]);
                assert(keys[k] == (i as int, ro[m]));
            }
        }
        match t.block_height {
            Some(h) => {
                max = Some(
                    match max {
                        Some(c) => if h > c {
                            h
                        } else {
                            c
                        },
                        None => h,
                    },
                );
            },
            None => {},
        }
        i = i + 1;
    }
    let next_cursor = match max {
        Some(h) => Some(OnchainSyncCursor::BlockHeight(h.saturating_sub(reorg_buffer))),
        None => None,
    };
    OnchainSyncBatch { events, next_cursor }
}

/// The height a synchronisation asks LND for transactions from: the stored
/// block height (cast to the protocol's signed field), else the start.
pub fn sync_start_height(cursor: Option<OnchainSyncCursor>) -> (r: i32)
    ensures
        r == (match cursor {
            Some(OnchainSyncCursor::BlockHeight(h)) => h as i32,
            _ => 0i32,
        }),
{
    match cursor {
        Some(OnchainSyncCursor::BlockHeight(h)) => h as i32,
        _ => 0,
    }
}

/// The synchronisation batch over the transactions `get_transactions`
/// returned, read as the client reads them.
pub fn lnd_grpc_sync_batch(raw: &Vec<Transaction>, reorg_buffer: u32) -> (r: OnchainSyncBatch)
    ensures
        exists|txs: Seq<BtcTransaction>|
            txs.len() == raw@.len() && (forall|i: int|
                0 <= i < raw@.len() ==> tx_of_lnrpc(raw@[i], #[trigger] txs[i])) && #[trigger] sync_batch_of(
                txs,
                reorg_buffer,
                r,
            ),
{
    let mut txs: Vec<BtcTransaction> = Vec::new();
    let mut i: usize = 0;
    while i < raw.len()
        invariant
            i <= raw@.len(),
            txs@.len() == i,
            forall|j: int| 0 <= j < i ==> tx_of_lnrpc(raw@[j], #[trigger] txs@[j]),
        decreases raw@.len() - i,
    {
        txs.push(transaction_from_lnrpc(&raw[i]));
        i = i + 1;
    }
    let r = lnd_sync_batch(&txs, reorg_buffer);
    assert(sync_batch_of(txs@, reorg_buffer, r));
    r
}

/// An event the transaction listener writes.
#[derive(Clone, Debug, PartialEq, Eq)]
pub enum ChainEvent {
    Deposit(OnchainDepositEvent),
    Withdrawal(OnchainWithdrawalEvent),
}

/// What the listener writes for one transaction notification: its events, and
/// the cursor to store once they are all written.
#[derive(Clone, Debug, PartialEq, Eq)]
pub struct TransactionProjection {
    pub events: Vec<ChainEvent>,
    pub cursor: Option<OnchainSyncCursor>,
}

/// The listener event a reported output stands for.
pub open spec fn chain_event_of(t: BtcTransaction, o: BtcTransactionOutput, e: ChainEvent) -> bool {
    if t.is_outgoing {
        e matches ChainEvent::Withdrawal(w) && w.txid@ == t.txid@ && w.block_height == t.block_height
    } else {
        e matches ChainEvent::Deposit(d) && d.txid@ == t.txid@ && d.output_index == o.output_index
            && d.address@ == o.address@ && d.amount_sat == o.amount_sat && d.block_height
            == t.block_height
    }
}

/// The listener records an outgoing transaction as a withdrawal and an
/// incoming one as a deposit of the output, at the transaction's height.
pub proof fn lemma_chain_event_follows_direction(t: BtcTransaction, o: BtcTransactionOutput, e: ChainEvent)
    requires
        chain_event_of(t, o, e),
    ensures
        e is Withdrawal <==> t.is_outgoing,
        e matches ChainEvent::Deposit(d) ==> d.txid@ == t.txid@ && d.output_index == o.output_index
            && d.amount_sat == o.amount_sat && d.block_height == t.block_height,
        e matches ChainEvent::Withdrawal(w) ==> w.txid@ == t.txid@ && w.block_height == t.block_height,
{
}

/// The cursor a mined transaction moves the listener to: its height, when
/// above zero.
pub open spec fn projection_cursor(t: BtcTransaction) -> Option<OnchainSyncCursor> {
    match t.block_height {
        Some(h) => if h > 0 {
            Some(OnchainSyncCursor::BlockHeight(h))
        } else {
            None
        },
        None => None,
    }
}

/// What the listener writes for a transaction: one event per reported output
/// and, for a mined transaction, its height as the next cursor.
pub fn transaction_projection(t: &BtcTransaction) -> (r: TransactionProjection)
    ensures
        r.events@.len() == relevant_outputs(*t).len(),
        forall|k: int|
            0 <= k < r.events@.len() ==> chain_event_of(
                *t,
                t.outputs@[relevant_outputs(*t)[k]],
                #[trigger] r.events@[k],
            ),
        r.cursor == projection_cursor(*t),
{
    let mut events: Vec<ChainEvent> = Vec::new();
    let mut j: usize = 0;
    while j < t.outputs.len()
        invariant
            j <= t.outputs@.len(),
            events@.len() == relevant_indices(*t, j as int).len(),
            forall|k: int|
                0 <= k < events@.len() ==> chain_event_of(
                    *t,
                    t.outputs@[relevant_indices(*t, j as int)[k]],
                    #[trigger] events@[k],
                ),
        decreases t.outputs@.len() - j,
    {
        let o = &t.outputs[j];
        let relevant = if t.is_outgoing { !o.is_ours } else { o.is_ours };
        if relevant {
            let e = if t.is_outgoing {
                ChainEvent::Withdrawal(t.withdrawal_event())
            } else {
                ChainEvent::Deposit(t.deposit_event(o))
            };
            events.push(e);
        }
        assert(relevant == is_relevant(*t, t.outputs@[j as int]));
        j = j + 1;
    }
    let cursor = match t.block_height {
        Some(h) => if h > 0 {
            Some(OnchainSyncCursor::BlockHeight(h))
        } else {
            None
        },
        None => None,
    };
    TransactionProjection { events, cursor }
}


/// The highest height among the first `n` transactions bounds every height
/// among them and is one of them; without one, none of them has a height.
pub proof fn lemma_max_height(txs: Seq<BtcTransaction>, n: int)
    requires
        0 <= n <= txs.len(),
    ensures
        match max_height(txs, n) {
            Some(m) => (forall|i: int|
                0 <= i < n && (#[trigger] txs[i]).block_height is Some ==> txs[i].block_height->0 <= m)
                && exists|i: int| 0 <= i < n && (#[trigger] txs[i]).block_height == Some(m),
            None => forall|i: int| 0 <= i < n ==> (#[trigger] txs[i]).block_height is None,
        },
    decreases n,
{
    if n > 0 {
        lemma_max_height(txs, n - 1);
        match max_height(txs, n - 1) {
            Some(c) => {
                let w = choose|i: int| 0 <= i < n - 1 && (#[trigger] txs[i]).block_height == Some(c);
                match txs[n - 1].block_height {
                    Some(h) => {
                        if h <= c {
                            assert(txs[w].block_height == Some(c));
                        }
                    },
                    None => {
                        assert(txs[w].block_height == Some(c));
                    },
                }
            },
            None => {},
        }
    }
}

/// A synchronisation rewinds to within `reorg_buffer` blocks of the
/// highest block it saw, so the next one scans again every block of the
/// buffer: the next cursor is at most the highest height seen, and every
/// height seen is at most the cursor plus the buffer. Without any mined
/// transaction there is no next cursor.
pub proof fn lemma_sync_cursor_window(txs: Seq<BtcTransaction>, reorg_buffer: u32)
    ensures
        match sync_next_cursor(txs, reorg_buffer) {
            Some(OnchainSyncCursor::BlockHeight(c)) => (exists|i: int|
                0 <= i < txs.len() && (#[trigger] txs[i]).block_height is Some && c <= txs[i].block_height->0)
                && forall|i: int|
                0 <= i < txs.len() && (#[trigger] txs[i]).block_height is Some ==> txs[i].block_height->0
                    <= c + reorg_buffer,
            Some(_) => false,
            None => forall|i: int| 0 <= i < txs.len() ==> (#[trigger] txs[i]).block_height is None,
        },
{
    lemma_max_height(txs, txs.len() as int);
}


/// Messages of an error and its sources, joined by `: `.
pub open spec fn joined_messages(parts: Seq<Seq<char>>) -> Seq<char>
    decreases parts.len(),
{
    if parts.len() == 0 {
        Seq::empty()
    } else if parts.len() == 1 {
        parts[0]
    } else {
        joined_messages(parts.drop_last()) + ": "@ + parts.last()
    }
}

/// A transport error as the client reports it: its message followed by each
/// of its sources' messages, separated by `: `.
pub fn format_transport_error(messages: &Vec<String>) -> (r: String)
    ensures
        r@ == joined_messages(messages@.map_values(|m: String| m@)),
{
    let mut out = String::new();
    let mut i: usize = 0;
    while i < messages.len()
        invariant
            i <= messages@.len(),
            out@ == joined_messages(messages@.subrange(0, i as int).map_values(|m: String| m@)),
        decreases messages@.len() - i,
    {
        let ghost prev = messages@.subrange(0, i as int).map_values(|m: String| m@);
        let ghost next = messages@.subrange(0, i + 1).map_values(|m: String| m@);
        assert(next.drop_last() =~= prev);
        assert(next.last() == messages@[i as int]@);
        if i > 0 {
            out.append(": ");
        }
        out.append(messages[i].as_str());
        proof {
            if i == 0 {
                assert(next.len() == 1);
                assert(out@ =~= next[0]);
            } else {
                assert(out@ =~= joined_messages(prev) + ": "@ + next.last());
            }
        }
        i = i + 1;
    }
    assert(messages@.subrange(0, messages@.len() as int) =~= messages@);
    out
}

} // verus!
