//! Core Lightning REST API: request and response shapes, and the verified
//! mapping of responses onto the wallet's model.
use vstd::prelude::*;

use crate::domain::{
    BitcoinError, BtcAddressType, BtcNetwork, BtcOutput, BtcOutputStatus, BtcPreparedTransaction,
    BtcTransaction, BtcTransactionOutput, Invoice, address_type_name, InvoiceStatus, Ledger, LnPayment, OnchainSyncBatch,
    OnchainSyncCursor, OnchainTransaction, OnchainWithdrawalEvent, Payment, PaymentStatus,
};
use crate::bolt11::{bolt11_decodes, bolt11_fields_of, bolt11_fields_wf, invoice_from_bolt11, invoice_of_bolt11, Bolt11Fields};
use crate::chain::{base64_standard_decode, psbt_fee_sat, psbt_fee_of, address_from_script, chain_network, chain_network_of, script_address, outpoint_parse, outpoint_string, outpoint_text, parse_outpoint, sha256, sha256_digest};
use crate::text::{hex_bytes, hex_decode, hex_encode, hex_lower, is_hex_text, opt_text, str_eq};
use crate::time::{at_secs, max_utc_secs, min_utc_secs, utc_at_secs, utc_now, UtcTime};

verus! {

/// `invoice` request.
#[derive(Clone, Debug, PartialEq, Eq)]
pub struct InvoiceRequest {
    pub description: String,
    pub label: String,
    pub expiry: u64,
    pub amount_msat: u64,
    pub deschashonly: Option<bool>,
}

/// `invoice` response.
#[derive(Clone, Debug, PartialEq, Eq)]
pub struct InvoiceResponse {
    pub bolt11: String,
}

/// `xpay` request.
#[derive(Clone, Debug, PartialEq, Eq)]
pub struct XpayRequest {
    pub invstring: String,
    pub amount_msat: Option<u64>,
    pub maxfee: Option<u64>,
    pub retry_for: Option<u32>,
    pub label: Option<String>,
}

/// `xpay` response: the preimage (hex), the amount delivered to the payee and
/// the amount sent including routing fees.
#[derive(Clone, Debug, PartialEq, Eq)]
pub struct XpayResponse {
    pub payment_preimage: String,
    pub amount_msat: u64,
    pub amount_sent_msat: u64,
}

/// `listinvoices` request.
#[derive(Clone, Debug, PartialEq, Eq)]
pub struct ListInvoicesRequest {
    pub payment_hash: Option<String>,
}

/// `listinvoices` response.
#[derive(Clone, Debug, PartialEq, Eq)]
pub struct ListInvoicesResponse {
    pub invoices: Vec<ListInvoicesInvoice>,
}

/// `delinvoice` request.
#[derive(Clone, Debug, PartialEq, Eq)]
pub struct DelInvoiceRequest {
    pub label: String,
    pub status: String,
    pub desconly: Option<bool>,
}

/// `delinvoice` response.
#[derive(Clone, Debug, PartialEq, Eq)]
pub struct DelInvoiceResponse {}

/// `listtransactions` request.
#[derive(Clone, Debug, PartialEq, Eq)]
pub struct ListTransactionsRequest {}

/// `listtransactions` response.
#[derive(Clone, Debug, PartialEq, Eq)]
pub struct ListTransactionsResponse {
    pub transactions: Vec<ListTransactionsTransaction>,
}

/// A transaction of `listtransactions`.
#[derive(Clone, Debug, PartialEq, Eq)]
pub struct ListTransactionsTransaction {
    pub hash: String,
    pub blockheight: u32,
    pub outputs: Vec<ListTransactionsOutput>,
}

/// An output of a `listtransactions` transaction.
#[derive(Clone, Debug, PartialEq, Eq)]
pub struct ListTransactionsOutput {
    pub index: u32,
    pub amount_msat: u64,
    /// The output script, as hex.
    pub script_pub_key: String,
}

/// `listchainmoves` request.
#[derive(Clone, Debug, PartialEq, Eq)]
pub struct ListChainMovesRequest {
    pub index: Option<String>,
    pub start: Option<u64>,
    pub limit: Option<u64>,
}

/// `listchainmoves` response.
#[derive(Clone, Debug, PartialEq, Eq)]
pub struct ListChainMovesResponse {
    pub chainmoves: Vec<ListChainMove>,
}

/// One chain movement of `listchainmoves`.
#[derive(Clone, Debug, PartialEq, Eq)]
pub struct ListChainMove {
    pub created_index: u64,
    pub primary_tag: String,
    pub account_id: String,
    pub utxo: String,
    pub spending_txid: Option<String>,
    pub blockheight: Option<u32>,
}

/// `listpays` request.
#[derive(Clone, Debug, PartialEq, Eq)]
pub struct ListPaysRequest {
    pub payment_hash: Option<String>,
}

/// `listpays` response.
#[derive(Clone, Debug, PartialEq, Eq)]
pub struct ListPaysResponse {
    pub pays: Vec<ListPaysPayment>,
}

/// One payment of `listpays`.
#[derive(Clone, Debug, PartialEq, Eq)]
pub struct ListPaysPayment {
    pub status: String,
    pub payment_hash: String,
    pub preimage: Option<String>,
    pub amount_msat: Option<u64>,
    pub amount_sent_msat: Option<u64>,
    pub created_at: Option<u64>,
    pub completed_at: Option<u64>,
}

/// `listfunds` request.
#[derive(Clone, Debug, PartialEq, Eq)]
pub struct ListFundsRequest {
    pub spent: Option<bool>,
}

/// `listfunds` response.
#[derive(Clone, Debug, PartialEq, Eq)]
pub struct ListFundsResponse {
    pub outputs: Vec<ListFundsOutput>,
}

/// One wallet output of `listfunds`.
#[derive(Clone, Debug, PartialEq, Eq)]
pub struct ListFundsOutput {
    pub txid: String,
    pub output: u32,
    pub amount_msat: u64,
    pub address: Option<String>,
    pub status: String,
    pub blockheight: Option<u32>,
}

/// `getinfo` request.
#[derive(Clone, Debug, PartialEq, Eq)]
pub struct GetinfoRequest {}

/// `getinfo` response.
#[derive(Clone, Debug, PartialEq, Eq)]
pub struct GetinfoResponse {
    pub id: String,
    pub network: String,
}

/// `getroutes` request.
#[derive(Clone, Debug, PartialEq, Eq)]
pub struct GetRoutesRequest {
    pub source: String,
    pub destination: String,
    pub amount_msat: u64,
    pub layers: Vec<String>,
    pub maxfee_msat: u64,
    pub final_cltv: u32,
    pub maxparts: u32,
}

/// `getroutes` response.
#[derive(Clone, Debug, PartialEq, Eq)]
pub struct GetRoutesResponse {
    pub routes: Vec<GetRoutesRoute>,
}

/// One route of `getroutes`.
#[derive(Clone, Debug, PartialEq, Eq)]
pub struct GetRoutesRoute {
    pub amount_msat: u64,
    pub path: Vec<GetRoutesPath>,
}

/// One hop of a `getroutes` route.
#[derive(Clone, Debug, PartialEq, Eq)]
pub struct GetRoutesPath {
    pub amount_in_msat: Option<u64>,
}

/// `newaddr` request.
#[derive(Clone, Debug, PartialEq, Eq)]
pub struct NewAddrRequest {
    pub addresstype: Option<String>,
}

/// `newaddr` response.
#[derive(Clone, Debug, PartialEq, Eq)]
pub struct NewAddrResponse {
    pub bech32: Option<String>,
    pub p2tr: Option<String>,
}

/// `txprepare` request.
#[derive(Clone, Debug, PartialEq, Eq)]
pub struct TxPrepareRequest {
    pub outputs: Vec<TxPrepareOutput>,
    pub feerate: Option<u32>,
}

/// One output of a `txprepare` request, sent as `{address: amount}`.
#[derive(Clone, Debug, PartialEq, Eq)]
pub struct TxPrepareOutput {
    pub address: String,
    pub amount: u64,
}

/// `txprepare` response.
#[derive(Clone, Debug, PartialEq, Eq)]
pub struct TxPrepareResponse {
    pub psbt: String,
    pub txid: String,
}

/// `setpsbtversion` request.
#[derive(Clone, Debug, PartialEq, Eq)]
pub struct SetPsbtVersionRequest {
    pub psbt: String,
    pub version: u32,
}

/// `setpsbtversion` response.
#[derive(Clone, Debug, PartialEq, Eq)]
pub struct SetPsbtVersionResponse {
    pub psbt: String,
}

/// `txsend` request.
#[derive(Clone, Debug, PartialEq, Eq)]
pub struct TxSendRequest {
    pub txid: String,
}

/// `txsend` response.
#[derive(Clone, Debug, PartialEq, Eq)]
pub struct TxSendResponse {
    pub txid: String,
}

/// `txdiscard` request.
#[derive(Clone, Debug, PartialEq, Eq)]
pub struct TxDiscardRequest {
    pub txid: String,
}

/// `txdiscard` response.
#[derive(Clone, Debug, PartialEq, Eq)]
pub struct TxDiscardResponse {
    pub txid: String,
}

/// One invoice of `listinvoices`.
#[derive(Clone, Debug, PartialEq, Eq)]
pub struct ListInvoicesInvoice {
    pub bolt11: Option<String>,
    pub status: String,
    pub paid_at: Option<u64>,
    pub amount_received_msat: Option<u64>,
}

/// Error body of the REST API.
#[derive(Clone, Debug, PartialEq, Eq)]
pub struct ErrorResponse {
    pub message: String,
}

/// `a - b`, or zero when `b` exceeds `a` (`u64::saturating_sub`).
pub open spec fn sat_sub(a: u64, b: u64) -> u64 {
    if a >= b { (a - b) as u64 } else { 0 }
}

/// Whether a whole second lies in the range of UTC instants.
pub open spec fn secs_in_range(s: int) -> bool {
    min_utc_secs() <= s <= max_utc_secs()
}

/// The instant a `listpays` entry was completed at, or created at when not
/// completed; none when neither is known or the second is out of range.
pub open spec fn pay_time(pay: ListPaysPayment) -> Option<UtcTime> {
    let t = match pay.completed_at {
        Some(c) => Some(c),
        None => pay.created_at,
    };
    match t {
        Some(s) => if secs_in_range((s as i64) as int) {
            Some(at_secs((s as i64) as int))
        } else {
            None
        },
        None => None,
    }
}

/// Whether a `listpays` entry is a finished payment of the given hash.
pub open spec fn pay_is_final_for(pay: ListPaysPayment, hash: Seq<char>) -> bool {
    (pay.status@ == "complete"@ || pay.status@ == "failed"@) && pay.payment_hash@ == hash
}

/// The wallet payment a finished `listpays` entry stands for: settled when
/// complete and failed otherwise, the delivered amount as its amount and what
/// was sent beyond it as its fee, so that amount and fee add up to the amount
/// sent.
pub open spec fn payment_of_pay(pay: ListPaysPayment, hash: Seq<char>, p: Payment) -> bool {
    let amount = match pay.amount_msat {
        Some(a) => a,
        None => 0u64,
    };
    let sent = match pay.amount_sent_msat {
        Some(a) => a,
        None => amount,
    };
    &&& p.ledger == Ledger::Lightning
    &&& p.status == (if pay.status@ == "complete"@ {
        PaymentStatus::Settled
    } else {
        PaymentStatus::Failed
    })
    &&& p.amount_msat == amount
    &&& p.fee_msat == Some(sat_sub(sent, amount))
    &&& p.payment_time == pay_time(pay)
    &&& opt_text(p.error) == (if pay.status@ == "failed"@ {
        Some("Payment failed"@)
    } else {
        None
    })
    &&& p.description is None
    &&& p.lightning matches Some(l) && l.payment_hash@ == hash && opt_text(l.payment_preimage)
        == opt_text(pay.preimage) && l.ln_address is None && l.metadata is None
}

/// A finished `listpays` payment debits exactly what was sent: when the
/// amount sent (the delivered amount where the node reports none) covers the
/// delivered amount, the recorded amount plus the recorded fee is the amount
/// sent, so the routing fee is counted once.
pub proof fn lemma_pay_debit_is_amount_sent(pay: ListPaysPayment, hash: Seq<char>, p: Payment)
    requires
        payment_of_pay(pay, hash, p),
        pay.amount_sent_msat matches Some(s) ==> s >= match pay.amount_msat {
            Some(a) => a,
            None => 0u64,
        },
    ensures
        p.amount_msat + p.fee_msat->0 == match pay.amount_sent_msat {
            Some(s) => s,
            None => p.amount_msat,
        },
{
}

/// A finished `listpays` entry keeps its outcome: settled exactly when
/// complete, failed (with an error) exactly when failed, for the looked-up
/// hash.
pub proof fn lemma_pay_keeps_outcome(pay: ListPaysPayment, hash: Seq<char>, p: Payment)
    requires
        pay_is_final_for(pay, hash),
        payment_of_pay(pay, hash, p),
    ensures
        p.status == PaymentStatus::Settled <==> pay.status@ == "complete"@,
        p.status == PaymentStatus::Failed <==> pay.status@ == "failed"@,
        p.error is Some <==> pay.status@ == "failed"@,
        p.lightning matches Some(l) && l.payment_hash@ == hash,
{
    reveal_strlit("complete");
    reveal_strlit("failed");
    assert("complete"@[0] != "failed"@[0]);
}

/// A copy of an optional string with the same text.
pub fn clone_opt(o: &Option<String>) -> (r: Option<String>)
    ensures
        opt_text(r) == opt_text(*o),
{
    match o {
        Some(s) => Some(s.clone()),
        None => None,
    }
}

/// The wallet payment for one finished `listpays` entry.
pub fn payment_from_pay(pay: &ListPaysPayment, payment_hash: &str) -> (r: Payment)
    requires
        pay.status@ == "complete"@ || pay.status@ == "failed"@,
    ensures
        payment_of_pay(*pay, payment_hash@, r),
{
    let amount_msat = match pay.amount_msat {
        Some(a) => a,
        None => 0,
    };
    let amount_sent_msat = match pay.amount_sent_msat {
        Some(a) => a,
        None => amount_msat,
    };
    let t = match pay.completed_at {
        Some(c) => Some(c),
        None => pay.created_at,
    };
    let payment_time = match t {
        Some(s) => utc_at_secs(s as i64),
        None => None,
    };
    let complete = str_eq(pay.status.as_str(), "complete");
    let failed = str_eq(pay.status.as_str(), "failed");
    Payment {
        ledger: Ledger::Lightning,
        status: if complete { PaymentStatus::Settled } else { PaymentStatus::Failed },
        amount_msat,
        fee_msat: Some(amount_sent_msat.saturating_sub(amount_msat)),
        payment_time,
        error: if failed { Some("Payment failed".to_string()) } else { None },
        description: None,
        lightning: Some(
            LnPayment {
                ln_address: None,
                payment_hash: payment_hash.to_string(),
                payment_preimage: clone_opt(&pay.preimage),
                metadata: None,
            },
        ),
    }
}

/// The payment `payment_by_hash` reports from a `listpays` response: the first
/// finished (complete or failed) entry of the hash, mapped by
/// `payment_of_pay`; none when there is no such entry.
pub fn payment_from_pays(pays: &Vec<ListPaysPayment>, payment_hash: &str) -> (r: Option<Payment>)
    ensures
        r is None <==> forall|i: int|
            0 <= i < pays@.len() ==> !pay_is_final_for(#[trigger] pays@[i], payment_hash@),
        r matches Some(p) ==> exists|i: int|
            0 <= i < pays@.len() && pay_is_final_for(#[trigger] pays@[i], payment_hash@) && (
            forall|j: int| 0 <= j < i ==> !pay_is_final_for(#[trigger] pays@[j], payment_hash@))
                && payment_of_pay(pays@[i], payment_hash@, p),
{
    let mut i: usize = 0;
    while i < pays.len()
        invariant
            i <= pays@.len(),
            forall|j: int| 0 <= j < i ==> !pay_is_final_for(#[trigger] pays@[j], payment_hash@),
        decreases pays@.len() - i,
    {
        let pay = &pays[i];
        let finished = str_eq(pay.status.as_str(), "complete") || str_eq(pay.status.as_str(), "failed");
        if finished && str_eq(pay.payment_hash.as_str(), payment_hash) {
            let p = payment_from_pay(pay, payment_hash);
            assert(pay_is_final_for(pays@[i as int], payment_hash@));
            return Some(p);
        }
        i = i + 1;
    }
    None
}

} // verus!

verus! {

/// The preimage bytes the wallet hashes for an `xpay` result: the decoded
/// hex, or no bytes when the text is not hex.
pub open spec fn xpay_preimage_bytes(x: XpayResponse) -> Seq<u8> {
    if is_hex_text(x.payment_preimage@) {
        hex_bytes(x.payment_preimage@)
    } else {
        Seq::empty()
    }
}

/// The wallet payment an `xpay` result stands for at instant `now`: the
/// delivered amount as amount, the routing fee (amount sent minus delivered)
/// as fee, and the payment hash as the SHA-256 of the preimage.
pub open spec fn payment_of_xpay(x: XpayResponse, now: UtcTime, p: Payment) -> bool {
    &&& p.ledger == Ledger::Lightning
    &&& p.status == PaymentStatus::Pending
    &&& p.amount_msat == x.amount_msat
    &&& p.fee_msat == Some(sat_sub(x.amount_sent_msat, x.amount_msat))
    &&& p.payment_time == Some(now)
    &&& p.error is None
    &&& p.description is None
    &&& p.lightning matches Some(l) && l.payment_hash@ == hex_lower(
        sha256_digest(xpay_preimage_bytes(x)),
    ) && opt_text(l.payment_preimage) == Some(x.payment_preimage@) && l.ln_address is None
        && l.metadata is None
}

impl XpayResponse {
    /// The wallet payment for this `xpay` result, stamped with `now` (xpay
    /// reports no completion time).
    pub fn payment_at(self, now: UtcTime) -> (r: Payment)
        ensures
            payment_of_xpay(self, now, r),
    {
        let preimage_bytes = match hex_decode(self.payment_preimage.as_str()) {
            Some(b) => b,
            None => Vec::new(),
        };
        let digest = sha256(preimage_bytes.as_slice());
        let payment_hash = hex_encode(digest.as_slice());
        Payment {
            ledger: Ledger::Lightning,
            status: PaymentStatus::Pending,
            amount_msat: self.amount_msat,
            fee_msat: Some(self.amount_sent_msat.saturating_sub(self.amount_msat)),
            payment_time: Some(now),
            error: None,
            description: None,
            lightning: Some(
                LnPayment {
                    ln_address: None,
                    payment_hash,
                    payment_preimage: Some(self.payment_preimage),
                    metadata: None,
                },
            ),
        }
    }

    /// The wallet payment for this `xpay` result, stamped with the current time.
    pub fn into_payment(self) -> (r: Payment)
        ensures
            exists|now: UtcTime| #[trigger] payment_of_xpay(self, now, r),
    {
        let now = utc_now();
        let p = self.payment_at(now);
        assert(payment_of_xpay(self, now, p));
        p
    }
}

/// An `xpay` payment debits exactly what was sent. When the amount sent
/// covers the delivered amount, the recorded amount plus the recorded fee is
/// the amount sent, so the routing fee is never charged twice.
pub proof fn lemma_xpay_debit_is_amount_sent(x: XpayResponse, now: UtcTime, p: Payment)
    requires
        payment_of_xpay(x, now, p),
        x.amount_sent_msat >= x.amount_msat,
    ensures
        p.amount_msat + p.fee_msat->0 == x.amount_sent_msat,
{
}

/// An invoice of `listinvoices` after its node status is applied to the
/// invoice decoded from its BOLT 11 text: `paid` settles it at `paid_at` with
/// the amount received, `unpaid` keeps it pending, `expired` expires it, and any
/// other status leaves it as decoded.
pub open spec fn listinvoice_status_applied(
    base: Invoice,
    status: Seq<char>,
    paid_at: Option<u64>,
    amount_received_msat: Option<u64>,
    r: Invoice,
) -> bool {
    if status == "paid"@ {
        r == Invoice {
            status: InvoiceStatus::Settled,
            payment_time: Some(at_secs((paid_at->0 as i64) as int)),
            amount_received_msat,
            ..base
        }
    } else if status == "unpaid"@ {
        r == Invoice { status: InvoiceStatus::Pending, ..base }
    } else if status == "expired"@ {
        r == Invoice { status: InvoiceStatus::Expired, ..base }
    } else {
        r == base
    }
}

/// A `listinvoices` status decides the invoice's status: `paid` settles it
/// at a payment time, `unpaid` keeps it pending, `expired` expires it, and
/// any other status leaves the decoded status; everything else about the
/// invoice (its amount, description, creation time and Lightning part) stays
/// as decoded.
pub proof fn lemma_listinvoice_status_decides(
    base: Invoice,
    status: Seq<char>,
    paid_at: Option<u64>,
    amount_received_msat: Option<u64>,
    r: Invoice,
)
    requires
        listinvoice_status_applied(base, status, paid_at, amount_received_msat, r),
    ensures
        status == "paid"@ ==> r.status == InvoiceStatus::Settled && r.payment_time is Some
            && r.amount_received_msat == amount_received_msat,
        status == "unpaid"@ ==> r.status == InvoiceStatus::Pending,
        status == "expired"@ ==> r.status == InvoiceStatus::Expired,
        status != "paid"@ && status != "unpaid"@ && status != "expired"@ ==> r.status == base.status,
        status != "paid"@ ==> r.payment_time == base.payment_time && r.amount_received_msat
            == base.amount_received_msat,
        r.ledger == base.ledger && r.currency == base.currency && r.amount_msat == base.amount_msat
            && r.description == base.description && r.timestamp == base.timestamp && r.ln_invoice
            == base.ln_invoice,
{
    reveal_strlit("paid");
    reveal_strlit("unpaid");
    reveal_strlit("expired");
    assert("unpaid"@[0] != "paid"@[0]);
    assert("expired"@[0] != "paid"@[0]);
    assert("expired"@[0] != "unpaid"@[0]);
}

/// Whether the node status can be applied: a paid invoice needs a payment
/// second in the range of UTC instants.
pub open spec fn listinvoice_status_applicable(status: Seq<char>, paid_at: Option<u64>) -> bool {
    status == "paid"@ ==> (paid_at matches Some(t) && secs_in_range((t as i64) as int))
}

/// Applies a `listinvoices` status to a decoded invoice; fails where a paid
/// invoice carries no usable payment time.
pub fn apply_listinvoice_status(
    base: Invoice,
    status: &str,
    paid_at: Option<u64>,
    amount_received_msat: Option<u64>,
) -> (r: Result<Invoice, String>)
    ensures
        r is Ok <==> listinvoice_status_applicable(status@, paid_at),
        r matches Ok(inv) ==> listinvoice_status_applied(
            base,
            status@,
            paid_at,
            amount_received_msat,
            inv,
        ),
{
    if str_eq(status, "paid") {
        let t = match paid_at {
            Some(t) => t,
            None => return Err("paid invoice without payment time".to_string()),
        };
        match utc_at_secs(t as i64) {
            Some(time) => Ok(
                Invoice {
                    status: InvoiceStatus::Settled,
                    payment_time: Some(time),
                    amount_received_msat,
                    ..base
                },
            ),
            None => Err("payment time out of range".to_string()),
        }
    } else if str_eq(status, "unpaid") {
        Ok(Invoice { status: InvoiceStatus::Pending, ..base })
    } else if str_eq(status, "expired") {
        Ok(Invoice { status: InvoiceStatus::Expired, ..base })
    } else {
        Ok(base)
    }
}

impl ListInvoicesInvoice {
    /// The wallet invoice for this entry: its BOLT 11 text decoded, then its
    /// node status applied. Fails where the entry has no BOLT 11 text, where the
    /// text does not decode, and where a paid entry has no usable payment time.
    pub fn into_invoice(self) -> (r: Result<Invoice, String>)
        ensures
            r is Ok <==> (self.bolt11 matches Some(b) && bolt11_decodes(b@)
                && listinvoice_status_applicable(self.status@, self.paid_at)),
            self.bolt11 is None ==> (r matches Err(e) && e@ == "invoice without bolt11"@),
            r matches Ok(inv) ==> (self.bolt11 matches Some(b) && exists|f: Bolt11Fields, base: Invoice|
                bolt11_fields_of(f, b@) && bolt11_fields_wf(f) && #[trigger] invoice_of_bolt11(f, base)
                    && #[trigger] listinvoice_status_applied(
                    base,
                    self.status@,
                    self.paid_at,
                    self.amount_received_msat,
                    inv,
                )),
    {
        let bolt11 = match &self.bolt11 {
            Some(b) => b,
            None => return Err("invoice without bolt11".to_string()),
        };
        let base = match invoice_from_bolt11(bolt11.as_str()) {
            Ok(inv) => inv,
            Err(e) => return Err(e),
        };
        let r = apply_listinvoice_status(
            base,
            self.status.as_str(),
            self.paid_at,
            self.amount_received_msat,
        );
        r
    }
}

} // verus!

verus! {

/// Whether a chain movement credits the node's own wallet.
pub open spec fn is_wallet_deposit(m: ListChainMove) -> bool {
    m.primary_tag@ == "deposit"@ && m.account_id@ == "wallet"@
}

/// Whether a chain movement debits the node's own wallet.
pub open spec fn is_wallet_withdrawal(m: ListChainMove) -> bool {
    m.primary_tag@ == "withdrawal"@ && m.account_id@ == "wallet"@
}

/// Status of a `listfunds` output as the synchronisation records it: only
/// `confirmed` counts as confirmed.
pub open spec fn synced_output_status(s: Seq<char>) -> BtcOutputStatus {
    if s == "confirmed"@ {
        BtcOutputStatus::Confirmed
    } else {
        BtcOutputStatus::Unconfirmed
    }
}

/// The synchronisation counts a `listfunds` output as confirmed exactly when
/// the node says `confirmed`, and as unconfirmed otherwise.
pub proof fn lemma_synced_status_confirmed_only_when_confirmed(s: Seq<char>)
    ensures
        synced_output_status(s) == BtcOutputStatus::Confirmed <==> s == "confirmed"@,
        s != "confirmed"@ ==> synced_output_status(s) == BtcOutputStatus::Unconfirmed,
{
}

/// The `txid:index` key of a `listfunds` output.
pub open spec fn funds_key(o: ListFundsOutput) -> Seq<char> {
    outpoint_text(o.txid@, o.output)
}

/// Index of the last `listfunds` output with the key, or -1 (later outputs
/// with the same key replace earlier ones).
pub open spec fn last_funds_index(funds: Seq<ListFundsOutput>, key: Seq<char>) -> int
    decreases funds.len(),
{
    if funds.len() == 0 {
        -1
    } else if funds_key(funds.last()) == key {
        funds.len() - 1
    } else {
        last_funds_index(funds.drop_last(), key)
    }
}

/// The wallet output a `listfunds` output stands for, with `status`.
pub open spec fn output_of_funds(o: ListFundsOutput, status: BtcOutputStatus, b: BtcOutput) -> bool {
    &&& b.txid@ == o.txid@
    &&& b.output_index == o.output
    &&& b.address@ == match o.address {
        Some(a) => a@,
        None => Seq::<char>::empty(),
    }
    &&& b.amount_sat == o.amount_msat / 1000
    &&& b.block_height == o.blockheight
    &&& b.outpoint@ == funds_key(o)
    &&& b.status == status
}

/// What a synchronisation reports for one movement, by reference to the funds.
pub enum SyncEventModel {
    /// A deposit of the `listfunds` output at this index.
    Deposit(int),
    /// A withdrawal in this spending transaction at this height.
    Withdrawal(Seq<char>, Option<u32>),
}

/// What one chain movement contributes to a synchronisation: a wallet deposit
/// whose outpoint is among the funds gives that output, a wallet withdrawal
/// with a spending transaction gives it, anything else nothing.
pub open spec fn movement_events(m: ListChainMove, funds: Seq<ListFundsOutput>) -> Seq<SyncEventModel> {
    if is_wallet_deposit(m) {
        match outpoint_parse(m.utxo@) {
            Some((t, v)) => {
                let idx = last_funds_index(funds, outpoint_text(t, v));
                if idx >= 0 {
                    seq![SyncEventModel::Deposit(idx)]
                } else {
                    Seq::empty()
                }
            },
            None => Seq::empty(),
        }
    } else if is_wallet_withdrawal(m) {
        match m.spending_txid {
            Some(t) => seq![SyncEventModel::Withdrawal(t@, m.blockheight)],
            None => Seq::empty(),
        }
    } else {
        Seq::empty()
    }
}

/// The index that `last_funds_index` finds holds an output with the key.
pub proof fn lemma_last_funds_index(funds: Seq<ListFundsOutput>, key: Seq<char>)
    ensures
        -1 <= last_funds_index(funds, key) < funds.len(),
        last_funds_index(funds, key) >= 0 ==> funds_key(funds[last_funds_index(funds, key)]) == key,
        last_funds_index(funds, key) == -1 ==> forall|i: int| 0 <= i < funds.len() ==> funds_key(#[trigger] funds[i]) != key,
    decreases funds.len(),
{
    if funds.len() > 0 {
        lemma_last_funds_index(funds.drop_last(), key);
        assert forall|i: int| 0 <= i < funds.len() - 1 implies #[trigger] funds[i] == funds.drop_last()[i] by {}
    }
}

/// A chain movement gives at most one event, in its own direction: a
/// deposit only for a wallet deposit, of the funds output at the movement's
/// outpoint; a withdrawal only for a wallet withdrawal, of its spending
/// transaction at its height.
pub proof fn lemma_movement_event_follows_direction(m: ListChainMove, funds: Seq<ListFundsOutput>)
    ensures
        movement_events(m, funds).len() <= 1,
        movement_events(m, funds).len() == 1 ==> match movement_events(m, funds)[0] {
            SyncEventModel::Deposit(i) => is_wallet_deposit(m) && 0 <= i < funds.len() && (outpoint_parse(m.utxo@) matches Some(
                (t, v),
            ) && funds_key(funds[i]) == outpoint_text(t, v)),
            SyncEventModel::Withdrawal(t, h) => is_wallet_withdrawal(m) && (m.spending_txid matches Some(s)
                && s@ == t) && h == m.blockheight,
        },
        !is_wallet_deposit(m) && !is_wallet_withdrawal(m) ==> movement_events(m, funds).len() == 0,
{
    reveal_strlit("deposit");
    reveal_strlit("withdrawal");
    assert("deposit"@[0] != "withdrawal"@[0]);
    if is_wallet_deposit(m) {
        if let Some((t, v)) = outpoint_parse(m.utxo@) {
            lemma_last_funds_index(funds, outpoint_text(t, v));
        }
    }
}

/// The events of a list of chain movements, in order.
pub open spec fn movements_events(moves: Seq<ListChainMove>, funds: Seq<ListFundsOutput>) -> Seq<
    SyncEventModel,
>
    decreases moves.len(),
{
    if moves.len() == 0 {
        Seq::empty()
    } else {
        movements_events(moves.drop_last(), funds) + movement_events(moves.last(), funds)
    }
}

/// The largest creation index among the movements and `start`.
pub open spec fn max_created_index(moves: Seq<ListChainMove>, start: u64) -> u64
    decreases moves.len(),
{
    if moves.len() == 0 {
        start
    } else {
        let m = max_created_index(moves.drop_last(), start);
        if moves.last().created_index > m {
            moves.last().created_index
        } else {
            m
        }
    }
}

/// Whether a wallet deposit among the movements has an outpoint that does not parse.
pub open spec fn sync_rejects(moves: Seq<ListChainMove>) -> bool {
    exists|i: int|
        0 <= i < moves.len() && is_wallet_deposit(#[trigger] moves[i]) && outpoint_parse(
            moves[i].utxo@,
        ) is None
}

/// Whether an exec event is what the model event describes.
pub open spec fn event_is(e: OnchainTransaction, m: SyncEventModel, funds: Seq<ListFundsOutput>) -> bool {
    match m {
        SyncEventModel::Deposit(i) => {
            &&& 0 <= i < funds.len()
            &&& e matches OnchainTransaction::Deposit(b)
            &&& output_of_funds(funds[i], synced_output_status(funds[i].status@), b)
        },
        SyncEventModel::Withdrawal(t, h) => {
            &&& e matches OnchainTransaction::Withdrawal(w)
            &&& w.txid@ == t
            &&& w.block_height == h
        },
    }
}

/// Where the next synchronisation resumes: one past the largest creation index
/// seen, when it grew past `start`; otherwise nowhere new.
pub open spec fn next_sync_cursor(moves: Seq<ListChainMove>, start: u64) -> Option<OnchainSyncCursor> {
    let m = max_created_index(moves, start);
    if m > start {
        Some(
            OnchainSyncCursor::CreatedIndex(
                if m < u64::MAX {
                    (m + 1) as u64
                } else {
                    u64::MAX
                },
            ),
        )
    } else {
        None
    }
}

/// The largest creation index bounds every movement's index and `start`,
/// and is either `start` or one of them.
pub proof fn lemma_max_created_index(moves: Seq<ListChainMove>, start: u64)
    ensures
        max_created_index(moves, start) >= start,
        forall|i: int| 0 <= i < moves.len() ==> (#[trigger] moves[i]).created_index <= max_created_index(
            moves,
            start,
        ),
        max_created_index(moves, start) == start || exists|i: int|
            0 <= i < moves.len() && (#[trigger] moves[i]).created_index == max_created_index(moves, start),
    decreases moves.len(),
{
    if moves.len() > 0 {
        let prev = moves.drop_last();
        lemma_max_created_index(prev, start);
        assert forall|i: int| 0 <= i < moves.len() implies (#[trigger] moves[i]).created_index
            <= max_created_index(moves, start) by {
            if i < moves.len() - 1 {
                assert(moves[i] == prev[i]);
            }
        }
        if max_created_index(prev, start) != start && max_created_index(moves, start) == max_created_index(
            prev,
            start,
        ) {
            let w = choose|i: int| 0 <= i < prev.len() && (#[trigger] prev[i]).created_index == max_created_index(prev, start);
            assert(moves[w] == prev[w]);
        }
        if max_created_index(moves, start) != max_created_index(prev, start) {
            assert(moves[moves.len() - 1].created_index == max_created_index(moves, start));
        }
    }
}

/// A Core Lightning synchronisation resumes past every movement it read
/// and never behind where it started: with a next cursor, it lies above the
/// start and above every movement's creation index (but for a movement at the
/// very last index, where it saturates); without one, no movement was newer
/// than the start.
pub proof fn lemma_cln_sync_cursor_covers_movements(moves: Seq<ListChainMove>, start: u64)
    ensures
        match next_sync_cursor(moves, start) {
            Some(OnchainSyncCursor::CreatedIndex(c)) => c > start && forall|i: int|
                0 <= i < moves.len() ==> (#[trigger] moves[i]).created_index < c || c == u64::MAX,
            Some(_) => false,
            None => forall|i: int| 0 <= i < moves.len() ==> (#[trigger] moves[i]).created_index <= start,
        },
{
    lemma_max_created_index(moves, start);
}

/// Whether the `listfunds` outputs are needed: some movement is a wallet deposit.
pub fn sync_needs_funds(moves: &Vec<ListChainMove>) -> (r: bool)
    ensures
        r == exists|i: int| 0 <= i < moves@.len() && is_wallet_deposit(#[trigger] moves@[i]),
{
    let mut i: usize = 0;
    while i < moves.len()
        invariant
            i <= moves@.len(),
            forall|j: int| 0 <= j < i ==> !is_wallet_deposit(#[trigger] moves@[j]),
        decreases moves@.len() - i,
    {
        if str_eq(moves[i].primary_tag.as_str(), "deposit") && str_eq(
            moves[i].account_id.as_str(),
            "wallet",
        ) {
            assert(is_wallet_deposit(moves@[i as int]));
            return true;
        }
        i = i + 1;
    }
    false
}

/// The wallet output for a `listfunds` output, with the given status.
pub fn output_from_funds(o: &ListFundsOutput, status: BtcOutputStatus) -> (r: BtcOutput)
    ensures
        output_of_funds(*o, status, r),
{
    BtcOutput {
        txid: o.txid.clone(),
        output_index: o.output,
        address: match &o.address {
            Some(a) => a.clone(),
            None => String::new(),
        },
        amount_sat: o.amount_msat / 1000,
        block_height: o.blockheight,
        outpoint: outpoint_string(o.txid.as_str(), o.output),
        status,
    }
}

/// The status a synchronisation records for a `listfunds` status text.
pub fn synced_status(s: &str) -> (r: BtcOutputStatus)
    ensures
        r == synced_output_status(s@),
{
    if str_eq(s, "confirmed") {
        BtcOutputStatus::Confirmed
    } else {
        BtcOutputStatus::Unconfirmed
    }
}

/// Index of the last `listfunds` output whose key is `key`.
fn find_last_funds(keys: &Vec<String>, funds: &Vec<ListFundsOutput>, key: &str) -> (r: Option<usize>)
    requires
        keys@.len() == funds@.len(),
        forall|j: int| 0 <= j < keys@.len() ==> #[trigger] keys@[j]@ == funds_key(funds@[j]),
    ensures
        match r {
            Some(i) => i as int == last_funds_index(funds@, key@) && i < funds@.len(),
            None => last_funds_index(funds@, key@) == -1,
        },
{
    let mut i: usize = keys.len();
    assert(funds@.subrange(0, i as int) =~= funds@);
    while i > 0
        invariant
            i <= keys@.len(),
            keys@.len() == funds@.len(),
            forall|j: int| 0 <= j < keys@.len() ==> #[trigger] keys@[j]@ == funds_key(funds@[j]),
            last_funds_index(funds@, key@) == last_funds_index(funds@.subrange(0, i as int), key@),
        decreases i,
    {
        let ghost prefix = funds@.subrange(0, i as int);
        assert(prefix.drop_last() =~= funds@.subrange(0, i - 1));
        assert(prefix.last() == funds@[i - 1]);
        if str_eq(keys[i - 1].as_str(), key) {
            return Some(i - 1);
        }
        i = i - 1;
    }
    assert(funds@.subrange(0, 0) =~= Seq::<ListFundsOutput>::empty());
    None
}

/// The events and next cursor of a Core Lightning on-chain synchronisation from
/// the `listchainmoves` movements after `start` and, where deposits need them,
/// the `listfunds` outputs (spent ones included). Fails with
/// `BitcoinError::Synchronize` when a wallet deposit's outpoint does not parse.
pub fn cln_sync_batch(start: u64, moves: &Vec<ListChainMove>, funds: &Vec<ListFundsOutput>) -> (r:
    Result<OnchainSyncBatch, BitcoinError>)
    ensures
        r is Err <==> sync_rejects(moves@),
        r matches Err(e) ==> e is Synchronize,
        r matches Ok(b) ==> b.next_cursor == next_sync_cursor(moves@, start) && b.events@.len()
            == movements_events(moves@, funds@).len() && forall|k: int|
            0 <= k < b.events@.len() ==> event_is(
                #[trigger] b.events@[k],
                movements_events(moves@, funds@)[k],
                funds@,
            ),
{
    let mut keys: Vec<String> = Vec::new();
    let mut j: usize = 0;
    while j < funds.len()
        invariant
            j <= funds@.len(),
            keys@.len() == j,
            forall|k: int| 0 <= k < j ==> #[trigger] keys@[k]@ == funds_key(funds@[k]),
        decreases funds@.len() - j,
    {
        keys.push(outpoint_string(funds[j].txid.as_str(), funds[j].output));
        j = j + 1;
    }
    let mut events: Vec<OnchainTransaction> = Vec::new();
    let mut max_index = start;
    let mut i: usize = 0;
    while i < moves.len()
        invariant
            i <= moves@.len(),
            keys@.len() == funds@.len(),
            forall|k: int| 0 <= k < keys@.len() ==> #[trigger] keys@[k]@ == funds_key(funds@[k]),
            !sync_rejects(moves@.subrange(0, i as int)),
            max_index == max_created_index(moves@.subrange(0, i as int), start),
            events@.len() == movements_events(moves@.subrange(0, i as int), funds@).len(),
            forall|k: int|
                0 <= k < events@.len() ==> event_is(
                    #[trigger] events@[k],
                    movements_events(moves@.subrange(0, i as int), funds@)[k],
                    funds@,
                ),
        decreases moves@.len() - i,
    {
        let ghost before = moves@.subrange(0, i as int);
        let ghost after = moves@.subrange(0, i + 1);
        assert(after.drop_last() =~= before);
        assert(after.last() == moves@[i as int]);
        let m = &moves[i];
        if m.created_index > max_index {
            max_index = m.created_index;
        }
        let ghost old_events = events@;
        let deposit = str_eq(m.primary_tag.as_str(), "deposit") && str_eq(
            m.account_id.as_str(),
            "wallet",
        );
        let withdrawal = str_eq(m.primary_tag.as_str(), "withdrawal") && str_eq(
            m.account_id.as_str(),
            "wallet",
        );
        if deposit {
            match parse_outpoint(m.utxo.as_str()) {
                Some((txid, vout)) => {
                    let key = outpoint_string(txid.as_str(), vout);
                    match find_last_funds(&keys, funds, key.as_str()) {
                        Some(idx) => {
                            let status = synced_status(funds[idx].status.as_str());
                            let out = output_from_funds(&funds[idx], status);
                            events.push(OnchainTransaction::Deposit(out));
                        },
                        None => {},
                    }
                },
                None => {
                    proof {
                        assert(is_wallet_deposit(moves@[i as int]));
                    }
                    return Err(
                        BitcoinError::Synchronize("invalid outpoint in chain movement".to_string()),
                    );
                },
            }
        } else if withdrawal {
            match &m.spending_txid {
                Some(t) => {
                    events.push(
                        OnchainTransaction::Withdrawal(
                            OnchainWithdrawalEvent { txid: t.clone(), block_height: m.blockheight },
                        ),
                    );
                },
                None => {},
            }
        }
        proof {
            assert(movements_events(after, funds@) =~= movements_events(before, funds@)
                + movement_events(moves@[i as int], funds@));
            assert forall|k: int| 0 <= k < events@.len() implies event_is(
                #[trigger] events@[k],
                movements_events(after, funds@)[k],
                funds@,
            ) by {
                if k < old_events.len() {
                    assert(events@[k] == old_events[k]);
                }
            }
            assert forall|x: int|
                0 <= x < after.len() && is_wallet_deposit(#[trigger] after[x]) implies outpoint_parse(
                after[x].utxo@,
            ) is Some by {
                if x < before.len() {
                    assert(after[x] == before[x]);
                }
            }
        }
        i = i + 1;
    }
    assert(moves@.subrange(0, moves@.len() as int) =~= moves@);
    let next_cursor = if max_index > start {
        Some(OnchainSyncCursor::CreatedIndex(max_index.saturating_add(1)))
    } else {
        None
    };
    Ok(OnchainSyncBatch { events, next_cursor })
}

} // verus!

verus! {

/// Status of a `listfunds` output as an output lookup reports it.
pub open spec fn lookup_output_status(s: Seq<char>) -> BtcOutputStatus {
    if s == "unconfirmed"@ {
        BtcOutputStatus::Unconfirmed
    } else if s == "confirmed"@ {
        BtcOutputStatus::Confirmed
    } else if s == "spent"@ {
        BtcOutputStatus::Spent
    } else if s == "immature"@ {
        BtcOutputStatus::Immature
    } else {
        BtcOutputStatus::Unconfirmed
    }
}

/// The status an output lookup records for a `listfunds` status text.
pub fn lookup_status(s: &str) -> (r: BtcOutputStatus)
    ensures
        r == lookup_output_status(s@),
{
    if str_eq(s, "unconfirmed") {
        BtcOutputStatus::Unconfirmed
    } else if str_eq(s, "confirmed") {
        BtcOutputStatus::Confirmed
    } else if str_eq(s, "spent") {
        BtcOutputStatus::Spent
    } else if str_eq(s, "immature") {
        BtcOutputStatus::Immature
    } else {
        BtcOutputStatus::Unconfirmed
    }
}

/// Whether a `listfunds` output is the one looked up: same transaction, and
/// the given index, or (without an index) the given address.
pub open spec fn funds_output_matches(
    o: ListFundsOutput,
    txid: Seq<char>,
    output_index: Option<u32>,
    address: Option<Seq<char>>,
) -> bool {
    &&& o.txid@ == txid
    &&& match output_index {
        Some(i) => o.output == i,
        None => match (address, o.address) {
            (Some(target), Some(a)) => a@ == target,
            _ => false,
        },
    }
}

/// The optional text of an optional string slice.
pub open spec fn opt_str_text(o: Option<&str>) -> Option<Seq<char>> {
    match o {
        Some(s) => Some(s@),
        None => None,
    }
}

/// The output `get_output` reports from `listfunds`: the first matching
/// output, with its `listfunds` status; none when no output matches.
pub fn cln_find_output(
    outputs: &Vec<ListFundsOutput>,
    txid: &str,
    output_index: Option<u32>,
    address: Option<&str>,
) -> (r: Option<BtcOutput>)
    ensures
        r is None <==> forall|i: int|
            0 <= i < outputs@.len() ==> !funds_output_matches(
                #[trigger] outputs@[i],
                txid@,
                output_index,
                opt_str_text(address),
            ),
        r matches Some(b) ==> exists|i: int|
            0 <= i < outputs@.len() && funds_output_matches(
                #[trigger] outputs@[i],
                txid@,
                output_index,
                opt_str_text(address),
            ) && (forall|j: int|
                0 <= j < i ==> !funds_output_matches(
                    #[trigger] outputs@[j],
                    txid@,
                    output_index,
                    opt_str_text(address),
                )) && output_of_funds(outputs@[i], lookup_output_status(outputs@[i].status@), b),
{
    let mut i: usize = 0;
    while i < outputs.len()
        invariant
            i <= outputs@.len(),
            forall|j: int|
                0 <= j < i ==> !funds_output_matches(
                    #[trigger] outputs@[j],
                    txid@,
                    output_index,
                    opt_str_text(address),
                ),
        decreases outputs@.len() - i,
    {
        let o = &outputs[i];
        let hit = if str_eq(o.txid.as_str(), txid) {
            match output_index {
                Some(index) => o.output == index,
                None => match (address, &o.address) {
                    (Some(target), Some(a)) => str_eq(a.as_str(), target),
                    _ => false,
                },
            }
        } else {
            false
        };
        if hit {
            let status = lookup_status(o.status.as_str());
            let b = output_from_funds(o, status);
            assert(funds_output_matches(outputs@[i as int], txid@, output_index, opt_str_text(address)));
            return Some(b);
        }
        i = i + 1;
    }
    None
}

/// The `addresstype` Core Lightning's `newaddr` takes for an address type:
/// `bech32` for P2WPKH and `p2tr` for P2TR; other types are refused.
pub open spec fn cln_address_type_param(t: BtcAddressType) -> Option<Seq<char>> {
    match t {
        BtcAddressType::P2wpkh => Some("bech32"@),
        BtcAddressType::P2tr => Some("p2tr"@),
        _ => None,
    }
}

/// The `newaddr` request for an address type, or `BitcoinError::AddressType`
/// naming a type Core Lightning does not issue.
pub fn cln_new_addr_request(t: BtcAddressType) -> (r: Result<NewAddrRequest, BitcoinError>)
    ensures
        match cln_address_type_param(t) {
            Some(p) => r matches Ok(req) && opt_text(req.addresstype) == Some(p),
            None => r matches Err(BitcoinError::AddressType(name)) && name@ == address_type_name(t),
        },
{
    match t {
        BtcAddressType::P2wpkh => Ok(NewAddrRequest { addresstype: Some("bech32".to_string()) }),
        BtcAddressType::P2tr => Ok(NewAddrRequest { addresstype: Some("p2tr".to_string()) }),
        _ => Err(BitcoinError::AddressType(t.name().to_string())),
    }
}

impl NewAddrResponse {
    /// The address issued: the bech32 one if present, else the taproot one;
    /// `BitcoinError::Address` when Core Lightning returned neither.
    pub fn into_address(self) -> (r: Result<String, BitcoinError>)
        ensures
            match (self.bech32, self.p2tr) {
                (Some(a), _) => r matches Ok(s) && s@ == a@,
                (None, Some(a)) => r matches Ok(s) && s@ == a@,
                (None, None) => r matches Err(e) && e is Address,
            },
    {
        match self.bech32 {
            Some(a) => Ok(a),
            None => match self.p2tr {
                Some(a) => Ok(a),
                None => Err(BitcoinError::Address("No address returned by CLN".to_string())),
            },
        }
    }
}

/// The `txprepare` request paying `amount_sat` to `address`, with the fee rate
/// given in sat/vB converted to Core Lightning's per-kilobyte unit (times 1000).
pub fn cln_tx_prepare_request(address: String, amount_sat: u64, fee_rate_sat_vb: Option<u32>) -> (r:
    TxPrepareRequest)
    requires
        fee_rate_sat_vb matches Some(rate) ==> rate * 1000 <= u32::MAX,
    ensures
        r.outputs@.len() == 1,
        r.outputs@[0].address == address,
        r.outputs@[0].amount == amount_sat,
        r.feerate == match fee_rate_sat_vb {
            Some(rate) => Some((rate * 1000) as u32),
            None => None,
        },
{
    let mut outputs = Vec::new();
    outputs.push(TxPrepareOutput { address, amount: amount_sat });
    TxPrepareRequest {
        outputs,
        feerate: match fee_rate_sat_vb {
            Some(rate) => Some(rate * 1000),
            None => None,
        },
    }
}

/// The `delinvoice` request that cancels the unpaid invoice with `label`.
pub fn cln_del_invoice_request(label: String) -> (r: DelInvoiceRequest)
    ensures
        r.label == label,
        r.status@ == "unpaid"@,
        r.desconly is None,
{
    DelInvoiceRequest { label, status: "unpaid".to_string(), desconly: None }
}

/// The prepared transaction recorded for a `txprepare` result: its id and
/// PSBT, the fee read from the version-0 copy of the PSBT, no outputs locked
/// by the wallet itself; `ParsePsbt` when that copy yields no fee.
pub fn cln_prepared_transaction(response: TxPrepareResponse, psbt_v0: &str) -> (r: Result<BtcPreparedTransaction, BitcoinError>)
    ensures
        r is Ok <==> (base64_standard_decode(psbt_v0@) matches Some(b) && psbt_fee_of(b) is Some),
        r matches Err(e) ==> e is ParsePsbt,
        r matches Ok(p) ==> p.txid == response.txid && p.psbt == response.psbt && Some(p.fee_sat)
            == psbt_fee_of(base64_standard_decode(psbt_v0@)->0) && p.raw_tx is None
            && p.locked_utxos@.len() == 0,
{
    let fee_sat = psbt_fee_sat(psbt_v0)?;
    Ok(BtcPreparedTransaction {
        txid: response.txid,
        fee_sat,
        psbt: response.psbt,
        raw_tx: None,
        locked_utxos: Vec::new(),
    })
}

/// The wallet transaction output for a `listtransactions` output: the address
/// of its script on the network, the amount in whole satoshis, not ours.
pub open spec fn tx_output_of(o: ListTransactionsOutput, network: BtcNetwork, out: BtcTransactionOutput) -> bool {
    &&& is_hex_text(o.script_pub_key@)
    &&& script_address(hex_bytes(o.script_pub_key@), chain_network_of(network)) == Some(out.address@)
    &&& out.output_index == o.index
    &&& out.amount_sat == o.amount_msat / 1000
    &&& !out.is_ours
}

/// Whether an output's script decodes to an address on the network.
pub open spec fn tx_output_resolvable(o: ListTransactionsOutput, network: BtcNetwork) -> bool {
    is_hex_text(o.script_pub_key@) && script_address(
        hex_bytes(o.script_pub_key@),
        chain_network_of(network),
    ) is Some
}

/// The wallet transaction for a `listtransactions` entry on a network: its
/// outputs resolved to addresses; fails with `BitcoinError::GetTransaction`
/// where a script is not hex or has no address. Direction is not known to
/// Core Lightning, so the transaction is recorded as incoming.
pub fn cln_transaction(t: ListTransactionsTransaction, network: BtcNetwork) -> (r: Result<
    BtcTransaction,
    BitcoinError,
>)
    ensures
        r is Ok <==> forall|i: int|
            0 <= i < t.outputs@.len() ==> tx_output_resolvable(#[trigger] t.outputs@[i], network),
        r matches Err(e) ==> e is GetTransaction,
        r matches Ok(tx) ==> tx.txid == t.hash && tx.block_height == Some(t.blockheight)
            && !tx.is_outgoing && tx.outputs@.len() == t.outputs@.len() && forall|i: int|
            0 <= i < t.outputs@.len() ==> tx_output_of(
                #[trigger] t.outputs@[i],
                network,
                tx.outputs@[i],
            ),
{
    let chain = chain_network(network);
    let mut outputs: Vec<BtcTransactionOutput> = Vec::new();
    let mut i: usize = 0;
    while i < t.outputs.len()
        invariant
            i <= t.outputs@.len(),
            chain == chain_network_of(network),
            outputs@.len() == i,
            forall|j: int| 0 <= j < i ==> tx_output_resolvable(#[trigger] t.outputs@[j], network),
            forall|j: int| 0 <= j < i ==> tx_output_of(#[trigger] t.outputs@[j], network, outputs@[j]),
        decreases t.outputs@.len() - i,
    {
        let o = &t.outputs[i];
        let script = match hex_decode(o.script_pub_key.as_str()) {
            Some(b) => b,
            None => return Err(BitcoinError::GetTransaction("invalid script hex".to_string())),
        };
        let address = match address_from_script(script, chain) {
            Ok(a) => a,
            Err(e) => return Err(BitcoinError::GetTransaction(e)),
        };
        outputs.push(
            BtcTransactionOutput {
                output_index: o.index,
                address,
                amount_sat: o.amount_msat / 1000,
                is_ours: false,
            },
        );
        i = i + 1;
    }
    Ok(
        BtcTransaction {
            txid: t.hash,
            block_height: Some(t.blockheight),
            outputs,
            is_outgoing: false,
        },
    )
}

/// The transaction of `listtransactions` with the given id, if listed.
pub fn cln_find_transaction(transactions: Vec<ListTransactionsTransaction>, txid: &str) -> (r: Option<
    ListTransactionsTransaction,
>)
    ensures
        r is None <==> forall|i: int|
            0 <= i < transactions@.len() ==> (#[trigger] transactions@[i]).hash@ != txid@,
        r matches Some(t) ==> exists|i: int|
            0 <= i < transactions@.len() && (#[trigger] transactions@[i]) == t && t.hash@ == txid@
                && forall|j: int| 0 <= j < i ==> (#[trigger] transactions@[j]).hash@ != txid@,
{
    let mut i: usize = 0;
    while i < transactions.len()
        invariant
            i <= transactions@.len(),
            forall|j: int| 0 <= j < i ==> (#[trigger] transactions@[j]).hash@ != txid@,
        decreases transactions@.len() - i,
    {
        if str_eq(transactions[i].hash.as_str(), txid) {
            let ghost all = transactions@;
            let mut rest = transactions;
            let t = rest.remove(i);
            assert(all[i as int] == t);
            return Some(t);
        }
        i = i + 1;
    }
    None
}

} // verus!
