//! BOLT 11 invoices: parsing goes to `lightning-invoice`; mapping the parsed
//! fields onto the wallet's invoice is verified here.
use std::str::FromStr;
use vstd::prelude::*;

use crate::domain::{Currency, Invoice, InvoiceStatus, LnInvoice, Ledger};
use crate::text::{hex_encode, hex_lower, opt_text};
use crate::time::{max_utc_secs, utc_add_secs, utc_timestamp_opt, UtcTime};

verus! {

#[verifier::external_type_specification]
#[verifier::external_body]
pub struct ExBolt11Invoice(lightning_invoice::Bolt11Invoice);

/// Largest timestamp a BOLT 11 invoice can carry (35 bits of seconds).
pub open spec fn max_bolt11_timestamp() -> int {
    34_359_738_367
}

/// Whether `lightning_invoice::Bolt11Invoice::from_str` accepts the text.
pub uninterp spec fn bolt11_parses(s: Seq<char>) -> bool;

/// How an invoice describes what it pays for.
#[derive(Clone, Debug, PartialEq, Eq)]
pub enum Bolt11Description {
    /// The description itself.
    Direct(String),
    /// The hex SHA-256 hash of a description given elsewhere.
    Hash(String),
}

/// `Bolt11Invoice::from_str`: succeeds exactly on the texts the crate accepts;
/// the error is kept as its message.
#[verifier::external_body]
pub(crate) fn parse_bolt11(s: &str) -> (r: Result<lightning_invoice::Bolt11Invoice, String>)
    ensures
        r is Ok <==> bolt11_parses(s@),
{
    lightning_invoice::Bolt11Invoice::from_str(s).map_err(|e| e.to_string())
}

/// What `Bolt11Invoice::to_string` gives on the invoice decoded from the text.
pub uninterp spec fn bolt11_canonical_text(s: Seq<char>) -> Seq<char>;

/// What `Bolt11Invoice::payee_pub_key` gives, as hex, on the invoice decoded
/// from the text.
pub uninterp spec fn bolt11_payee_key_of(s: Seq<char>) -> Option<Seq<char>>;

/// What `Bolt11Invoice::recover_payee_pub_key` gives, as hex, on the invoice
/// decoded from the text.
pub uninterp spec fn bolt11_recovered_key_of(s: Seq<char>) -> Seq<char>;

/// What `Bolt11Invoice::currency` gives on the invoice decoded from the text.
pub uninterp spec fn bolt11_currency_of(s: Seq<char>) -> Currency;

/// What `Bolt11Invoice::amount_milli_satoshis` gives on the invoice decoded
/// from the text.
pub uninterp spec fn bolt11_amount_of(s: Seq<char>) -> Option<u64>;

/// The whole seconds of `Bolt11Invoice::duration_since_epoch` on the invoice
/// decoded from the text.
pub uninterp spec fn bolt11_timestamp_of(s: Seq<char>) -> u64;

/// What `Bolt11Invoice::description` gives on the invoice decoded from the
/// text: whether it is a hash, and the description or the hash as hex.
pub uninterp spec fn bolt11_description_of(s: Seq<char>) -> (bool, Seq<char>);

/// What `Bolt11Invoice::payment_hash` gives, as hex, on the invoice decoded
/// from the text.
pub uninterp spec fn bolt11_payment_hash_of(s: Seq<char>) -> Seq<char>;

/// The bytes of `Bolt11Invoice::payment_secret` on the invoice decoded from
/// the text.
pub uninterp spec fn bolt11_payment_secret_of(s: Seq<char>) -> Seq<u8>;

/// What `Bolt11Invoice::min_final_cltv_expiry_delta` gives on the invoice
/// decoded from the text.
pub uninterp spec fn bolt11_cltv_delta_of(s: Seq<char>) -> u64;

/// The whole seconds of `Bolt11Invoice::expiry_time` on the invoice decoded
/// from the text.
pub uninterp spec fn bolt11_expiry_of(s: Seq<char>) -> u64;

/// A decoded BOLT 11 invoice together with the text it was decoded from. Only
/// `decode_bolt11` makes one, so the invoice is always the one that
/// `Bolt11Invoice::from_str` gives on that text; its view is the text.
pub struct DecodedBolt11 {
    inv: lightning_invoice::Bolt11Invoice,
    text: Ghost<Seq<char>>,
}

impl View for DecodedBolt11 {
    type V = Seq<char>;

    closed spec fn view(&self) -> Seq<char> {
        self.text@
    }
}

/// Decodes a BOLT 11 text; fails, with the crate's message, exactly on the
/// texts the crate refuses.
pub fn decode_bolt11(s: &str) -> (r: Result<DecodedBolt11, String>)
    ensures
        r is Ok <==> bolt11_parses(s@),
        r matches Ok(d) ==> d@ == s@,
{
    match parse_bolt11(s) {
        Ok(inv) => Ok(DecodedBolt11 { inv, text: Ghost(s@) }),
        Err(e) => Err(e),
    }
}

/// `Bolt11Invoice::to_string`: the invoice in its canonical encoding.
#[verifier::external_body]
pub(crate) fn bolt11_text(d: &DecodedBolt11) -> (r: String)
    ensures
        r@ == bolt11_canonical_text(d@),
{
    d.inv.to_string()
}

/// `Bolt11Invoice::payee_pub_key`: the payee key carried explicitly, as hex.
#[verifier::external_body]
pub(crate) fn bolt11_payee_pub_key(d: &DecodedBolt11) -> (r: Option<String>)
    ensures
        match r {
            Some(k) => bolt11_payee_key_of(d@) == Some(k@),
            None => bolt11_payee_key_of(d@) is None,
        },
{
    match d.inv.payee_pub_key() {
        Some(key) => Some(key.to_string()),
        None => None,
    }
}

/// `Bolt11Invoice::recover_payee_pub_key`: the payee key, recovered from the
/// signature when not carried explicitly, as hex.
#[verifier::external_body]
pub(crate) fn bolt11_recover_payee_pub_key(d: &DecodedBolt11) -> (r: String)
    ensures
        r@ == bolt11_recovered_key_of(d@),
{
    d.inv.recover_payee_pub_key().to_string()
}

/// `Bolt11Invoice::currency`, variant for variant.
#[verifier::external_body]
pub(crate) fn bolt11_currency(d: &DecodedBolt11) -> (r: Currency)
    ensures
        r == bolt11_currency_of(d@),
{
    match d.inv.currency() {
        lightning_invoice::Currency::Bitcoin => Currency::Bitcoin,
        lightning_invoice::Currency::BitcoinTestnet => Currency::BitcoinTestnet,
        lightning_invoice::Currency::Regtest => Currency::Regtest,
        lightning_invoice::Currency::Simnet => Currency::Simnet,
        lightning_invoice::Currency::Signet => Currency::Signet,
    }
}

/// `Bolt11Invoice::amount_milli_satoshis`.
#[verifier::external_body]
pub(crate) fn bolt11_amount_msat(d: &DecodedBolt11) -> (r: Option<u64>)
    ensures
        r == bolt11_amount_of(d@),
{
    d.inv.amount_milli_satoshis()
}

/// `Bolt11Invoice::duration_since_epoch` as (seconds, sub-second nanoseconds).
/// The crate stores the timestamp as whole seconds of at most 35 bits.
#[verifier::external_body]
pub(crate) fn bolt11_timestamp(d: &DecodedBolt11) -> (r: (u64, u32))
    ensures
        r.0 == bolt11_timestamp_of(d@),
        r.0 <= max_bolt11_timestamp(),
        r.1 == 0,
{
    let t = d.inv.duration_since_epoch();
    (t.as_secs(), t.subsec_nanos())
}

/// `Bolt11Invoice::description`: the direct description, or the description
/// hash as hex.
#[verifier::external_body]
pub(crate) fn bolt11_description(d: &DecodedBolt11) -> (r: Bolt11Description)
    ensures
        match r {
            Bolt11Description::Direct(t) => bolt11_description_of(d@) == (false, t@),
            Bolt11Description::Hash(h) => bolt11_description_of(d@) == (true, h@),
        },
{
    match d.inv.description() {
        lightning_invoice::Bolt11InvoiceDescriptionRef::Direct(t) => Bolt11Description::Direct(
            t.to_string(),
        ),
        lightning_invoice::Bolt11InvoiceDescriptionRef::Hash(h) => Bolt11Description::Hash(
            h.0.to_string(),
        ),
    }
}

/// `Bolt11Invoice::payment_hash` as hex.
#[verifier::external_body]
pub(crate) fn bolt11_payment_hash(d: &DecodedBolt11) -> (r: String)
    ensures
        r@ == bolt11_payment_hash_of(d@),
{
    d.inv.payment_hash().to_string()
}

/// `Bolt11Invoice::payment_secret`: its 32 bytes.
#[verifier::external_body]
pub(crate) fn bolt11_payment_secret(d: &DecodedBolt11) -> (r: Vec<u8>)
    ensures
        r@ == bolt11_payment_secret_of(d@),
        r@.len() == 32,
{
    d.inv.payment_secret().0.to_vec()
}

/// `Bolt11Invoice::min_final_cltv_expiry_delta`.
#[verifier::external_body]
pub(crate) fn bolt11_min_final_cltv_expiry_delta(d: &DecodedBolt11) -> (r: u64)
    ensures
        r == bolt11_cltv_delta_of(d@),
{
    d.inv.min_final_cltv_expiry_delta()
}

/// `Bolt11Invoice::expiry_time` in seconds (the crate keeps whole seconds).
#[verifier::external_body]
pub(crate) fn bolt11_expiry_secs(d: &DecodedBolt11) -> (r: u64)
    ensures
        r == bolt11_expiry_of(d@),
{
    d.inv.expiry_time().as_secs()
}

/// The fields of a decoded invoice that the wallet keeps.
#[derive(Clone, Debug, PartialEq, Eq)]
pub struct Bolt11Fields {
    pub bolt11: String,
    pub payee_pub_key: Option<String>,
    pub recovered_payee_pub_key: String,
    pub currency: Currency,
    pub amount_msat: Option<u64>,
    pub timestamp_secs: u64,
    pub timestamp_nanos: u32,
    pub description: Bolt11Description,
    pub payment_hash: String,
    pub payment_secret: Vec<u8>,
    pub min_final_cltv_expiry_delta: u64,
    pub expiry_secs: u64,
}

/// Invariant of decoded fields: a BOLT 11 timestamp and a 32-byte secret.
pub open spec fn bolt11_fields_wf(f: Bolt11Fields) -> bool {
    &&& f.timestamp_secs <= max_bolt11_timestamp()
    &&& f.timestamp_nanos == 0
    &&& f.payment_secret@.len() == 32
}

/// Whether the fields are those of the invoice decoded from the text `s`.
pub open spec fn bolt11_fields_of(f: Bolt11Fields, s: Seq<char>) -> bool {
    &&& f.bolt11@ == bolt11_canonical_text(s)
    &&& match f.payee_pub_key {
        Some(k) => bolt11_payee_key_of(s) == Some(k@),
        None => bolt11_payee_key_of(s) is None,
    }
    &&& f.recovered_payee_pub_key@ == bolt11_recovered_key_of(s)
    &&& f.currency == bolt11_currency_of(s)
    &&& f.amount_msat == bolt11_amount_of(s)
    &&& f.timestamp_secs == bolt11_timestamp_of(s)
    &&& match f.description {
        Bolt11Description::Direct(t) => bolt11_description_of(s) == (false, t@),
        Bolt11Description::Hash(h) => bolt11_description_of(s) == (true, h@),
    }
    &&& f.payment_hash@ == bolt11_payment_hash_of(s)
    &&& f.payment_secret@ == bolt11_payment_secret_of(s)
    &&& f.min_final_cltv_expiry_delta == bolt11_cltv_delta_of(s)
    &&& f.expiry_secs == bolt11_expiry_of(s)
}

/// Reads the fields of a decoded invoice.
pub fn bolt11_fields(d: &DecodedBolt11) -> (r: Bolt11Fields)
    ensures
        bolt11_fields_wf(r),
        bolt11_fields_of(r, d@),
{
    let (timestamp_secs, timestamp_nanos) = bolt11_timestamp(d);
    Bolt11Fields {
        bolt11: bolt11_text(d),
        payee_pub_key: bolt11_payee_pub_key(d),
        recovered_payee_pub_key: bolt11_recover_payee_pub_key(d),
        currency: bolt11_currency(d),
        amount_msat: bolt11_amount_msat(d),
        timestamp_secs,
        timestamp_nanos,
        description: bolt11_description(d),
        payment_hash: bolt11_payment_hash(d),
        payment_secret: bolt11_payment_secret(d),
        min_final_cltv_expiry_delta: bolt11_min_final_cltv_expiry_delta(d),
        expiry_secs: bolt11_expiry_secs(d),
    }
}

/// Whether a text decodes to a wallet invoice: the crate accepts it and its
/// expiry instant lies in the range of UTC instants.
pub open spec fn bolt11_decodes(s: Seq<char>) -> bool {
    &&& bolt11_parses(s)
    &&& bolt11_timestamp_of(s) + bolt11_expiry_of(s) <= max_utc_secs()
}

/// Whether the invoice's expiry instant lies in the range of UTC instants.
pub open spec fn bolt11_expiry_in_range(f: Bolt11Fields) -> bool {
    f.timestamp_secs + f.expiry_secs <= max_utc_secs()
}

/// The wallet invoice that decoded BOLT 11 fields stand for: a pending
/// Lightning invoice whose Lightning part copies the fields, with the explicit
/// payee key preferred over the recovered one, the secret as hex, and expiry
/// `expiry_secs` after the invoice's timestamp.
pub open spec fn invoice_of_bolt11(f: Bolt11Fields, inv: Invoice) -> bool {
    &&& inv.ledger == Ledger::Lightning
    &&& inv.currency == f.currency
    &&& inv.amount_msat == f.amount_msat
    &&& inv.amount_received_msat is None
    &&& inv.fee_msat is None
    &&& inv.timestamp == (UtcTime { secs: f.timestamp_secs as i64, nanos: f.timestamp_nanos })
    &&& inv.status == InvoiceStatus::Pending
    &&& inv.payment_time is None
    &&& opt_text(inv.description) == match f.description {
        Bolt11Description::Direct(d) => Some(d@),
        Bolt11Description::Hash(_) => None::<Seq<char>>,
    }
    &&& inv.ln_invoice matches Some(ln) && {
        &&& ln.bolt11@ == f.bolt11@
        &&& ln.payee_pubkey@ == match f.payee_pub_key {
            Some(k) => k@,
            None => f.recovered_payee_pub_key@,
        }
        &&& ln.payment_hash@ == f.payment_hash@
        &&& opt_text(ln.description_hash) == match f.description {
            Bolt11Description::Direct(_) => None::<Seq<char>>,
            Bolt11Description::Hash(h) => Some(h@),
        }
        &&& ln.payment_secret@ == hex_lower(f.payment_secret@)
        &&& ln.min_final_cltv_expiry_delta == f.min_final_cltv_expiry_delta
        &&& ln.expiry_secs == f.expiry_secs
        &&& ln.expires_at == (UtcTime {
            secs: (f.timestamp_secs + f.expiry_secs) as i64,
            nanos: f.timestamp_nanos,
        })
    }
}

/// A decoded invoice keeps how it describes its payment: a direct
/// description becomes the invoice's description with no description hash,
/// a description hash becomes the Lightning part's description hash with no
/// description; exactly one of the two is present.
pub proof fn lemma_bolt11_description_kept(f: Bolt11Fields, inv: Invoice)
    requires
        invoice_of_bolt11(f, inv),
    ensures
        inv.ln_invoice is Some,
        f.description matches Bolt11Description::Direct(d) ==> (inv.description matches Some(x) && x@ == d@)
            && inv.ln_invoice->0.description_hash is None,
        f.description matches Bolt11Description::Hash(h) ==> inv.description is None && (
        inv.ln_invoice->0.description_hash matches Some(x) && x@ == h@),
        inv.description is Some != inv.ln_invoice->0.description_hash is Some,
        inv.ln_invoice->0.payment_hash@ == f.payment_hash@,
        inv.amount_msat == f.amount_msat,
{
}

/// A decoded invoice is a pending invoice created at the invoice's
/// timestamp that expires its expiry later, payable to the payee key the
/// invoice carries (the recovered key only when it carries none), with the
/// invoice's secret and text.
pub proof fn lemma_bolt11_invoice_terms(f: Bolt11Fields, inv: Invoice)
    requires
        bolt11_fields_wf(f),
        bolt11_expiry_in_range(f),
        invoice_of_bolt11(f, inv),
    ensures
        inv.status == InvoiceStatus::Pending && inv.payment_time is None && inv.amount_received_msat is None,
        inv.timestamp.secs == f.timestamp_secs,
        inv.ln_invoice->0.expires_at.secs == f.timestamp_secs + f.expiry_secs,
        inv.ln_invoice->0.expiry_secs == f.expiry_secs,
        f.payee_pub_key matches Some(k) ==> inv.ln_invoice->0.payee_pubkey@ == k@,
        f.payee_pub_key is None ==> inv.ln_invoice->0.payee_pubkey@ == f.recovered_payee_pub_key@,
        inv.ln_invoice->0.bolt11@ == f.bolt11@,
        inv.ln_invoice->0.payment_secret@ == hex_lower(f.payment_secret@),
        inv.currency == f.currency,
{
}

/// Maps decoded BOLT 11 fields onto the wallet's invoice.
pub fn invoice_from_bolt11_fields(f: Bolt11Fields) -> (r: Invoice)
    requires
        bolt11_fields_wf(f),
        bolt11_expiry_in_range(f),
    ensures
        invoice_of_bolt11(f, r),
{
    let timestamp = match utc_timestamp_opt(f.timestamp_secs as i64, f.timestamp_nanos) {
        Some(t) => t,
        None => {
            assert(false);
            UtcTime { secs: 0, nanos: 0 }
        },
    };
    let expires_at = utc_add_secs(timestamp, f.expiry_secs);
    let payee_pubkey = match f.payee_pub_key {
        Some(key) => key,
        None => f.recovered_payee_pub_key,
    };
    let (description, description_hash) = match f.description {
        Bolt11Description::Direct(d) => (Some(d), None),
        Bolt11Description::Hash(h) => (None, Some(h)),
    };
    let payment_secret = hex_encode(f.payment_secret.as_slice());
    Invoice {
        ledger: Ledger::Lightning,
        currency: f.currency,
        description,
        amount_msat: f.amount_msat,
        amount_received_msat: None,
        fee_msat: None,
        timestamp,
        status: InvoiceStatus::Pending,
        payment_time: None,
        ln_invoice: Some(
            LnInvoice {
                bolt11: f.bolt11,
                payee_pubkey,
                payment_hash: f.payment_hash,
                description_hash,
                payment_secret,
                min_final_cltv_expiry_delta: f.min_final_cltv_expiry_delta,
                expiry_secs: f.expiry_secs,
                expires_at,
            },
        ),
    }
}

/// Decodes a BOLT 11 invoice and maps it onto the wallet's invoice. Fails with
/// the crate's message when the text is not an invoice, and when the expiry
/// instant lies beyond the representable range (where the mapping overflows).
pub fn invoice_from_bolt11(s: &str) -> (r: Result<Invoice, String>)
    ensures
        r is Ok <==> bolt11_decodes(s@),
        bolt11_parses(s@) && !bolt11_decodes(s@) ==> (r matches Err(e)
            && e@ == "invoice expiry lies beyond the representable range"@),
        r matches Ok(inv) ==> exists|f: Bolt11Fields|
            bolt11_fields_of(f, s@) && bolt11_fields_wf(f) && bolt11_expiry_in_range(f)
                && #[trigger] invoice_of_bolt11(f, inv),
{
    match decode_bolt11(s) {
        Ok(d) => {
            let f = bolt11_fields(&d);
            if f.expiry_secs > 8_210_266_876_799u64 - f.timestamp_secs {
                Err("invoice expiry lies beyond the representable range".to_string())
            } else {
                let ghost g = f;
                let inv = invoice_from_bolt11_fields(f);
                assert(invoice_of_bolt11(g, inv));
                Ok(inv)
            }
        },
        Err(e) => Err(e),
    }
}

} // verus!
