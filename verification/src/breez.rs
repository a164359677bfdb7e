//! What the Breez providers (Greenlight, Liquid and Spark SDKs) share: amount
//! conversions, BIP21 destinations, settings text, and the actions their
//! event listeners hand to the wallet.
use vstd::prelude::*;

use crate::domain::{
    BtcNetwork, Currency, LnInvoicePaidEvent, LnPayFailureEvent, LnPaySuccessEvent,
    OnchainDepositEvent, OnchainWithdrawalEvent, network_currency,
};
use crate::text::{find_char, has_prefix, trim, trimmed};

verus! {

/// `sat * 1000` in millisatoshis, saturating at `u64::MAX`
/// (`u64::saturating_mul`).
pub open spec fn sat_to_msat(sat: u64) -> u64 {
    if sat * 1000 <= u64::MAX {
        (sat * 1000) as u64
    } else {
        u64::MAX
    }
}

/// Satoshis to millisatoshis, saturating.
pub fn msat_from_sat(sat: u64) -> (r: u64)
    ensures
        r == sat_to_msat(sat),
{
    if sat <= u64::MAX / 1000 {
        sat * 1000
    } else {
        u64::MAX
    }
}

/// The whole satoshis an amount in millisatoshis is rounded down to, at least
/// one: the SDKs take satoshi amounts and refuse zero.
pub open spec fn sat_at_least_one(msat: u64) -> u64 {
    if msat / 1000 >= 1 {
        msat / 1000
    } else {
        1
    }
}

/// Rounds millisatoshis down to whole satoshis, at least one.
pub fn sat_amount(msat: u64) -> (r: u64)
    ensures
        r == sat_at_least_one(msat),
{
    let sat = msat / 1000;
    if sat >= 1 {
        sat
    } else {
        1
    }
}

/// The text before the first `c`, or all of it when `c` does not occur.
pub open spec fn before_first(s: Seq<char>, c: char) -> Seq<char> {
    if exists|i: int| 0 <= i < s.len() && s[i] == c {
        let i = choose|i: int|
            0 <= i < s.len() && s[i] == c && forall|j: int| 0 <= j < i ==> s[j] != c;
        s.subrange(0, i)
    } else {
        s
    }
}

/// Whether a destination is a BIP21 URI: it starts with the `bitcoin:` (or
/// `BITCOIN:`) scheme.
pub open spec fn is_bip21_uri(d: Seq<char>) -> bool {
    d.len() >= 8 && (d.subrange(0, 8) == "bitcoin:"@ || d.subrange(0, 8) == "BITCOIN:"@)
}

/// The address of a destination: for a BIP21 URI, what follows the scheme up
/// to the query after `?`; any other text as it is.
pub open spec fn bip21_address(d: Seq<char>) -> Seq<char> {
    if is_bip21_uri(d) {
        before_first(d.subrange(8, d.len() as int), '?')
    } else {
        d
    }
}

/// Extracts the plain Bitcoin address from a BIP21 URI
/// (`bitcoin:bc1p...?amount=0.001` gives `bc1p...`); another text is
/// returned as it is.
pub fn parse_bip21_address(destination: &str) -> (r: String)
    ensures
        r@ == bip21_address(destination@),
{
    proof {
        reveal_strlit("bitcoin:");
        reveal_strlit("BITCOIN:");
    }
    let n = destination.unicode_len();
    if !(has_prefix(destination, "bitcoin:") || has_prefix(destination, "BITCOIN:")) {
        return destination.to_string();
    }
    let stripped = destination.substring_char(8, n);
    match find_char(stripped, '?') {
        Some(i) => {
            proof {
                let s = stripped@;
                assert(s[i as int] == '?' && forall|j: int| 0 <= j < i ==> s[j] != '?');
                let k = choose|k: int|
                    0 <= k < s.len() && s[k] == '?' && forall|j: int| 0 <= j < k ==> s[j] != '?';
                if k < i {
                    assert(s[k] != '?');
                }
                if i < k {
                    assert(s[i as int] != '?');
                }
                assert(k == i);
            }
            stripped.substring_char(0, i).to_string()
        },
        None => stripped.to_string(),
    }
}

/// A setting's text once trimmed, or none when absent or blank.
pub open spec fn normalized_text(v: Option<Seq<char>>) -> Option<Seq<char>> {
    match v {
        Some(s) => if trimmed(s).len() > 0 {
            Some(trimmed(s))
        } else {
            None
        },
        None => None,
    }
}

/// The optional text of an optional string slice.
pub open spec fn opt_view(v: Option<&str>) -> Option<Seq<char>> {
    match v {
        Some(s) => Some(s@),
        None => None,
    }
}

/// A setting trimmed of white space, dropped when blank.
pub fn normalized_setting(v: Option<&str>) -> (r: Option<String>)
    ensures
        crate::text::opt_text(r) == normalized_text(opt_view(v)),
{
    match v {
        Some(s) => {
            let t = trim(s);
            if t.unicode_len() > 0 {
                Some(t.to_string())
            } else {
                None
            }
        },
        None => None,
    }
}

/// Whether `s` is the optional text `h`, or empty when there is none (what
/// `unwrap_or_default` gives).
pub open spec fn text_or_empty(h: Option<Seq<char>>, s: Seq<char>) -> bool {
    match h {
        Some(x) => s == x,
        None => s.len() == 0,
    }
}

/// What a Breez listener asks the wallet to record for an SDK event.
#[derive(Clone, Debug, PartialEq, Eq)]
pub enum BreezAction {
    InvoicePaid(LnInvoicePaidEvent),
    OutgoingPayment(LnPaySuccessEvent),
    FailedPayment(LnPayFailureEvent),
    OnchainDeposit(OnchainDepositEvent, Currency),
    OnchainWithdrawal(OnchainWithdrawalEvent),
}

/// A Breez SDK event listener: it knows the currency of the wallet's network,
/// which on-chain deposits are recorded in.
#[derive(Clone, Copy, Debug, PartialEq, Eq, Structural)]
pub struct BreezListener {
    pub currency: Currency,
}

impl BreezListener {
    /// The listener of a wallet on `network`.
    pub fn new(network: BtcNetwork) -> (r: Self)
        ensures
            r.currency == network_currency(network),
    {
        BreezListener { currency: network.currency() }
    }
}

} // verus!
