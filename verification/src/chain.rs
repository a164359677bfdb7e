//! Bitcoin primitives the wallet reads through the `bitcoin` and `base64`
//! crates: hashes, outpoints, addresses and PSBTs.
use std::str::FromStr;
use base64::Engine;
use bitcoin::hashes::Hash as _;
use vstd::prelude::*;

use crate::domain::{BitcoinError, BtcNetwork};
use crate::text::{decimal, to_owned_string};

verus! {

#[verifier::external_type_specification]
#[verifier::external_body]
pub struct ExPsbt(bitcoin::psbt::Psbt);

/// The SHA-256 digest of a byte string, as `bitcoin::hashes::sha256` computes it.
pub uninterp spec fn sha256_digest(data: Seq<u8>) -> Seq<u8>;

/// What `bitcoin::OutPoint::from_str` makes of a text: the transaction id in
/// its display form and the output index, or nothing when it rejects it.
pub uninterp spec fn outpoint_parse(s: Seq<char>) -> Option<(Seq<char>, u32)>;

/// The address (as text) that `bitcoin::Address::from_script` finds for a
/// script on a network, or nothing when the script has no address form.
pub uninterp spec fn script_address(script: Seq<u8>, network: ChainNetwork) -> Option<Seq<char>>;

/// What `base64`'s standard engine decodes a text to, or nothing when it
/// rejects it.
pub uninterp spec fn base64_standard_decode(s: Seq<char>) -> Option<Seq<u8>>;

/// What `base64`'s standard engine encodes bytes to.
pub uninterp spec fn base64_standard_encode(b: Seq<u8>) -> Seq<char>;

/// Whether `Psbt::deserialize` accepts the bytes.
pub uninterp spec fn psbt_parses(b: Seq<u8>) -> bool;

/// The fee in satoshis `Psbt::fee` computes for the PSBT the bytes
/// deserialize to; none when they do not deserialize or it fails.
pub uninterp spec fn psbt_fee_of(b: Seq<u8>) -> Option<u64>;

/// The id (display text) of the unsigned transaction of the PSBT the bytes
/// deserialize to; none when they do not deserialize.
pub uninterp spec fn psbt_txid_of(b: Seq<u8>) -> Option<Seq<char>>;

/// The id (display text) of the transaction that consensus-encoded bytes
/// decode to; none when they do not decode to exactly one transaction.
pub uninterp spec fn raw_tx_txid_of(b: Seq<u8>) -> Option<Seq<char>>;

/// The `bitcoin::Network` values the wallet maps its networks onto.
#[derive(Clone, Copy, Debug, PartialEq, Eq, Structural)]
pub enum ChainNetwork {
    Bitcoin,
    Testnet,
    Signet,
    Regtest,
}

/// The chain parameters a wallet network uses for addresses (simnet has no
/// parameters of its own and uses regtest's).
pub open spec fn chain_network_of(n: BtcNetwork) -> ChainNetwork {
    match n {
        BtcNetwork::Bitcoin => ChainNetwork::Bitcoin,
        BtcNetwork::Testnet | BtcNetwork::Testnet4 => ChainNetwork::Testnet,
        BtcNetwork::Regtest => ChainNetwork::Regtest,
        BtcNetwork::Signet => ChainNetwork::Signet,
        BtcNetwork::Simnet => ChainNetwork::Regtest,
    }
}

/// The chain parameters a wallet network uses for addresses.
pub fn chain_network(n: BtcNetwork) -> (r: ChainNetwork)
    ensures
        r == chain_network_of(n),
{
    match n {
        BtcNetwork::Bitcoin => ChainNetwork::Bitcoin,
        BtcNetwork::Testnet | BtcNetwork::Testnet4 => ChainNetwork::Testnet,
        BtcNetwork::Regtest => ChainNetwork::Regtest,
        BtcNetwork::Signet => ChainNetwork::Signet,
        BtcNetwork::Simnet => ChainNetwork::Regtest,
    }
}

/// `sha256::Hash::hash(data).to_byte_array()`: the 32-byte SHA-256 digest.
#[verifier::external_body]
pub(crate) fn sha256(data: &[u8]) -> (r: Vec<u8>)
    ensures
        r@ == sha256_digest(data@),
        r@.len() == 32,
{
    bitcoin::hashes::sha256::Hash::hash(data).to_byte_array().to_vec()
}

/// `OutPoint::from_str`, giving the transaction id as `Txid::to_string` writes
/// it and the output index.
#[verifier::external_body]
pub(crate) fn parse_outpoint(s: &str) -> (r: Option<(String, u32)>)
    ensures
        match r {
            Some((t, v)) => outpoint_parse(s@) == Some((t@, v)),
            None => outpoint_parse(s@) is None,
        },
{
    match bitcoin::OutPoint::from_str(s) {
        Ok(o) => Some((o.txid.to_string(), o.vout)),
        Err(_) => None,
    }
}

/// `Address::from_script(ScriptBuf::from_bytes(script), network).to_string()`;
/// the error is kept as its message.
#[verifier::external_body]
pub(crate) fn address_from_script(script: Vec<u8>, network: ChainNetwork) -> (r: Result<String, String>)
    ensures
        match r {
            Ok(a) => script_address(script@, network) == Some(a@),
            Err(_) => script_address(script@, network) is None,
        },
{
    let params = match network {
        ChainNetwork::Bitcoin => bitcoin::Network::Bitcoin,
        ChainNetwork::Testnet => bitcoin::Network::Testnet,
        ChainNetwork::Signet => bitcoin::Network::Signet,
        ChainNetwork::Regtest => bitcoin::Network::Regtest,
    };
    let script = bitcoin::ScriptBuf::from_bytes(script);
    bitcoin::Address::from_script(&script, params).map(|a| a.to_string()).map_err(|e| e.to_string())
}

/// `base64::engine::general_purpose::STANDARD.decode`; the error is kept as
/// its message.
#[verifier::external_body]
pub(crate) fn base64_decode(s: &str) -> (r: Result<Vec<u8>, String>)
    ensures
        match r {
            Ok(b) => base64_standard_decode(s@) == Some(b@),
            Err(_) => base64_standard_decode(s@) is None,
        },
{
    base64::engine::general_purpose::STANDARD.decode(s).map_err(|e| e.to_string())
}

/// A character of the standard base64 alphabet, or the padding `=`.
pub open spec fn is_base64_char(c: char) -> bool {
    ||| 'A' <= c <= 'Z'
    ||| 'a' <= c <= 'z'
    ||| '0' <= c <= '9'
    ||| c == '+' || c == '/' || c == '='
}

/// `base64::engine::general_purpose::STANDARD.encode`: padded base64 of the
/// standard alphabet, four characters for each started group of three bytes,
/// which the same engine decodes back to the bytes.
#[verifier::external_body]
pub(crate) fn base64_encode(b: &[u8]) -> (r: String)
    ensures
        r@ == base64_standard_encode(b@),
        r@.len() == 4 * ((b@.len() + 2) / 3),
        forall|i: int| 0 <= i < r@.len() ==> is_base64_char(#[trigger] r@[i]),
        base64_standard_decode(r@) == Some(b@),
{
    base64::engine::general_purpose::STANDARD.encode(b)
}

/// `Psbt::deserialize`; the error is kept as its message.
#[verifier::external_body]
pub(crate) fn psbt_deserialize(b: &[u8]) -> (r: Result<bitcoin::psbt::Psbt, String>)
    ensures
        r is Ok <==> psbt_parses(b@),
{
    bitcoin::psbt::Psbt::deserialize(b).map_err(|e| e.to_string())
}

/// `Psbt::deserialize` then `Psbt::fee` in satoshis (inputs minus outputs),
/// kept as the error's message when either fails; the fee is named
/// `psbt_fee_of`, a function of the bytes.
#[verifier::external_body]
pub(crate) fn psbt_fee_from_bytes(b: &[u8]) -> (r: Result<u64, String>)
    ensures
        match r {
            Ok(f) => psbt_fee_of(b@) == Some(f),
            Err(_) => psbt_fee_of(b@) is None,
        },
        r is Ok ==> psbt_parses(b@),
{
    let psbt = bitcoin::psbt::Psbt::deserialize(b).map_err(|e| e.to_string())?;
    psbt.fee().map(|a| a.to_sat()).map_err(|e| e.to_string())
}

/// `Psbt::deserialize` then `psbt.unsigned_tx.compute_txid().to_string()`:
/// the id of the PSBT's unsigned transaction, named `psbt_txid_of`; none
/// exactly when the bytes do not deserialize.
#[verifier::external_body]
pub(crate) fn psbt_txid_from_bytes(b: &[u8]) -> (r: Option<String>)
    ensures
        match r {
            Some(t) => psbt_txid_of(b@) == Some(t@),
            None => psbt_txid_of(b@) is None,
        },
        r is Some <==> psbt_parses(b@),
{
    bitcoin::psbt::Psbt::deserialize(b).ok().map(|p| p.unsigned_tx.compute_txid().to_string())
}

/// `bitcoin::consensus::deserialize::<Transaction>` then
/// `compute_txid().to_string()`: the id of the transaction the bytes encode,
/// named `raw_tx_txid_of`; none exactly when they do not decode.
#[verifier::external_body]
pub(crate) fn raw_tx_txid(b: &[u8]) -> (r: Option<String>)
    ensures
        match r {
            Some(t) => raw_tx_txid_of(b@) == Some(t@),
            None => raw_tx_txid_of(b@) is None,
        },
{
    bitcoin::consensus::deserialize::<bitcoin::Transaction>(b).ok().map(|t| t.compute_txid().to_string())
}

/// The fee in satoshis of a base64 PSBT; `ParsePsbt` when it does not decode,
/// deserialize, or yield a fee.
pub fn psbt_fee_sat(psbt_base64: &str) -> (r: Result<u64, BitcoinError>)
    ensures
        r is Ok <==> (base64_standard_decode(psbt_base64@) matches Some(b) && psbt_fee_of(b) is Some),
        r matches Err(e) ==> e is ParsePsbt,
        r matches Ok(f) ==> psbt_fee_of(base64_standard_decode(psbt_base64@)->0) == Some(f),
{
    let bytes = match base64_decode(psbt_base64) {
        Ok(b) => b,
        Err(e) => return Err(BitcoinError::ParsePsbt(e)),
    };
    match psbt_fee_from_bytes(bytes.as_slice()) {
        Ok(f) => Ok(f),
        Err(e) => Err(BitcoinError::ParsePsbt(e)),
    }
}

/// The id of a finalized transaction given as consensus-encoded bytes;
/// `Transaction` when they do not decode.
pub fn txid_from_raw_tx(raw_tx: &[u8]) -> (r: Result<String, BitcoinError>)
    ensures
        match raw_tx_txid_of(raw_tx@) {
            Some(t) => r matches Ok(id) && id@ == t,
            None => r matches Err(e) && e is Transaction,
        },
{
    match raw_tx_txid(raw_tx) {
        Some(t) => Ok(t),
        None => Err(BitcoinError::Transaction("invalid raw transaction".to_string())),
    }
}

/// The fee and transaction id of a base64 PSBT; `ParsePsbt` when it does not
/// decode, deserialize, or yield a fee.
pub fn psbt_fee_and_txid(psbt_base64: &str) -> (r: Result<(u64, String), BitcoinError>)
    ensures
        r is Ok <==> (base64_standard_decode(psbt_base64@) matches Some(b) && psbt_fee_of(b) is Some),
        r matches Err(e) ==> e is ParsePsbt,
        r matches Ok((f, t)) ==> base64_standard_decode(psbt_base64@) matches Some(b) && psbt_fee_of(b)
            == Some(f) && psbt_txid_of(b) == Some(t@),
{
    let bytes = match base64_decode(psbt_base64) {
        Ok(b) => b,
        Err(e) => return Err(BitcoinError::ParsePsbt(e)),
    };
    let fee = match psbt_fee_from_bytes(bytes.as_slice()) {
        Ok(f) => f,
        Err(e) => return Err(BitcoinError::ParsePsbt(e)),
    };
    match psbt_txid_from_bytes(bytes.as_slice()) {
        Some(t) => Ok((fee, t)),
        None => Err(BitcoinError::ParsePsbt("invalid PSBT".to_string())),
    }
}

/// Decodes a base64 PSBT; both a bad encoding and a bad PSBT are reported as
/// `BitcoinError::ParsePsbt`.
pub fn parse_psbt(psbt_base64: &str) -> (r: Result<bitcoin::psbt::Psbt, BitcoinError>)
    ensures
        r is Ok <==> (base64_standard_decode(psbt_base64@) matches Some(b) && psbt_parses(b)),
        r matches Err(e) ==> e is ParsePsbt,
{
    let bytes = match base64_decode(psbt_base64) {
        Ok(b) => b,
        Err(e) => return Err(BitcoinError::ParsePsbt(e)),
    };
    match psbt_deserialize(bytes.as_slice()) {
        Ok(p) => Ok(p),
        Err(e) => Err(BitcoinError::ParsePsbt(e)),
    }
}

/// `txid:index`, the text that identifies an outpoint.
pub open spec fn outpoint_text(txid: Seq<char>, index: u32) -> Seq<char> {
    txid + ":"@ + decimal(index as nat)
}

/// Writes `txid:index` (what `format!("{}:{}", txid, index)` gives).
pub fn outpoint_string(txid: &str, index: u32) -> (r: String)
    ensures
        r@ == outpoint_text(txid@, index),
{
    let mut s = to_owned_string(txid);
    s.append(":");
    let d = crate::text::u64_to_decimal(index as u64);
    s.append(d.as_str());
    s
}

} // verus!
