//! Names of Bitcoin networks as nodes report them.
use vstd::prelude::*;

use crate::domain::BtcNetwork;
use crate::text::{ascii_lower, ascii_upper, lemma_ascii_case_folds, lowercase, str_eq, to_lowercase};

verus! {

/// The network a lower-case network name stands for; any name not listed is
/// taken for mainnet.
pub open spec fn network_of_name(s: Seq<char>) -> BtcNetwork {
    if s == "bitcoin"@ || s == "mainnet"@ {
        BtcNetwork::Bitcoin
    } else if s == "testnet"@ || s == "testnet3"@ {
        BtcNetwork::Testnet
    } else if s == "testnet4"@ {
        BtcNetwork::Testnet4
    } else if s == "regtest"@ {
        BtcNetwork::Regtest
    } else if s == "simnet"@ {
        BtcNetwork::Simnet
    } else if s == "signet"@ {
        BtcNetwork::Signet
    } else {
        BtcNetwork::Bitcoin
    }
}

/// The network an already lower-cased name stands for.
pub fn network_from_lowercase(s: &str) -> (r: BtcNetwork)
    ensures
        r == network_of_name(s@),
{
    if str_eq(s, "bitcoin") || str_eq(s, "mainnet") {
        BtcNetwork::Bitcoin
    } else if str_eq(s, "testnet") || str_eq(s, "testnet3") {
        BtcNetwork::Testnet
    } else if str_eq(s, "testnet4") {
        BtcNetwork::Testnet4
    } else if str_eq(s, "regtest") {
        BtcNetwork::Regtest
    } else if str_eq(s, "simnet") {
        BtcNetwork::Simnet
    } else if str_eq(s, "signet") {
        BtcNetwork::Signet
    } else {
        BtcNetwork::Bitcoin
    }
}

/// The network a node's network name stands for, ignoring case; unknown names
/// are taken for mainnet.
pub fn parse_network(s: &str) -> (r: BtcNetwork)
    ensures
        r == network_of_name(lowercase(s@)),
        vstd::utf8::is_ascii_chars(s@) ==> r == network_of_name(ascii_lower(s@)),
{
    let lower = to_lowercase(s);
    network_from_lowercase(lower.as_str())
}

/// The ASCII case of a network name never changes the network it stands
/// for: the name with its letters made capital, or made small, is ASCII too
/// and names the same network.
pub proof fn lemma_network_name_ignores_ascii_case(s: Seq<char>)
    requires
        vstd::utf8::is_ascii_chars(s),
    ensures
        vstd::utf8::is_ascii_chars(ascii_upper(s)),
        vstd::utf8::is_ascii_chars(ascii_lower(s)),
        network_of_name(ascii_lower(ascii_upper(s))) == network_of_name(ascii_lower(s)),
        network_of_name(ascii_lower(ascii_lower(s))) == network_of_name(ascii_lower(s)),
{
    lemma_ascii_case_folds(s);
}

} // verus!
