//! Verified core of a Lightning / Bitcoin wallet orchestrator: the mapping of
//! node-provider responses (Core Lightning, LND, Breez) onto the wallet's own
//! invoice, payment and on-chain models, and the decisions its listeners take.

pub mod text;
pub mod time;
pub mod domain;
pub mod network;
pub mod bolt11;
pub mod chain;
pub mod cln_rest;
pub mod cln_grpc;
pub mod cln_ws;
pub mod listener;
pub mod lnd;
pub mod lnrpc;
pub mod breez;
pub mod breez_spark;
pub mod breez_liquid;
pub mod breez_core;
pub mod config;
