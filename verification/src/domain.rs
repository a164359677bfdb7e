//! The wallet's own model of invoices, payments, on-chain activity and the
//! events that node listeners report.
use vstd::prelude::*;

use crate::time::UtcTime;

verus! {

/// Which ledger a payment or invoice settles on.
#[derive(Clone, Copy, Debug, PartialEq, Eq, Structural)]
pub enum Ledger {
    Lightning,
    Internal,
    Onchain,
}

/// The currency (chain) an invoice is denominated in.
#[derive(Clone, Copy, Debug, PartialEq, Eq, Structural)]
pub enum Currency {
    Bitcoin,
    BitcoinTestnet,
    Regtest,
    Simnet,
    Signet,
}

/// The Bitcoin network a node runs on.
#[derive(Clone, Copy, Debug, PartialEq, Eq, Structural)]
pub enum BtcNetwork {
    Bitcoin,
    Testnet,
    Testnet4,
    Regtest,
    Simnet,
    Signet,
}

/// The network a node reports before it has been asked: mainnet.
pub fn default_network() -> (r: BtcNetwork)
    ensures
        r == BtcNetwork::Bitcoin,
{
    BtcNetwork::Bitcoin
}

/// The currency that invoices on a network are denominated in.
pub open spec fn network_currency(n: BtcNetwork) -> Currency {
    match n {
        BtcNetwork::Bitcoin => Currency::Bitcoin,
        BtcNetwork::Testnet | BtcNetwork::Testnet4 => Currency::BitcoinTestnet,
        BtcNetwork::Regtest => Currency::Regtest,
        BtcNetwork::Simnet => Currency::Simnet,
        BtcNetwork::Signet => Currency::Signet,
    }
}

impl BtcNetwork {
    /// The currency of this network (`Currency::from(network)`).
    pub fn currency(self) -> (r: Currency)
        ensures
            r == network_currency(self),
    {
        match self {
            BtcNetwork::Bitcoin => Currency::Bitcoin,
            BtcNetwork::Testnet | BtcNetwork::Testnet4 => Currency::BitcoinTestnet,
            BtcNetwork::Regtest => Currency::Regtest,
            BtcNetwork::Simnet => Currency::Simnet,
            BtcNetwork::Signet => Currency::Signet,
        }
    }
}

/// Lifecycle of an invoice.
#[derive(Clone, Copy, Debug, PartialEq, Eq, Structural)]
pub enum InvoiceStatus {
    Pending,
    Settled,
    Expired,
}

/// Lifecycle of an outgoing payment.
#[derive(Clone, Copy, Debug, PartialEq, Eq, Structural)]
pub enum PaymentStatus {
    Pending,
    Settled,
    Failed,
}

/// State of a wallet output.
#[derive(Clone, Copy, Debug, PartialEq, Eq, Structural)]
pub enum BtcOutputStatus {
    Unconfirmed,
    Confirmed,
    Spent,
    Immature,
}

/// Address kinds a wallet can be asked for.
#[derive(Clone, Copy, Debug, PartialEq, Eq, Structural)]
pub enum BtcAddressType {
    P2pkh,
    P2sh,
    P2wpkh,
    P2tr,
}

/// Health of a node as the wallet reports it.
#[derive(Clone, Copy, Debug, PartialEq, Eq, Structural)]
pub enum HealthStatus {
    Operational,
    Unavailable,
    Maintenance,
}

/// The Lightning-specific part of an invoice (BOLT 11 data).
#[derive(Clone, Debug, PartialEq, Eq)]
pub struct LnInvoice {
    pub bolt11: String,
    pub payee_pubkey: String,
    pub payment_hash: String,
    pub description_hash: Option<String>,
    pub payment_secret: String,
    pub min_final_cltv_expiry_delta: u64,
    /// Expiry in whole seconds after `Invoice::timestamp`.
    pub expiry_secs: u64,
    pub expires_at: UtcTime,
}

/// An invoice as the wallet records it.
#[derive(Clone, Debug, PartialEq, Eq)]
pub struct Invoice {
    pub ledger: Ledger,
    pub currency: Currency,
    pub description: Option<String>,
    pub amount_msat: Option<u64>,
    pub amount_received_msat: Option<u64>,
    pub fee_msat: Option<u64>,
    pub timestamp: UtcTime,
    pub status: InvoiceStatus,
    pub payment_time: Option<UtcTime>,
    pub ln_invoice: Option<LnInvoice>,
}

/// The Lightning-specific part of a payment.
#[derive(Clone, Debug, PartialEq, Eq)]
pub struct LnPayment {
    pub ln_address: Option<String>,
    pub payment_hash: String,
    pub payment_preimage: Option<String>,
    pub metadata: Option<String>,
}

/// An outgoing payment as the wallet records it.
#[derive(Clone, Debug, PartialEq, Eq)]
pub struct Payment {
    pub ledger: Ledger,
    pub status: PaymentStatus,
    pub amount_msat: u64,
    pub fee_msat: Option<u64>,
    pub payment_time: Option<UtcTime>,
    pub error: Option<String>,
    pub description: Option<String>,
    pub lightning: Option<LnPayment>,
}

/// An incoming Lightning payment settled an invoice.
#[derive(Clone, Debug, PartialEq, Eq)]
pub struct LnInvoicePaidEvent {
    pub payment_hash: String,
    pub amount_received_msat: u64,
    pub fee_msat: u64,
    pub payment_time: UtcTime,
}

/// An outgoing Lightning payment succeeded.
#[derive(Clone, Debug, PartialEq, Eq)]
pub struct LnPaySuccessEvent {
    pub amount_msat: u64,
    pub fees_msat: u64,
    pub payment_hash: String,
    pub payment_preimage: String,
    pub payment_time: UtcTime,
}

/// An outgoing payment failed.
#[derive(Clone, Debug, PartialEq, Eq)]
pub struct LnPayFailureEvent {
    pub reason: String,
    pub payment_hash: String,
}

/// Coins arrived on-chain at one of the wallet's addresses.
#[derive(Clone, Debug, PartialEq, Eq)]
pub struct OnchainDepositEvent {
    pub txid: String,
    pub output_index: u32,
    pub address: String,
    pub amount_sat: u64,
    pub block_height: Option<u32>,
}

/// A transaction spending the wallet's coins was seen on-chain.
#[derive(Clone, Debug, PartialEq, Eq)]
pub struct OnchainWithdrawalEvent {
    pub txid: String,
    pub block_height: Option<u32>,
}

/// An output reported by a chain-movement notification.
#[derive(Clone, Debug, PartialEq, Eq)]
pub struct BtcOutputEvent {
    pub txid: String,
    pub output_index: u32,
    pub address: Option<String>,
    pub amount_sat: u64,
    pub block_height: Option<u32>,
}

/// An output of the wallet.
#[derive(Clone, Debug, PartialEq, Eq)]
pub struct BtcOutput {
    pub txid: String,
    pub output_index: u32,
    pub address: String,
    pub amount_sat: u64,
    pub block_height: Option<u32>,
    /// `txid:output_index`.
    pub outpoint: String,
    pub status: BtcOutputStatus,
}

/// One output of an on-chain transaction.
#[derive(Clone, Debug, PartialEq, Eq)]
pub struct BtcTransactionOutput {
    pub output_index: u32,
    pub address: String,
    pub amount_sat: u64,
    pub is_ours: bool,
}

/// An on-chain transaction as the wallet sees it.
#[derive(Clone, Debug, PartialEq, Eq)]
pub struct BtcTransaction {
    pub txid: String,
    pub block_height: Option<u32>,
    pub outputs: Vec<BtcTransactionOutput>,
    pub is_outgoing: bool,
}

/// A wallet output locked for a prepared transaction.
#[derive(Clone, Debug, PartialEq, Eq)]
pub struct BtcLockedUtxo {
    pub id: String,
    pub txid: String,
    pub output_index: u32,
}

/// A funded, not yet broadcast transaction.
#[derive(Clone, Debug, PartialEq, Eq)]
pub struct BtcPreparedTransaction {
    pub txid: String,
    pub fee_sat: u64,
    pub psbt: String,
    /// The finalized transaction, consensus-encoded, where the node finalizes
    /// it while preparing.
    pub raw_tx: Option<Vec<u8>>,
    pub locked_utxos: Vec<BtcLockedUtxo>,
}

/// Where an on-chain synchronisation resumes.
#[derive(Clone, Copy, Debug, PartialEq, Eq, Structural)]
pub enum OnchainSyncCursor {
    CreatedIndex(u64),
    BlockHeight(u32),
}

/// One on-chain movement found by a synchronisation.
#[derive(Clone, Debug, PartialEq, Eq)]
pub enum OnchainTransaction {
    Deposit(BtcOutput),
    Withdrawal(OnchainWithdrawalEvent),
}

/// The movements found by one synchronisation and where the next one resumes.
#[derive(Clone, Debug, PartialEq, Eq)]
pub struct OnchainSyncBatch {
    pub events: Vec<OnchainTransaction>,
    pub next_cursor: Option<OnchainSyncCursor>,
}

/// Errors of the Lightning side, each with its message.
#[derive(Clone, Debug, PartialEq, Eq)]
pub enum LightningError {
    ParseConfig(String),
    Invoice(String),
    Pay(String),
    InvoiceByHash(String),
    PaymentByHash(String),
    CancelInvoice(String),
    HealthCheck(String),
    NodeInfo(String),
    Listener(String),
    EventProcessing(String),
    UnexpectedStreamPayload(String),
    ConnectWebsocket(String),
    TLSConfig(String),
    ReadCertificates(String),
    Connect(String),
    Disconnect(String),
}

/// Errors of the on-chain side, each with its message.
#[derive(Clone, Debug, PartialEq, Eq)]
pub enum BitcoinError {
    Address(String),
    AddressType(String),
    PrepareTransaction(String),
    FinalizeTransaction(String),
    BroadcastTransaction(String),
    ReleaseTransaction(String),
    GetTransaction(String),
    GetOutput(String),
    Synchronize(String),
    ParsePsbt(String),
    Transaction(String),
    Unsupported(String),
}

impl BtcTransaction {
    /// The withdrawal this transaction stands for.
    pub fn withdrawal_event(&self) -> (r: OnchainWithdrawalEvent)
        ensures
            r.txid@ == self.txid@,
            r.block_height == self.block_height,
    {
        OnchainWithdrawalEvent { txid: self.txid.clone(), block_height: self.block_height }
    }

    /// The deposit that one of this transaction's outputs stands for.
    pub fn deposit_event(&self, output: &BtcTransactionOutput) -> (r: OnchainDepositEvent)
        ensures
            r.txid@ == self.txid@,
            r.output_index == output.output_index,
            r.address@ == output.address@,
            r.amount_sat == output.amount_sat,
            r.block_height == self.block_height,
    {
        OnchainDepositEvent {
            txid: self.txid.clone(),
            output_index: output.output_index,
            address: output.address.clone(),
            amount_sat: output.amount_sat,
            block_height: self.block_height,
        }
    }
}

impl BtcAddressType {
    /// Name of the address type, as errors report it.
    pub fn name(self) -> (r: &'static str)
        ensures
            r@ == address_type_name(self),
    {
        match self {
            BtcAddressType::P2pkh => "p2pkh",
            BtcAddressType::P2sh => "p2sh",
            BtcAddressType::P2wpkh => "p2wpkh",
            BtcAddressType::P2tr => "p2tr",
        }
    }
}

/// Name of an address type.
pub open spec fn address_type_name(t: BtcAddressType) -> Seq<char> {
    match t {
        BtcAddressType::P2pkh => "p2pkh"@,
        BtcAddressType::P2sh => "p2sh"@,
        BtcAddressType::P2wpkh => "p2wpkh"@,
        BtcAddressType::P2tr => "p2tr"@,
    }
}

} // verus!
