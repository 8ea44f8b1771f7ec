//! The client-facing service model: transaction summaries, transaction
//! details, and the small utility payloads.

use vstd::prelude::*;

use crate::models::commons::{DataDecoded, Operation};
use crate::providers::AddressInfo;

verus! {

/// Where a transaction stands in its lifecycle.
#[derive(Debug, Clone, Copy, PartialEq, Eq, Structural)]
pub enum TransactionStatus {
    AwaitingConfirmations,
    AwaitingExecution,
    Cancelled,
    Failed,
    Success,
}

/// What a transaction does, as shown to clients.
#[derive(Debug, PartialEq, Eq)]
pub enum TransactionInfo {
    Transfer(Transfer),
    SettingsChange(SettingsChange),
    Custom(Custom),
    Creation(Creation),
    Unknown,
}

/// A token or ether movement.
#[derive(Debug, PartialEq, Eq)]
pub struct Transfer {
    pub sender: String,
    pub recipient: String,
    pub direction: TransferDirection,
    pub transfer_info: TransferInfo,
}

/// Whether the subject account sends or receives the value.
#[derive(Debug, Clone, Copy, PartialEq, Eq, Structural)]
pub enum TransferDirection {
    Incoming,
    Outgoing,
    Unknown,
}

/// The asset a transfer moves.
#[derive(Debug, PartialEq, Eq)]
pub enum TransferInfo {
    Erc20(Erc20Transfer),
    Erc721(Erc721Transfer),
    Ether(EtherTransfer),
}

/// An ERC-20 token amount.
#[derive(Debug, PartialEq, Eq)]
pub struct Erc20Transfer {
    pub token_address: String,
    pub token_name: Option<String>,
    pub token_symbol: Option<String>,
    pub logo_uri: Option<String>,
    pub decimals: Option<u64>,
    pub value: String,
}

/// An ERC-721 collectible.
#[derive(Debug, PartialEq, Eq)]
pub struct Erc721Transfer {
    pub token_address: String,
    pub token_id: String,
    pub token_name: Option<String>,
    pub token_symbol: Option<String>,
    pub logo_uri: Option<String>,
}

/// A plain ether amount.
#[derive(Debug, PartialEq, Eq)]
pub struct EtherTransfer {
    pub value: String,
}

/// A change to the account's own settings.
#[derive(Debug, PartialEq, Eq)]
pub struct SettingsChange {
    pub data_decoded: DataDecoded,
    pub settings_info: Option<SettingsInfo>,
}

/// The decoded meaning of a settings-change call.
#[derive(Debug, PartialEq, Eq)]
pub enum SettingsInfo {
    SetFallbackHandler { handler: String, handler_info: Option<AddressInfo> },
    AddOwner { owner: String, owner_info: Option<AddressInfo>, threshold: u64 },
    RemoveOwner { owner: String, owner_info: Option<AddressInfo>, threshold: u64 },
    SwapOwner {
        old_owner: String,
        old_owner_info: Option<AddressInfo>,
        new_owner: String,
        new_owner_info: Option<AddressInfo>,
    },
    ChangeImplementation { implementation: String, implementation_info: Option<AddressInfo> },
    EnableModule { module: String, module_info: Option<AddressInfo> },
    DisableModule { module: String, module_info: Option<AddressInfo> },
    ChangeThreshold { threshold: u64 },
}

/// A call the gateway does not decode further.
#[derive(Debug, PartialEq, Eq)]
pub struct Custom {
    pub to: String,
    pub data_size: String,
    pub value: String,
}

/// The deployment of the account itself.
#[derive(Debug, PartialEq, Eq)]
pub struct Creation {
    pub creator: String,
    pub transaction_hash: String,
    pub implementation: Option<String>,
    pub factory: Option<String>,
}

/// One transaction summary row.
#[derive(Debug, PartialEq, Eq)]
pub struct Transaction {
    pub id: String,
    pub timestamp: i64,
    pub tx_status: TransactionStatus,
    pub execution_info: Option<ExecutionInfo>,
    pub tx_info: TransactionInfo,
}

/// Confirmation progress of a multisig transaction.
#[derive(Debug, Clone, Copy, PartialEq, Eq, Structural)]
pub struct ExecutionInfo {
    pub nonce: u64,
    pub confirmations_submitted: u64,
    pub confirmations_required: u64,
}

/// The full detail view of one transaction.
#[derive(Debug, PartialEq, Eq)]
pub struct TransactionDetails {
    pub executed_at: Option<i64>,
    pub submitted_at: Option<i64>,
    pub tx_status: TransactionStatus,
    pub tx_info: TransactionInfo,
    pub tx_data: Option<TransactionData>,
    pub tx_hash: Option<String>,
    pub detailed_execution_info: Option<DetailedExecutionInfo>,
}

/// The raw and decoded call data of a transaction.
#[derive(Debug, PartialEq, Eq)]
pub struct TransactionData {
    pub hex_data: String,
    pub data_decoded: Option<DataDecoded>,
}

/// Execution detail of a multisig transaction.
#[derive(Debug, PartialEq, Eq)]
pub struct DetailedExecutionInfo {
    pub nonce: u64,
    pub operation: Operation,
    pub safe_tx_hash: String,
    pub signers: Vec<String>,
    pub confirmations_required: u64,
    pub confirmations: Vec<String>,
}

/// A request to estimate the gas an account transaction needs.
#[derive(Debug, PartialEq, Eq)]
pub struct SafeTransactionEstimationRequest {
    pub to: String,
    pub value: String,
    pub data: String,
    pub operation: Operation,
}

/// The estimated gas for an account transaction.
#[derive(Debug, PartialEq, Eq)]
pub struct SafeTransactionEstimation {
    pub safe_tx_gas: String,
}

/// A request to decode a raw call-data blob.
#[derive(Debug, PartialEq, Eq)]
pub struct DataDecoderRequest {
    pub data: String,
}

} // verus!
