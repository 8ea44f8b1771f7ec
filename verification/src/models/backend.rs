//! The transaction payloads as the indexing service reports them. Dates
//! arrive as RFC 3339 text on the wire; here they are carried as their
//! millisecond timestamps, which is all the conversions read.

use vstd::prelude::*;

use crate::models::commons::{DataDecoded, Operation};

verus! {

/// One transaction row from the indexing service.
pub enum TransactionDto {
    Multisig(MultisigTransaction),
    Ethereum(EthereumTransaction),
    Module(ModuleTransaction),
    Unknown,
}

/// One owner's confirmation of a multisig transaction.
#[derive(Debug)]
pub struct Confirmation {
    pub owner: String,
}

/// A transaction proposed through the multisig account itself.
#[derive(Debug)]
pub struct MultisigTransaction {
    pub safe: String,
    pub to: String,
    pub value: Option<String>,
    pub data: Option<String>,
    pub data_decoded: Option<DataDecoded>,
    pub operation: Option<Operation>,
    pub nonce: u64,
    pub execution_date: Option<i64>,
    pub submission_date: i64,
    pub safe_tx_hash: String,
    pub is_executed: bool,
    pub is_successful: Option<bool>,
    pub confirmations_required: Option<u64>,
    pub confirmations: Option<Vec<Confirmation>>,
    pub transaction_hash: Option<String>,
}

/// An on-chain transaction that moved assets to or from the account.
pub struct EthereumTransaction {
    pub execution_date: i64,
    pub transfers: Option<Vec<TransferDto>>,
}

/// A transaction executed through an enabled module.
pub struct ModuleTransaction {
    pub to: String,
    pub module: String,
    pub value: Option<String>,
    pub data: Option<String>,
    pub data_decoded: Option<DataDecoded>,
    pub execution_date: i64,
    pub transaction_hash: String,
}

/// One asset movement inside an on-chain transaction.
pub enum TransferDto {
    Erc20(Erc20TransferDto),
    Erc721(Erc721TransferDto),
    Ether(EtherTransferDto),
    Unknown,
}

/// An ERC-20 movement.
#[derive(Debug)]
pub struct Erc20TransferDto {
    pub execution_date: i64,
    pub transaction_hash: String,
    pub from: String,
    pub to: String,
    pub token_address: String,
    pub value: String,
}

/// An ERC-721 movement.
#[derive(Debug)]
pub struct Erc721TransferDto {
    pub execution_date: i64,
    pub transaction_hash: String,
    pub from: String,
    pub to: String,
    pub token_address: String,
    pub token_id: String,
}

/// A plain ether movement.
#[derive(Debug)]
pub struct EtherTransferDto {
    pub execution_date: i64,
    pub transaction_hash: String,
    pub from: String,
    pub to: String,
    pub value: String,
}

} // verus!
