//! Converting backend transactions into client-facing summaries.

use vstd::prelude::*;

use crate::converters::transfers::transfer_info_rel;
use crate::errors::ApiError;
use crate::models::backend::{
    EthereumTransaction, ModuleTransaction, MultisigTransaction, TransactionDto,
};
use crate::models::commons::{
    dd_eqv, is_settings_change_method, param_value_lookup, DataDecoded, Operation,
};
use crate::models::service::{
    Custom, Erc20Transfer, Erc721Transfer, EtherTransfer, ExecutionInfo, SettingsChange,
    Transaction, TransactionInfo, TransactionStatus, Transfer, TransferDirection, TransferInfo,
};
use crate::providers::{InfoProvider, SafeInfoV};
use crate::strutil::{dec_digits, u64_to_string};

verus! {

/// The value of a named single parameter in optional decoded data, with
/// `"0"` standing in wherever the chain of lookups fails.
pub open spec fn decoded_param_or_zero(dd: Option<DataDecoded>, name: Seq<char>) -> Seq<char> {
    match dd {
        Some(d) => match d.parameters {
            Some(ps) => match param_value_lookup(ps@, name) {
                Some(v) => v,
                None => "0"@,
            },
            None => "0"@,
        },
        None => "0"@,
    }
}

/// The character count reported for a call-data blob: zero for no data or
/// empty data, and the length without the `0x` prefix otherwise.
pub open spec fn data_size_val(data: Option<String>) -> int {
    match data {
        Some(d) => if d@.len() == 0 {
            0
        } else {
            d@.len() - 2
        },
        None => 0,
    }
}

/// Whether a call-data blob has a measurable size: a one-character blob
/// cannot lose its two-character prefix.
pub open spec fn data_len_ok(data: Option<String>) -> bool {
    match data {
        Some(d) => d@.len() != 1,
        None => true,
    }
}

/// Reports the size of a call-data blob, in characters past the prefix.
pub fn data_size(data: &Option<String>) -> (r: String)
    requires
        data_len_ok(*data),
    ensures
        r@ == dec_digits(data_size_val(*data) as nat),
{
    match data.as_ref() {
        Some(actual_data) => {
            let length = actual_data.as_str().unicode_len();
            if length == 0 {
                u64_to_string(0)
            } else {
                u64_to_string((length - 2) as u64)
            }
        },
        None => u64_to_string(0),
    }
}

impl MultisigTransaction {
    /// Whether this calls an ERC-20 transfer method with a value parameter.
    pub open spec fn is_erc20_transfer_spec(&self) -> bool {
        &&& self.operation == Some(Operation::CALL)
        &&& match self.data_decoded {
            Some(d) => (d.method@ == "transfer"@ || d.method@ == "transferFrom"@)
                && match d.parameters {
                Some(ps) => exists|i: int| 0 <= i < ps@.len() && ps@[i].name@ == "value"@,
                None => false,
            },
            None => false,
        }
    }

    /// Whether this calls an ERC-721 transfer method with a token id.
    pub open spec fn is_erc721_transfer_spec(&self) -> bool {
        &&& self.operation == Some(Operation::CALL)
        &&& match self.data_decoded {
            Some(d) => d.method@ == "safeTransferFrom"@ && match d.parameters {
                Some(ps) => exists|i: int| 0 <= i < ps@.len() && ps@[i].name@ == "tokenId"@,
                None => false,
            },
            None => false,
        }
    }

    /// Whether this is a plain call carrying data.
    pub open spec fn is_ether_transfer_spec(&self) -> bool {
        self.operation == Some(Operation::CALL) && self.data is Some
    }

    /// Whether this is a recognized settings change on the account itself.
    pub open spec fn is_settings_change_spec(&self) -> bool {
        &&& self.to@ == self.safe@
        &&& self.operation == Some(Operation::CALL)
        &&& match self.data_decoded {
            Some(d) => is_settings_change_method(d.method@),
            None => false,
        }
    }

    /// Whether this falls through to the custom-call summary.
    pub open spec fn is_custom_spec(&self) -> bool {
        &&& !self.is_erc20_transfer_spec()
        &&& !self.is_erc721_transfer_spec()
        &&& !self.is_ether_transfer_spec()
        &&& !self.is_settings_change_spec()
    }

    /// What the summary converters unwrap: an execution date, a value on
    /// the paths that read one, and measurable call data on the custom
    /// path.
    pub open spec fn summary_requires(&self) -> bool {
        &&& self.execution_date is Some
        &&& self.is_ether_transfer_spec() ==> self.value is Some
        &&& self.is_custom_spec() ==> self.value is Some && data_len_ok(self.data)
    }

    pub fn is_erc20_transfer(&self) -> (r: bool)
        ensures
            r == self.is_erc20_transfer_spec(),
    {
        let op_call = matches!(self.operation, Some(Operation::CALL));
        op_call && match self.data_decoded.as_ref() {
            Some(d) => d.is_erc20_transfer_method() && d.contains_parameter("value"),
            None => false,
        }
    }

    pub fn is_erc721_transfer(&self) -> (r: bool)
        ensures
            r == self.is_erc721_transfer_spec(),
    {
        let op_call = matches!(self.operation, Some(Operation::CALL));
        op_call && match self.data_decoded.as_ref() {
            Some(d) => d.is_erc721_transfer_method() && d.contains_parameter("tokenId"),
            None => false,
        }
    }

    pub fn is_ether_transfer(&self) -> (r: bool)
        ensures
            r == self.is_ether_transfer_spec(),
    {
        matches!(self.operation, Some(Operation::CALL)) && matches!(self.data, Some(_))
    }

    pub fn is_settings_change(&self) -> (r: bool)
        ensures
            r == self.is_settings_change_spec(),
    {
        crate::strutil::str_eq(self.to.as_str(), self.safe.as_str()) && matches!(
            self.operation,
            Some(Operation::CALL),
        ) && match self.data_decoded.as_ref() {
            Some(d) => d.is_settings_change(),
            None => false,
        }
    }

    fn decoded_value_or_zero(&self, name: &str) -> (r: String)
        ensures
            r@ == decoded_param_or_zero(self.data_decoded, name@),
    {
        match self.data_decoded.as_ref() {
            Some(d) => {
                proof {
                    assert(*d == self.data_decoded->0);
                }
                match d.get_parameter_value(name) {
                    Some(v) => v,
                    None => "0".to_owned(),
                }
            },
            None => "0".to_owned(),
        }
    }

    /// The ERC-20 transfer summary: value from the `value` parameter, the
    /// account on both ends, and fixed placeholder token metadata (token
    /// registry resolution happens outside this library).
    pub fn to_erc20_transfer(&self) -> (r: Transfer)
        ensures
            r.sender@ == self.safe@,
            r.recipient@ == self.safe@,
            r.direction == TransferDirection::Unknown,
            r.transfer_info matches TransferInfo::Erc20(t) && t.value@ == decoded_param_or_zero(
                self.data_decoded,
                "value"@,
            ) && t.token_address@ == Seq::<char>::empty() && (t.token_name matches Some(n) && n@
                == "Blabla"@) && (t.token_symbol matches Some(s) && s@ == "BLA"@) && (
            t.logo_uri matches Some(u) && u@ == "some.url"@) && t.decimals == Some(12u64),
    {
        Transfer {
            sender: self.safe.clone(),
            recipient: self.safe.clone(),
            direction: TransferDirection::Unknown,
            transfer_info: TransferInfo::Erc20(
                Erc20Transfer {
                    token_address: String::new(),
                    token_name: Some("Blabla".to_owned()),
                    token_symbol: Some("BLA".to_owned()),
                    logo_uri: Some("some.url".to_owned()),
                    decimals: Some(12),
                    value: self.decoded_value_or_zero("value"),
                },
            ),
        }
    }

    /// The ERC-721 transfer summary: token id from the `tokenId`
    /// parameter and the account on both ends.
    pub fn to_erc721_transfer(&self) -> (r: Transfer)
        ensures
            r.sender@ == self.safe@,
            r.recipient@ == self.safe@,
            r.direction == TransferDirection::Unknown,
            r.transfer_info matches TransferInfo::Erc721(t) && t.token_id@ == decoded_param_or_zero(
                self.data_decoded,
                "tokenId"@,
            ) && t.token_address@ == Seq::<char>::empty() && t.token_name is None
                && t.token_symbol is None && t.logo_uri is None,
    {
        Transfer {
            sender: self.safe.clone(),
            recipient: self.safe.clone(),
            direction: TransferDirection::Unknown,
            transfer_info: TransferInfo::Erc721(
                Erc721Transfer {
                    token_address: String::new(),
                    token_id: self.decoded_value_or_zero("tokenId"),
                    token_name: None,
                    token_symbol: None,
                    logo_uri: None,
                },
            ),
        }
    }

    /// The ether transfer summary.
    pub fn to_ether_transfer(&self) -> (r: Transfer)
        requires
            self.value is Some,
        ensures
            r.sender@ == self.safe@,
            r.recipient@ == self.safe@,
            r.direction == TransferDirection::Unknown,
            r.transfer_info matches TransferInfo::Ether(t) && t.value@ == self.value->0@,
    {
        Transfer {
            sender: self.safe.clone(),
            recipient: self.safe.clone(),
            direction: TransferDirection::Unknown,
            transfer_info: TransferInfo::Ether(
                EtherTransfer {
                    value: match self.value.as_ref() {
                        Some(v) => v.clone(),
                        None => String::new(),
                    },
                },
            ),
        }
    }

    /// The settings-change summary: the decoded call data itself.
    pub fn to_settings_change(&self) -> (r: SettingsChange)
        requires
            self.data_decoded is Some,
        ensures
            dd_eqv(self.data_decoded->0, r.data_decoded),
            r.settings_info is None,
    {
        SettingsChange {
            data_decoded: match self.data_decoded.as_ref() {
                Some(d) => d.duplicate(),
                None => DataDecoded { method: String::new(), parameters: None },
            },
            settings_info: None,
        }
    }

    /// The custom-call summary.
    pub fn to_custom(&self) -> (r: Custom)
        requires
            self.value is Some,
            data_len_ok(self.data),
        ensures
            r.to@ == self.safe@,
            r.data_size@ == dec_digits(data_size_val(self.data) as nat),
            r.value@ == self.value->0@,
    {
        Custom {
            to: self.safe.clone(),
            data_size: data_size(&self.data),
            value: match self.value.as_ref() {
                Some(v) => v.clone(),
                None => String::new(),
            },
        }
    }

    /// What a multisig transaction shows as its transaction info, by the
    /// first matching kind: ERC-20 transfer, ERC-721 transfer, ether
    /// transfer, settings change, then custom call.
    pub open spec fn tx_info_rel(&self, r: TransactionInfo) -> bool {
        if self.is_erc20_transfer_spec() {
            match r {
                TransactionInfo::Transfer(t) => t.sender@ == self.safe@ && t.recipient@
                    == self.safe@ && t.direction == TransferDirection::Unknown && (
                t.transfer_info matches TransferInfo::Erc20(e) && e.value@ == decoded_param_or_zero(
                    self.data_decoded,
                    "value"@,
                )),
                _ => false,
            }
        } else if self.is_erc721_transfer_spec() {
            match r {
                TransactionInfo::Transfer(t) => t.sender@ == self.safe@ && t.recipient@
                    == self.safe@ && t.direction == TransferDirection::Unknown && (
                t.transfer_info matches TransferInfo::Erc721(e) && e.token_id@
                    == decoded_param_or_zero(self.data_decoded, "tokenId"@)),
                _ => false,
            }
        } else if self.is_ether_transfer_spec() {
            match r {
                TransactionInfo::Transfer(t) => t.sender@ == self.safe@ && t.recipient@
                    == self.safe@ && t.direction == TransferDirection::Unknown && (
                t.transfer_info matches TransferInfo::Ether(e) && e.value@ == self.value->0@),
                _ => false,
            }
        } else if self.is_settings_change_spec() {
            match r {
                TransactionInfo::SettingsChange(s) => dd_eqv(self.data_decoded->0, s.data_decoded)
                    && s.settings_info is None,
                _ => false,
            }
        } else {
            match r {
                TransactionInfo::Custom(c) => c.to@ == self.safe@ && c.data_size@ == dec_digits(
                    data_size_val(self.data) as nat,
                ) && c.value@ == self.value->0@,
                _ => false,
            }
        }
    }

    /// Classifies the transaction and builds its transaction info.
    pub fn transaction_info(&self) -> (r: TransactionInfo)
        requires
            self.is_ether_transfer_spec() ==> self.value is Some,
            self.is_custom_spec() ==> self.value is Some && data_len_ok(self.data),
        ensures
            self.tx_info_rel(r),
    {
        if self.is_erc20_transfer() {
            TransactionInfo::Transfer(self.to_erc20_transfer())
        } else if self.is_erc721_transfer() {
            TransactionInfo::Transfer(self.to_erc721_transfer())
        } else if self.is_ether_transfer() {
            TransactionInfo::Transfer(self.to_ether_transfer())
        } else if self.is_settings_change() {
            TransactionInfo::SettingsChange(self.to_settings_change())
        } else {
            TransactionInfo::Custom(self.to_custom())
        }
    }

    /// What building the one-row summary promises: whenever it succeeds,
    /// the account was known and the single row carries its policy.
    pub open spec fn summary_post(
        &self,
        safes: Map<Seq<char>, SafeInfoV>,
        r: Result<Vec<Transaction>, ApiError>,
    ) -> bool {
        r matches Ok(txs) ==> {
            &&& safes.contains_key(self.safe@)
            &&& txs@.len() == 1
            &&& txs@[0].id@ == "multisig_<something_else_eventually>"@
            &&& txs@[0].timestamp == self.execution_date->0
            &&& txs@[0].tx_status == TransactionStatus::Success
            &&& txs@[0].execution_info matches Some(ei) && ei.nonce == self.nonce
                && ei.confirmations_submitted == (match self.confirmations {
                Some(cs) => cs@.len() as u64,
                None => 0u64,
            }) && ei.confirmations_required == safes[self.safe@].threshold
            &&& self.tx_info_rel(txs@[0].tx_info)
        }
    }

    /// Builds the one-row summary of the transaction, with confirmation
    /// progress resolved against the account's policy.
    pub fn to_service_transaction<P: InfoProvider>(&self, info_provider: &mut P) -> (r: Result<
        Vec<Transaction>,
        ApiError,
    >)
        requires
            self.summary_requires(),
        ensures
            final(info_provider).safes() == old(info_provider).safes(),
            final(info_provider).contracts() == old(info_provider).contracts(),
            final(info_provider).addresses() == old(info_provider).addresses(),
            self.summary_post(old(info_provider).safes(), r),
    {
        let safe_info = match info_provider.safe_info(self.safe.as_str()) {
            Ok(si) => si,
            Err(e) => {
                return Err(e);
            },
        };
        let confirmations_submitted: u64 = match self.confirmations.as_ref() {
            Some(confirmations) => confirmations.len() as u64,
            None => 0,
        };
        let timestamp = match self.execution_date.as_ref() {
            Some(t) => *t,
            None => 0,
        };
        let mut txs: Vec<Transaction> = Vec::new();
        txs.push(
            Transaction {
                id: "multisig_<something_else_eventually>".to_owned(),
                timestamp,
                tx_status: TransactionStatus::Success,
                execution_info: Some(
                    ExecutionInfo {
                        nonce: self.nonce,
                        confirmations_submitted,
                        confirmations_required: safe_info.threshold,
                    },
                ),
                tx_info: self.transaction_info(),
            },
        );
        Ok(txs)
    }
}

impl ModuleTransaction {
    /// The custom-call info a module transaction shows.
    pub fn to_transaction_info(&self) -> (r: TransactionInfo)
        requires
            data_len_ok(self.data),
        ensures
            r matches TransactionInfo::Custom(c) && c.to@ == self.to@ && c.data_size@ == dec_digits(
                data_size_val(self.data) as nat,
            ) && c.value@ == (match self.value {
                Some(v) => v@,
                None => "0"@,
            }),
    {
        TransactionInfo::Custom(
            Custom {
                to: self.to.clone(),
                data_size: data_size(&self.data),
                value: match self.value.as_ref() {
                    Some(v) => v.clone(),
                    None => "0".to_owned(),
                },
            },
        )
    }

    /// The one-row summary a module transaction maps to.
    pub open spec fn summary_rel(&self, txs: Seq<Transaction>) -> bool {
        &&& txs.len() == 1
        &&& txs[0].id@ == "module_<something_else_eventually>"@
        &&& txs[0].timestamp == self.execution_date
        &&& txs[0].tx_status == TransactionStatus::Success
        &&& txs[0].execution_info is None
        &&& txs[0].tx_info matches TransactionInfo::Custom(c) && c.to@ == self.to@ && c.data_size@
            == dec_digits(data_size_val(self.data) as nat) && c.value@ == (match self.value {
            Some(v) => v@,
            None => "0"@,
        })
    }

    /// Builds the one-row summary of a module transaction.
    pub fn to_service_transaction(&self) -> (r: Vec<Transaction>)
        requires
            data_len_ok(self.data),
        ensures
            self.summary_rel(r@),
    {
        let mut txs: Vec<Transaction> = Vec::new();
        txs.push(
            Transaction {
                id: "module_<something_else_eventually>".to_owned(),
                timestamp: self.execution_date,
                tx_status: TransactionStatus::Success,
                execution_info: None,
                tx_info: self.to_transaction_info(),
            },
        );
        txs
    }
}

impl EthereumTransaction {
    /// The summary rows an on-chain transaction maps to: one row per
    /// transfer it carried, as seen from the subject account.
    pub open spec fn summary_rel(&self, safe: Seq<char>, txs: Seq<Transaction>) -> bool {
        match self.transfers {
            Some(ts) => txs.len() == ts@.len() && forall|i: int|
                0 <= i < ts@.len() ==> {
                    &&& (#[trigger] txs[i]).id@ == "ethereum_<something_else_eventually>"@
                    &&& txs[i].timestamp == self.execution_date
                    &&& txs[i].tx_status == TransactionStatus::Success
                    &&& txs[i].execution_info is None
                    &&& transfer_info_rel(ts@[i], safe, txs[i].tx_info)
                },
            None => txs.len() == 0,
        }
    }

    /// Builds one summary row per transfer the transaction carried, as
    /// seen from the subject account.
    pub fn to_service_transaction(&self, safe: &str) -> (r: Vec<Transaction>)
        ensures
            self.summary_rel(safe@, r@),
    {
        match self.transfers.as_ref() {
            Some(transfers) => {
                let n = transfers.len();
                let mut out: Vec<Transaction> = Vec::new();
                let mut i: usize = 0;
                while i < n
                    invariant
                        n == transfers@.len(),
                        i <= n,
                        out@.len() == i,
                        self.transfers matches Some(ts) && ts == *transfers,
                        forall|j: int|
                            0 <= j < i ==> {
                                &&& (#[trigger] out@[j]).id@
                                    == "ethereum_<something_else_eventually>"@
                                &&& out@[j].timestamp == self.execution_date
                                &&& out@[j].tx_status == TransactionStatus::Success
                                &&& out@[j].execution_info is None
                                &&& transfer_info_rel(transfers@[j], safe@, out@[j].tx_info)
                            },
                    decreases n - i,
                {
                    out.push(
                        Transaction {
                            id: "ethereum_<something_else_eventually>".to_owned(),
                            timestamp: self.execution_date,
                            tx_status: TransactionStatus::Success,
                            execution_info: None,
                            tx_info: transfers[i].to_transfer(safe),
                        },
                    );
                    i += 1;
                }
                out
            },
            None => Vec::new(),
        }
    }
}

impl TransactionDto {
    /// What the summary conversion unwraps, by payload kind.
    pub open spec fn summary_requires(&self) -> bool {
        match self {
            TransactionDto::Multisig(m) => m.summary_requires(),
            TransactionDto::Module(m) => data_len_ok(m.data),
            _ => true,
        }
    }

    /// Builds the summary rows of one backend payload, as seen from the
    /// subject account. An unknown payload kind is a serialization error.
    pub fn to_service_transaction<P: InfoProvider>(&self, info_provider: &mut P, safe: &str) -> (r:
        Result<Vec<Transaction>, ApiError>)
        requires
            self.summary_requires(),
        ensures
            final(info_provider).safes() == old(info_provider).safes(),
            final(info_provider).contracts() == old(info_provider).contracts(),
            final(info_provider).addresses() == old(info_provider).addresses(),
            match self {
                TransactionDto::Unknown => r matches Err(ApiError::Serialization { details })
                    && details@ == "Unknown transaction type from backend"@,
                TransactionDto::Ethereum(e) => r matches Ok(txs) && e.summary_rel(safe@, txs@),
                TransactionDto::Module(m) => r matches Ok(txs) && m.summary_rel(txs@),
                TransactionDto::Multisig(m) => m.summary_post(old(info_provider).safes(), r),
            },
    {
        match self {
            TransactionDto::Multisig(transaction) => transaction.to_service_transaction(
                info_provider,
            ),
            TransactionDto::Ethereum(transaction) => Ok(transaction.to_service_transaction(safe)),
            TransactionDto::Module(transaction) => Ok(transaction.to_service_transaction()),
            TransactionDto::Unknown => Err(
                ApiError::Serialization {
                    details: "Unknown transaction type from backend".to_owned(),
                },
            ),
        }
    }
}

} // verus!
