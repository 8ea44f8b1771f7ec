//! Converting backend transactions into the full detail view.

use vstd::prelude::*;

use crate::errors::ApiError;
use crate::models::backend::{ModuleTransaction, MultisigTransaction};
use crate::models::commons::{dd_eqv, Operation};
use crate::models::service::{
    DetailedExecutionInfo, TransactionData, TransactionDetails, TransactionInfo, TransactionStatus,
};
use crate::providers::{InfoProvider, SafeInfo, SafeInfoV};
use crate::strutil::dec_digits;

verus! {

/// The number of confirmations a multisig transaction has collected.
pub open spec fn confirmation_count(m: MultisigTransaction) -> int {
    match m.confirmations {
        Some(cs) => cs@.len() as int,
        None => 0,
    }
}

/// The number of confirmations the transaction needs: its own recorded
/// requirement, or the account's threshold where none was recorded.
pub open spec fn confirmations_needed(m: MultisigTransaction, si: SafeInfoV) -> u64 {
    match m.confirmations_required {
        Some(r) => r,
        None => si.threshold,
    }
}

/// Where a multisig transaction stands: executed ones succeeded or failed
/// on chain; an unexecuted one whose nonce the account has passed is
/// cancelled; otherwise it awaits confirmations until enough are
/// collected, then execution.
pub open spec fn map_status_spec(m: MultisigTransaction, si: SafeInfoV) -> TransactionStatus {
    if m.is_executed {
        if m.is_successful == Some(true) {
            TransactionStatus::Success
        } else {
            TransactionStatus::Failed
        }
    } else if m.nonce < si.nonce {
        TransactionStatus::Cancelled
    } else if confirmation_count(m) < confirmations_needed(m, si) {
        TransactionStatus::AwaitingConfirmations
    } else {
        TransactionStatus::AwaitingExecution
    }
}

/// The full detail view a multisig transaction maps to, given the
/// account's policy.
pub open spec fn details_rel(m: MultisigTransaction, si: SafeInfoV, r: TransactionDetails) -> bool {
    &&& r.executed_at == m.execution_date
    &&& r.submitted_at == Some(m.submission_date)
    &&& r.tx_status == map_status_spec(m, si)
    &&& m.tx_info_rel(r.tx_info)
    &&& match m.data {
        Some(d) => r.tx_data matches Some(td) && td.hex_data@ == d@ && (match (
            td.data_decoded,
            m.data_decoded,
        ) {
            (Some(a), Some(b)) => dd_eqv(b, a),
            (None, None) => true,
            _ => false,
        }),
        None => r.tx_data is None,
    }
    &&& match m.transaction_hash {
        Some(h) => r.tx_hash matches Some(x) && x@ == h@,
        None => r.tx_hash is None,
    }
    &&& r.detailed_execution_info matches Some(dei) && dei.nonce == m.nonce && dei.operation == (
    match m.operation {
        Some(op) => op,
        None => Operation::CALL,
    }) && dei.safe_tx_hash@ == m.safe_tx_hash@ && dei.signers@.map_values(|s: String| s@)
        == si.owners && dei.confirmations_required == confirmations_needed(m, si)
        && dei.confirmations@.len() == confirmation_count(m) && (forall|i: int|
        0 <= i < dei.confirmations@.len() ==> (#[trigger] dei.confirmations@[i])@
            == m.confirmations->0@[i].owner@)
}

impl MultisigTransaction {
    /// Resolves where the transaction stands against the account policy.
    pub fn map_status(&self, safe_info: &SafeInfo) -> (r: TransactionStatus)
        ensures
            r == map_status_spec(*self, safe_info@),
    {
        if self.is_executed {
            if match self.is_successful {
                Some(b) => b,
                None => false,
            } {
                TransactionStatus::Success
            } else {
                TransactionStatus::Failed
            }
        } else if self.nonce < safe_info.nonce {
            TransactionStatus::Cancelled
        } else {
            let needed = match self.confirmations_required.as_ref() {
                Some(r) => *r,
                None => safe_info.threshold,
            };
            let have: u64 = match self.confirmations.as_ref() {
                Some(cs) => cs.len() as u64,
                None => 0,
            };
            if have < needed {
                TransactionStatus::AwaitingConfirmations
            } else {
                TransactionStatus::AwaitingExecution
            }
        }
    }

    /// Builds the detail view from the account policy the provider
    /// answered.
    pub fn transaction_details_from(&self, safe_info: SafeInfo) -> (r: TransactionDetails)
        requires
            self.is_ether_transfer_spec() ==> self.value is Some,
            self.is_custom_spec() ==> self.value is Some
                && crate::converters::transactions::data_len_ok(self.data),
        ensures
            details_rel(*self, safe_info@, r),
    {
        let ghost si = safe_info@;
        let tx_status = self.map_status(&safe_info);
        let confirmations: Vec<String> = match self.confirmations.as_ref() {
            Some(cs) => {
                let n = cs.len();
                let mut out: Vec<String> = Vec::new();
                let mut i: usize = 0;
                while i < n
                    invariant
                        n == cs@.len(),
                        i <= n,
                        out@.len() == i,
                        forall|j: int| 0 <= j < i ==> (#[trigger] out@[j])@ == cs@[j].owner@,
                    decreases n - i,
                {
                    out.push(cs[i].owner.clone());
                    i += 1;
                }
                proof {
                    assert(self.confirmations matches Some(c) && c == *cs);
                }
                out
            },
            None => Vec::new(),
        };
        let confirmations_required = match self.confirmations_required.as_ref() {
            Some(r) => *r,
            None => safe_info.threshold,
        };
        TransactionDetails {
            executed_at: match self.execution_date.as_ref() {
                Some(t) => Some(*t),
                None => None,
            },
            submitted_at: Some(self.submission_date),
            tx_status,
            tx_info: self.transaction_info(),
            tx_data: match self.data.as_ref() {
                Some(data) => Some(
                    TransactionData {
                        hex_data: data.clone(),
                        data_decoded: match self.data_decoded.as_ref() {
                            Some(d) => Some(d.duplicate()),
                            None => None,
                        },
                    },
                ),
                None => None,
            },
            tx_hash: match self.transaction_hash.as_ref() {
                Some(h) => Some(h.clone()),
                None => None,
            },
            detailed_execution_info: Some(
                DetailedExecutionInfo {
                    nonce: self.nonce,
                    operation: match self.operation {
                        Some(op) => op,
                        None => Operation::CALL,
                    },
                    safe_tx_hash: self.safe_tx_hash.clone(),
                    signers: safe_info.owners,
                    confirmations_required,
                    confirmations,
                },
            ),
        }
    }

    /// Builds the detail view, resolving the account policy through the
    /// provider.
    pub fn to_transaction_details<P: InfoProvider>(&self, info_provider: &mut P) -> (r: Result<
        TransactionDetails,
        ApiError,
    >)
        requires
            self.is_ether_transfer_spec() ==> self.value is Some,
            self.is_custom_spec() ==> self.value is Some
                && crate::converters::transactions::data_len_ok(self.data),
        ensures
            final(info_provider).safes() == old(info_provider).safes(),
            final(info_provider).contracts() == old(info_provider).contracts(),
            final(info_provider).addresses() == old(info_provider).addresses(),
            r matches Ok(td) ==> old(info_provider).safes().contains_key(self.safe@)
                && details_rel(*self, old(info_provider).safes()[self.safe@], td),
    {
        let safe_info = match info_provider.safe_info(self.safe.as_str()) {
            Ok(si) => si,
            Err(e) => {
                return Err(e);
            },
        };
        Ok(self.transaction_details_from(safe_info))
    }
}

impl ModuleTransaction {
    /// Builds the detail view of a module transaction.
    pub fn to_transaction_details(&self) -> (r: Result<TransactionDetails, ApiError>)
        requires
            crate::converters::transactions::data_len_ok(self.data),
        ensures
            r is Ok,
            r matches Ok(td) ==> {
                &&& td.executed_at == Some(self.execution_date)
                &&& td.submitted_at is None
                &&& td.tx_status == TransactionStatus::Success
                &&& td.tx_info matches TransactionInfo::Custom(c) && c.to@ == self.to@
                    && c.data_size@ == dec_digits(
                    crate::converters::transactions::data_size_val(self.data) as nat,
                ) && c.value@ == (match self.value {
                    Some(v) => v@,
                    None => "0"@,
                })
                &&& match self.data {
                    Some(d) => td.tx_data matches Some(t) && t.hex_data@ == d@ && (match (
                        t.data_decoded,
                        self.data_decoded,
                    ) {
                        (Some(a), Some(b)) => dd_eqv(b, a),
                        (None, None) => true,
                        _ => false,
                    }),
                    None => td.tx_data is None,
                }
                &&& td.tx_hash matches Some(h) && h@ == self.transaction_hash@
                &&& td.detailed_execution_info is None
            },
    {
        Ok(
            TransactionDetails {
                executed_at: Some(self.execution_date),
                submitted_at: None,
                tx_status: TransactionStatus::Success,
                tx_info: self.to_transaction_info(),
                tx_data: match self.data.as_ref() {
                    Some(data) => Some(
                        TransactionData {
                            hex_data: data.clone(),
                            data_decoded: match self.data_decoded.as_ref() {
                                Some(d) => Some(d.duplicate()),
                                None => None,
                            },
                        },
                    ),
                    None => None,
                },
                tx_hash: Some(self.transaction_hash.clone()),
                detailed_execution_info: None,
            },
        )
    }
}

} // verus!
