//! Converting backend asset movements into client-facing transfers.

use vstd::prelude::*;

use crate::models::backend::{Erc20TransferDto, Erc721TransferDto, EtherTransferDto, TransferDto};
use crate::models::service::{
    Erc20Transfer, Erc721Transfer, EtherTransfer, TransactionInfo, Transfer, TransferDirection,
    TransferInfo,
};

verus! {

/// The direction of a movement as seen from the subject account: incoming
/// when it receives, outgoing when it sends, unknown otherwise.
pub open spec fn direction_of(safe: Seq<char>, from: Seq<char>, to: Seq<char>) -> TransferDirection {
    if to == safe {
        TransferDirection::Incoming
    } else if from == safe {
        TransferDirection::Outgoing
    } else {
        TransferDirection::Unknown
    }
}

fn direction(safe: &str, from: &str, to: &str) -> (r: TransferDirection)
    ensures
        r == direction_of(safe@, from@, to@),
{
    if crate::strutil::str_eq(to, safe) {
        TransferDirection::Incoming
    } else if crate::strutil::str_eq(from, safe) {
        TransferDirection::Outgoing
    } else {
        TransferDirection::Unknown
    }
}

impl EtherTransferDto {
    /// The transfer this movement shows to the subject account.
    pub fn to_transfer_transaction(&self, safe: &str) -> (r: Transfer)
        ensures
            r.sender@ == self.from@,
            r.recipient@ == self.to@,
            r.direction == direction_of(safe@, self.from@, self.to@),
            r.transfer_info matches TransferInfo::Ether(e) && e.value@ == self.value@,
    {
        Transfer {
            sender: self.from.clone(),
            recipient: self.to.clone(),
            direction: direction(safe, self.from.as_str(), self.to.as_str()),
            transfer_info: TransferInfo::Ether(EtherTransfer { value: self.value.clone() }),
        }
    }
}

impl Erc20TransferDto {
    /// The transfer this movement shows to the subject account. Token
    /// metadata beyond the address is not resolved here.
    pub fn to_transfer_transaction(&self, safe: &str) -> (r: Transfer)
        ensures
            r.sender@ == self.from@,
            r.recipient@ == self.to@,
            r.direction == direction_of(safe@, self.from@, self.to@),
            r.transfer_info matches TransferInfo::Erc20(t) && t.token_address@
                == self.token_address@ && t.value@ == self.value@ && t.token_name is None
                && t.token_symbol is None && t.logo_uri is None && t.decimals is None,
    {
        Transfer {
            sender: self.from.clone(),
            recipient: self.to.clone(),
            direction: direction(safe, self.from.as_str(), self.to.as_str()),
            transfer_info: TransferInfo::Erc20(
                Erc20Transfer {
                    token_address: self.token_address.clone(),
                    token_name: None,
                    token_symbol: None,
                    logo_uri: None,
                    decimals: None,
                    value: self.value.clone(),
                },
            ),
        }
    }
}

impl Erc721TransferDto {
    /// The transfer this movement shows to the subject account. Token
    /// metadata beyond the address is not resolved here.
    pub fn to_transfer_transaction(&self, safe: &str) -> (r: Transfer)
        ensures
            r.sender@ == self.from@,
            r.recipient@ == self.to@,
            r.direction == direction_of(safe@, self.from@, self.to@),
            r.transfer_info matches TransferInfo::Erc721(t) && t.token_address@
                == self.token_address@ && t.token_id@ == self.token_id@ && t.token_name is None
                && t.token_symbol is None && t.logo_uri is None,
    {
        Transfer {
            sender: self.from.clone(),
            recipient: self.to.clone(),
            direction: direction(safe, self.from.as_str(), self.to.as_str()),
            transfer_info: TransferInfo::Erc721(
                Erc721Transfer {
                    token_address: self.token_address.clone(),
                    token_id: self.token_id.clone(),
                    token_name: None,
                    token_symbol: None,
                    logo_uri: None,
                },
            ),
        }
    }
}

/// How a movement appears as transaction info: a transfer for the known
/// asset kinds, and nothing decodable for an unknown kind.
pub open spec fn transfer_info_rel(dto: TransferDto, safe: Seq<char>, r: TransactionInfo) -> bool {
    match dto {
        TransferDto::Ether(t) => match r {
            TransactionInfo::Transfer(tr) => tr.sender@ == t.from@ && tr.recipient@ == t.to@
                && tr.direction == direction_of(safe, t.from@, t.to@) && (
            tr.transfer_info matches TransferInfo::Ether(e) && e.value@ == t.value@),
            _ => false,
        },
        TransferDto::Erc20(t) => match r {
            TransactionInfo::Transfer(tr) => tr.sender@ == t.from@ && tr.recipient@ == t.to@
                && tr.direction == direction_of(safe, t.from@, t.to@) && (
            tr.transfer_info matches TransferInfo::Erc20(e) && e.token_address@
                == t.token_address@ && e.value@ == t.value@),
            _ => false,
        },
        TransferDto::Erc721(t) => match r {
            TransactionInfo::Transfer(tr) => tr.sender@ == t.from@ && tr.recipient@ == t.to@
                && tr.direction == direction_of(safe, t.from@, t.to@) && (
            tr.transfer_info matches TransferInfo::Erc721(e) && e.token_address@
                == t.token_address@ && e.token_id@ == t.token_id@),
            _ => false,
        },
        TransferDto::Unknown => r is Unknown,
    }
}

impl TransferDto {
    /// The transaction info this movement shows to the subject account.
    pub fn to_transfer(&self, safe: &str) -> (r: TransactionInfo)
        ensures
            transfer_info_rel(*self, safe@, r),
    {
        match self {
            TransferDto::Ether(t) => TransactionInfo::Transfer(t.to_transfer_transaction(safe)),
            TransferDto::Erc20(t) => TransactionInfo::Transfer(t.to_transfer_transaction(safe)),
            TransferDto::Erc721(t) => TransactionInfo::Transfer(t.to_transfer_transaction(safe)),
            TransferDto::Unknown => TransactionInfo::Unknown,
        }
    }
}

} // verus!
