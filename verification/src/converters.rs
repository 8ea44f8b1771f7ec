//! Conversions from backend payloads to the client-facing service model.

pub mod data_decoded;
pub mod details;
pub mod page_metadata;
pub mod transactions;
pub mod transfers;
