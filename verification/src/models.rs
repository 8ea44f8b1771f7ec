//! The data model: common backend structures, the client-facing service
//! model, and the backend transaction payloads.

pub mod backend;
pub mod commons;
pub mod service;
