//! The computation behind the service endpoints: URL building and request
//! shaping. The HTTP calls themselves live with the embedding
//! application.

pub mod chains;
pub mod hooks;
pub mod notifications;
