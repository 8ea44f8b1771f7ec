//! The error taxonomy surfaced by the gateway core.

use vstd::prelude::*;

verus! {

/// A failure surfaced to a caller of the gateway core.
///
/// `Transport` is a connection or timeout failure raised before any HTTP
/// status was known; `Upstream` carries a 4xx/5xx status and body from the
/// indexing service; `Serialization` covers malformed cached values and
/// failed encodes or decodes of computed responses; `Computation` is the
/// failure of a supplied compute step, opaque to the cache layer.
#[derive(Debug, Clone, PartialEq, Eq)]
pub enum ApiError {
    Transport { details: String },
    Upstream { status: u16, body: String },
    Serialization { details: String },
    Computation { details: String },
}

impl ApiError {
    /// A short display of the error, with the upstream status and body kept.
    pub fn message(&self) -> (r: String)
        ensures
            self matches ApiError::Upstream { body, .. } ==> r@ == body@,
            self matches ApiError::Transport { details } ==> r@ == details@,
            self matches ApiError::Serialization { details } ==> r@ == details@,
            self matches ApiError::Computation { details } ==> r@ == details@,
    {
        match self {
            ApiError::Transport { details } => details.clone(),
            ApiError::Upstream { status: _, body } => body.clone(),
            ApiError::Serialization { details } => details.clone(),
            ApiError::Computation { details } => details.clone(),
        }
    }
}

/// Whether a result is the upstream error with exactly this status and body.
pub open spec fn is_upstream_err(r: Result<String, ApiError>, status: u16, body: Seq<char>) -> bool {
    match r {
        Err(ApiError::Upstream { status: s, body: b }) => s == status && b@ == body,
        _ => false,
    }
}

/// Whether a result is the transport error with exactly these details.
pub open spec fn is_transport_err(r: Result<String, ApiError>, details: Seq<char>) -> bool {
    match r {
        Err(ApiError::Transport { details: d }) => d@ == details,
        _ => false,
    }
}

pub type ApiResult<T> = Result<T, ApiError>;

} // verus!
