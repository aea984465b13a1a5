//! The error value that every handler failure turns into.
use vstd::prelude::*;

verus! {

/// Status sent for a request body or query that could not be read.
pub const STATUS_BAD_REQUEST: u16 = 400;

/// Status sent for every failure of the backend or the memory store.
pub const STATUS_INTERNAL_ERROR: u16 = 500;

/// A handler failure: its category and the message sent as the body.
#[derive(Debug)]
pub enum AppError {
    /// The client sent a payload that could not be decoded.
    Rejected(String),
    /// A collaborator failed: the store, the backend, the session or the turn.
    Failed(String),
}

impl AppError {
    pub open spec fn status_spec(&self) -> u16 {
        match self {
            AppError::Rejected(_) => STATUS_BAD_REQUEST,
            AppError::Failed(_) => STATUS_INTERNAL_ERROR,
        }
    }

    pub open spec fn message_spec(&self) -> Seq<char> {
        match self {
            AppError::Rejected(m) => m@,
            AppError::Failed(m) => m@,
        }
    }

    /// The HTTP status this error is answered with.
    pub fn status_code(&self) -> (r: u16)
        ensures
            r == self.status_spec(),
    {
        match self {
            AppError::Rejected(_) => STATUS_BAD_REQUEST,
            AppError::Failed(_) => STATUS_INTERNAL_ERROR,
        }
    }

    /// The text sent as the response body.
    pub fn message(&self) -> (r: String)
        ensures
            r@ == self.message_spec(),
    {
        match self {
            AppError::Rejected(m) => m.clone(),
            AppError::Failed(m) => m.clone(),
        }
    }
}

/// A payload that cannot be decoded is answered with a client-error status,
/// never with the status used for backend failures.
pub proof fn lemma_rejection_is_client_error(body: String, cause: String)
    ensures
        400 <= AppError::Rejected(body).status_spec() < 500,
        AppError::Rejected(body).status_spec() != AppError::Failed(cause).status_spec(),
{
}

} // verus!
