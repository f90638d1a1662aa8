//! The reasons for which a request is refused.

use vstd::prelude::*;

verus! {

/// Why a request was refused. Every refusal leaves the record as it was;
/// none can be retried without changing the request.
#[derive(Clone, Copy, Debug, PartialEq, Eq, Structural)]
pub enum ErrorCode {
    /// The identity presented as the current administrator is not the one
    /// stored in the record.
    InvalidAdmin,
    /// The record was created before; creation needs a fresh record.
    AlreadyInitialized,
    /// The stored administrator was named, but did not sign the request.
    MissingAdminSignature,
}

impl ErrorCode {
    /// The text that [`ErrorCode::message`] returns.
    pub open spec fn spec_message(self) -> Seq<char> {
        match self {
            ErrorCode::InvalidAdmin => "Invalid admin account provided."@,
            ErrorCode::AlreadyInitialized => "Config account is already initialized."@,
            ErrorCode::MissingAdminSignature => "Admin account did not sign the request."@,
        }
    }

    /// A sentence for the caller that says what was wrong with the request.
    pub fn message(&self) -> (text: &'static str)
        ensures
            text@ == self.spec_message(),
    {
        match self {
            ErrorCode::InvalidAdmin => "Invalid admin account provided.",
            ErrorCode::AlreadyInitialized => "Config account is already initialized.",
            ErrorCode::MissingAdminSignature => "Admin account did not sign the request.",
        }
    }
}

} // verus!
