//! The mathematical model of a configuration record: its states, the
//! requests that reach it, and what each request does to it.
//!
//! Identities appear here as the sequence of their bytes, the view of an
//! [`crate::identity::Identity`].

use vstd::prelude::*;
use crate::error::ErrorCode;

verus! {

/// The state of a configuration record.
///
/// A record starts out uninitialized, is initialized once, and stays
/// initialized from then on; only the administrator it names can change.
pub enum RecordState {
    /// The record was allocated but never created: it names no administrator.
    Uninitialized,
    /// The record was created and names exactly one administrator.
    Initialized { admin: Seq<u8> },
}

/// A request, reduced to what the handler reads of it.
pub enum Request {
    /// `caller`, who signed, asks to create the record.
    Initialize { caller: Seq<u8> },
    /// Somebody presents `claimed` as the current administrator and asks to
    /// install `new_admin`; `signed` tells whether `claimed` signed.
    UpdateAdmin { claimed: Seq<u8>, signed: bool, new_admin: Seq<u8> },
}

/// What creating a record answers: success on a record that was never
/// created, a refusal on any other.
pub open spec fn initialize_result(record: RecordState) -> Result<(), ErrorCode> {
    if record is Uninitialized {
        Ok(())
    } else {
        Err(ErrorCode::AlreadyInitialized)
    }
}

/// The record after a request by `caller` to create it.
pub open spec fn initialize_record(record: RecordState, caller: Seq<u8>) -> RecordState {
    if initialize_result(record) is Ok {
        RecordState::Initialized { admin: caller }
    } else {
        record
    }
}

/// What a transfer answers when the caller presents the identity `claimed`
/// as the current administrator, and `signed` says whether that identity
/// signed the request.
///
/// The identity is compared first, so a wrong identity is reported as such
/// whether or not it signed. Naming the stored administrator is necessary
/// and not sufficient: the administrator's identity is public, its
/// signature is not.
pub open spec fn update_admin_result(record: RecordState, claimed: Seq<u8>, signed: bool) -> Result<
    (),
    ErrorCode,
> {
    if record != (RecordState::Initialized { admin: claimed }) {
        Err(ErrorCode::InvalidAdmin)
    } else if !signed {
        Err(ErrorCode::MissingAdminSignature)
    } else {
        Ok(())
    }
}

/// The record after a request to hand it over to `new_admin`.
pub open spec fn update_admin_record(
    record: RecordState,
    claimed: Seq<u8>,
    signed: bool,
    new_admin: Seq<u8>,
) -> RecordState {
    if update_admin_result(record, claimed, signed) is Ok {
        RecordState::Initialized { admin: new_admin }
    } else {
        record
    }
}

/// What one request answers.
pub open spec fn answer(record: RecordState, request: Request) -> Result<(), ErrorCode> {
    match request {
        Request::Initialize { .. } => initialize_result(record),
        Request::UpdateAdmin { claimed, signed, .. } => update_admin_result(
            record,
            claimed,
            signed,
        ),
    }
}

/// The record after one request.
pub open spec fn step(record: RecordState, request: Request) -> RecordState {
    match request {
        Request::Initialize { caller } => initialize_record(record, caller),
        Request::UpdateAdmin { claimed, signed, new_admin } => update_admin_record(
            record,
            claimed,
            signed,
            new_admin,
        ),
    }
}

/// The record after a series of requests, handled one after the other.
pub open spec fn run(record: RecordState, requests: Seq<Request>) -> RecordState
    decreases requests.len(),
{
    if requests.len() == 0 {
        record
    } else {
        step(run(record, requests.drop_last()), requests.last())
    }
}

/// Whether `request` is a transfer that names `admin` as the current
/// administrator and carries its signature.
pub open spec fn signed_by(request: Request, admin: Seq<u8>) -> bool {
    request matches Request::UpdateAdmin { claimed, signed, .. } && claimed == admin && signed
}

} // verus!
