//! What the handler guarantees, proved of the model that its contracts are
//! stated over.
//!
//! The first lemmas speak of a single request. The last two speak of every
//! series of requests, and are what the module is for: a record never loses
//! its administrator, and nobody takes the administration over without the
//! administrator's signature.

use vstd::prelude::*;
use crate::error::ErrorCode;
use crate::model::{
    answer, initialize_record, initialize_result, run, signed_by, step, update_admin_record,
    update_admin_result, RecordState, Request,
};

verus! {

/// Creation installs the caller: on a record that was never created the
/// request succeeds, whoever the caller is, and the record then names the
/// caller as its administrator.
pub proof fn lemma_initialize_installs_caller(caller: Seq<u8>)
    ensures
        initialize_result(RecordState::Uninitialized) == Ok::<(), ErrorCode>(()),
        initialize_record(RecordState::Uninitialized, caller) == (RecordState::Initialized {
            admin: caller,
        }),
{
}

/// A record is created once: on a record that names an administrator,
/// creation is refused as already done and the record keeps that
/// administrator, whoever asks.
pub proof fn lemma_initialize_again_refused(record: RecordState, caller: Seq<u8>)
    requires
        record is Initialized,
    ensures
        initialize_result(record) == Err::<(), ErrorCode>(ErrorCode::AlreadyInitialized),
        initialize_record(record, caller) == record,
{
}

/// Of two creations in a row the first wins: the second is refused, and the
/// record names the first caller.
pub proof fn lemma_second_initialize_refused(first: Seq<u8>, second: Seq<u8>)
    ensures
        ({
            let created = initialize_record(RecordState::Uninitialized, first);
            &&& initialize_result(created) == Err::<(), ErrorCode>(ErrorCode::AlreadyInitialized)
            &&& initialize_record(created, second) == (RecordState::Initialized { admin: first })
        }),
{
}

/// A transfer that the administrator signed succeeds, and the record then
/// names the new administrator, whichever identity that is.
pub proof fn lemma_signed_transfer_succeeds(admin: Seq<u8>, new_admin: Seq<u8>)
    ensures
        update_admin_result(RecordState::Initialized { admin }, admin, true) == Ok::<
            (),
            ErrorCode,
        >(()),
        update_admin_record(RecordState::Initialized { admin }, admin, true, new_admin) == (
        RecordState::Initialized { admin: new_admin }),
{
}

/// A transfer that presents another identity than the administrator is
/// refused as naming the wrong administrator, signed or not, and the record
/// keeps its administrator.
pub proof fn lemma_wrong_identity_refused(
    admin: Seq<u8>,
    claimed: Seq<u8>,
    signed: bool,
    new_admin: Seq<u8>,
)
    requires
        claimed != admin,
    ensures
        update_admin_result(RecordState::Initialized { admin }, claimed, signed) == Err::<
            (),
            ErrorCode,
        >(ErrorCode::InvalidAdmin),
        update_admin_record(RecordState::Initialized { admin }, claimed, signed, new_admin) == (
        RecordState::Initialized { admin }),
{
}

/// Knowing the administrator's identity is not enough: a transfer that
/// names the administrator without its signature is refused for want of the
/// signature, and the record keeps its administrator.
pub proof fn lemma_unsigned_transfer_refused(admin: Seq<u8>, new_admin: Seq<u8>)
    ensures
        update_admin_result(RecordState::Initialized { admin }, admin, false) == Err::<
            (),
            ErrorCode,
        >(ErrorCode::MissingAdminSignature),
        update_admin_record(RecordState::Initialized { admin }, admin, false, new_admin) == (
        RecordState::Initialized { admin }),
{
}

/// All or nothing: a request that is refused, for whatever reason, leaves
/// the record exactly as it was.
pub proof fn lemma_refusal_keeps_record(record: RecordState, request: Request)
    requires
        answer(record, request) is Err,
    ensures
        step(record, request) == record,
{
}

/// The only request that changes the administrator of a created record is
/// a transfer that names the administrator and carries its signature.
pub proof fn lemma_change_needs_signature(admin: Seq<u8>, request: Request)
    requires
        step(RecordState::Initialized { admin }, request) != (RecordState::Initialized { admin }),
    ensures
        signed_by(request, admin),
{
}

/// Once created, always created: whatever requests follow, a record that
/// names an administrator goes on naming one.
pub proof fn lemma_initialized_forever(record: RecordState, requests: Seq<Request>)
    requires
        record is Initialized,
    ensures
        run(record, requests) is Initialized,
    decreases requests.len(),
{
    if requests.len() > 0 {
        lemma_initialized_forever(record, requests.drop_last());
    }
}

/// Nobody takes the administration over: through any series of requests of
/// which none is a transfer signed by the administrator, the record keeps
/// its administrator.
pub proof fn lemma_admin_kept_without_signature(admin: Seq<u8>, requests: Seq<Request>)
    requires
        forall|i: int| 0 <= i < requests.len() ==> !signed_by(#[trigger] requests[i], admin),
    ensures
        run(RecordState::Initialized { admin }, requests) == (RecordState::Initialized { admin }),
    decreases requests.len(),
{
    if requests.len() > 0 {
        let earlier = requests.drop_last();
        assert forall|i: int| 0 <= i < earlier.len() implies !signed_by(
            #[trigger] earlier[i],
            admin,
        ) by {
            assert(earlier[i] == requests[i]);
        }
        lemma_admin_kept_without_signature(admin, earlier);
        assert(!signed_by(requests[requests.len() - 1], admin));
    }
}

} // verus!
