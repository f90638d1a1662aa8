//! The access-control handler: the entry points that create a configuration
//! record and hand its administration over.
//!
//! Each entry point validates first and writes last, so a refused request
//! leaves the record exactly as it found it.

use vstd::prelude::*;
use crate::account::{AccountInfo, Signer};
use crate::config::Config;
use crate::error::ErrorCode;
use crate::identity::Identity;
use crate::model::{
    initialize_record, initialize_result, update_admin_record, update_admin_result,
};

verus! {

/// The accounts of a request to create a record.
#[derive(Debug)]
pub struct Initialize {
    /// The record to create.
    pub config: Config,
    /// Who asks for the creation. Being a [`Signer`], the caller is known to
    /// have signed the request.
    pub signer: Signer,
}

/// The accounts of a request to hand a record over to a new administrator.
#[derive(Clone, Copy, Debug)]
pub struct UpdateAdmin {
    /// The record whose administrator is to change.
    pub config: Config,
    /// The account that the caller presents as the current administrator.
    /// It is a bare reference: naming the administrator is open to anybody,
    /// and whether the administrator signed is still to be checked.
    pub old_admin: AccountInfo,
}

/// Decides whether `claimed` may act as the administrator of `config`, and
/// returns the evidence if so.
///
/// Two checks are made, in this order. The reference must name the
/// administrator stored in the record, else the answer is
/// [`ErrorCode::InvalidAdmin`]. And it must carry the signed flag, else the
/// answer is [`ErrorCode::MissingAdminSignature`]. A record that was never
/// created has no administrator, so every reference fails the first check.
pub fn validate_admin(config: &Config, claimed: &AccountInfo) -> (authority: Result<
    Signer,
    ErrorCode,
>)
    ensures
        match authority {
            Ok(signer) => update_admin_result(config@, claimed.key@, claimed.is_signer) is Ok
                && signer.key() == claimed.key,
            Err(code) => update_admin_result(config@, claimed.key@, claimed.is_signer) == Err::<
                (),
                ErrorCode,
            >(code),
        },
{
    if !config.is_admin(&claimed.key) {
        return Err(ErrorCode::InvalidAdmin);
    }
    match Signer::try_from(claimed) {
        Some(signer) => Ok(signer),
        None => Err(ErrorCode::MissingAdminSignature),
    }
}

/// Creates the record and makes the caller its first administrator.
///
/// Creating a record twice is an error, not a no-op: on a record that was
/// created before, the answer is [`ErrorCode::AlreadyInitialized`] and the
/// record keeps its administrator. Any identity can become the first
/// administrator, the all-zero one included.
pub fn initialize(accounts: &mut Initialize) -> (result: Result<(), ErrorCode>)
    ensures
        result == initialize_result(old(accounts).config@),
        final(accounts).config@ == initialize_record(
            old(accounts).config@,
            old(accounts).signer.key()@,
        ),
        final(accounts).signer == old(accounts).signer,
        result is Err ==> *final(accounts) == *old(accounts),
{
    accounts.config.create(&accounts.signer)
}

/// Hands the record over to `new_admin`, provided that the current
/// administrator asks for it.
///
/// The request is refused with [`ErrorCode::InvalidAdmin`] unless
/// `old_admin` names the administrator stored in the record, and with
/// [`ErrorCode::MissingAdminSignature`] unless that administrator signed
/// the request. A refused request does not touch the record.
///
/// Nothing is asked of `new_admin`: handing the record over to its current
/// administrator succeeds and changes nothing, and the all-zero identity is
/// accepted like any other.
pub fn update_admin(accounts: &mut UpdateAdmin, new_admin: Identity) -> (result: Result<
    (),
    ErrorCode,
>)
    ensures
        result == update_admin_result(
            old(accounts).config@,
            old(accounts).old_admin.key@,
            old(accounts).old_admin.is_signer,
        ),
        final(accounts).config@ == update_admin_record(
            old(accounts).config@,
            old(accounts).old_admin.key@,
            old(accounts).old_admin.is_signer,
            new_admin@,
        ),
        final(accounts).old_admin == old(accounts).old_admin,
        result is Err ==> *final(accounts) == *old(accounts),
{
    match validate_admin(&accounts.config, &accounts.old_admin) {
        Ok(authority) => accounts.config.transfer(&authority, new_admin),
        Err(code) => Err(code),
    }
}

} // verus!
