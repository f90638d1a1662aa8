//! The configuration record and its two states.

use vstd::prelude::*;
use crate::account::Signer;
use crate::error::ErrorCode;
use crate::identity::Identity;
use crate::model::{
    initialize_record, initialize_result, update_admin_record, update_admin_result, RecordState,
};

verus! {

/// A configuration record: the identity of its administrator, once it has
/// one.
///
/// The field is private. Outside this module the administrator changes only
/// through [`Config::create`] and [`Config::transfer`], both of which ask
/// for a [`Signer`].
#[derive(Clone, Copy, Debug)]
pub struct Config {
    admin: Option<Identity>,
}

impl View for Config {
    type V = RecordState;

    closed spec fn view(&self) -> RecordState {
        match self.admin {
            None => RecordState::Uninitialized,
            Some(admin) => RecordState::Initialized { admin: admin@ },
        }
    }
}

impl Config {
    /// A record that was allocated and not yet created.
    pub fn uninitialized() -> (config: Config)
        ensures
            config@ == RecordState::Uninitialized,
    {
        Config { admin: None }
    }

    /// A record as it is read back from storage after its creation, naming
    /// `admin` as its administrator.
    pub fn initialized(admin: Identity) -> (config: Config)
        ensures
            config@ == (RecordState::Initialized { admin: admin@ }),
    {
        Config { admin: Some(admin) }
    }

    /// Whether the record was created.
    pub fn is_initialized(&self) -> (created: bool)
        ensures
            created == (self@ is Initialized),
    {
        self.admin.is_some()
    }

    /// The administrator that the record names, if it was created.
    pub fn admin(&self) -> (admin: Option<Identity>)
        ensures
            match admin {
                Some(id) => self@ == (RecordState::Initialized { admin: id@ }),
                None => self@ == RecordState::Uninitialized,
            },
    {
        self.admin
    }

    /// Whether `key` is the administrator that the record names. No identity
    /// administers a record that was not created.
    pub fn is_admin(&self, key: &Identity) -> (named: bool)
        ensures
            named == (self@ == (RecordState::Initialized { admin: key@ })),
    {
        match &self.admin {
            Some(admin) => *admin == *key,
            None => false,
        }
    }

    /// Creates the record on behalf of `creator`, who becomes its first
    /// administrator. A record that was created before is refused with
    /// [`ErrorCode::AlreadyInitialized`] and not touched.
    pub fn create(&mut self, creator: &Signer) -> (result: Result<(), ErrorCode>)
        ensures
            result == initialize_result(old(self)@),
            final(self)@ == initialize_record(old(self)@, creator.key()@),
            result is Err ==> *final(self) == *old(self),
    {
        if self.admin.is_some() {
            return Err(ErrorCode::AlreadyInitialized);
        }
        self.admin = Some(creator.key());
        Ok(())
    }

    /// Hands the record over from `authority` to `new_admin`. Unless
    /// `authority` is the administrator that the record names, the request is
    /// refused with [`ErrorCode::InvalidAdmin`] and the record not touched.
    ///
    /// Since `authority` is a [`Signer`], the signature is not in question
    /// here: the answer is that of a transfer whose reference is signed.
    pub fn transfer(&mut self, authority: &Signer, new_admin: Identity) -> (result: Result<
        (),
        ErrorCode,
    >)
        ensures
            result == update_admin_result(old(self)@, authority.key()@, true),
            final(self)@ == update_admin_record(old(self)@, authority.key()@, true, new_admin@),
            result is Err ==> *final(self) == *old(self),
    {
        let key = authority.key();
        if !self.is_admin(&key) {
            return Err(ErrorCode::InvalidAdmin);
        }
        self.admin = Some(new_admin);
        Ok(())
    }
}

} // verus!
