//! Account references: what a request says about the accounts it names.
//!
//! Two capabilities are kept apart by type. An [`AccountInfo`] only names
//! an identity, which anybody can do since identities are public. A
//! [`Signer`] is evidence that the holder of the identity's private key
//! co-signed the request at hand.

use vstd::prelude::*;
use crate::identity::Identity;

verus! {

/// An identity-bearing reference: an account as the execution environment
/// hands it to the program for one request.
#[derive(Clone, Copy, Debug)]
pub struct AccountInfo {
    /// The identity that the reference names.
    pub key: Identity,
    /// Whether the holder of that identity's private key co-signed this
    /// request, as attested by the execution environment.
    pub is_signer: bool,
}

/// An authorized reference: an account known to have signed the request.
///
/// The only way to obtain one is [`Signer::try_from`], which looks at the
/// signed flag. Operations that change who administers a record ask for a
/// `Signer`, so the flag cannot be left unchecked.
#[derive(Debug)]
pub struct Signer {
    info: AccountInfo,
}

impl Signer {
    /// Every `Signer` wraps a reference that carries the signed flag.
    #[verifier::type_invariant]
    spec fn signed(self) -> bool {
        self.info.is_signer
    }

    /// The identity that signed.
    pub closed spec fn spec_key(&self) -> Identity {
        self.info.key
    }

    /// Upgrades a reference to an authorized one, if and only if it carries
    /// the signed flag.
    pub fn try_from(info: &AccountInfo) -> (signer: Option<Signer>)
        ensures
            signer is Some <==> info.is_signer,
            signer matches Some(s) ==> s.spec_key() == info.key,
    {
        if info.is_signer {
            Some(Signer { info: *info })
        } else {
            None
        }
    }

    /// The identity that signed.
    #[verifier::when_used_as_spec(spec_key)]
    pub fn key(&self) -> (key: Identity)
        ensures
            key == self.spec_key(),
    {
        self.info.key
    }

    /// The reference that was upgraded. It names the signer and carries the
    /// signed flag, whatever `Signer` this is.
    pub fn info(&self) -> (info: AccountInfo)
        ensures
            info.key == self.key(),
            info.is_signer,
    {
        proof {
            use_type_invariant(self);
        }
        self.info
    }
}

} // verus!
