//! Signer verification: which of the owner and the guardian co-signed a
//! request.

use vstd::prelude::*;
use crate::account::ArgentAccount;
use crate::identity::Identity;
use crate::identity::lemma_identity_by_bytes;
use crate::model::AccountState;

verus! {

/// An account that a request presents in the place of a signer: its identity,
/// and whether the signature layer found a valid signature of it on the
/// request.
#[derive(Clone, Copy, Debug, PartialEq, Eq)]
pub struct SignerAccount {
    pub key: Identity,
    pub is_signer: bool,
}

impl SignerAccount {
    /// Whether this account counts as a signature of `identity`.
    pub open spec fn signs_for(self, identity: Seq<u8>) -> bool {
        self.is_signer && self.key@ == identity
    }

    /// Whether this account signed the request and is `identity`.
    pub fn has_signed_as(&self, identity: &Identity) -> (r: bool)
        ensures
            r == self.signs_for(identity@),
    {
        proof {
            lemma_identity_by_bytes(self.key, *identity);
        }
        self.is_signer && self.key == *identity
    }
}

/// Which of the two credentials of an account co-signed a request.
#[derive(Clone, Copy, PartialEq, Eq, Structural, Debug)]
pub struct CoSigners {
    pub owner_signed: bool,
    pub guardian_signed: bool,
}

impl CoSigners {
    /// Whether the owner and the guardian both co-signed.
    pub open spec fn both(self) -> bool {
        self.owner_signed && self.guardian_signed
    }

    /// Whether the owner and the guardian both co-signed.
    pub fn has_both(&self) -> (r: bool)
        ensures
            r == self.both(),
    {
        self.owner_signed && self.guardian_signed
    }
}

/// Whether an account presented in a signer's place, if there is one, counts
/// as a signature of `identity`.
pub open spec fn signed_as(presented: Option<SignerAccount>, identity: Seq<u8>) -> bool {
    match presented {
        Some(signer) => signer.signs_for(identity),
        None => false,
    }
}

/// The co-signers of a request on `account` that presents `owner` in the
/// owner's place and `guardian` in the guardian's.
pub open spec fn co_signers_of(
    account: AccountState,
    owner: Option<SignerAccount>,
    guardian: Option<SignerAccount>,
) -> CoSigners {
    CoSigners {
        owner_signed: signed_as(owner, account.owner),
        guardian_signed: signed_as(guardian, account.guardian),
    }
}

/// Reports which of the owner and the guardian of `account` co-signed a
/// request. An account presented in a signer's place counts only if it signed
/// and is the identity that the record holds for that place; any other
/// identity counts for nothing, and is no error.
pub fn co_signers(
    account: &ArgentAccount,
    owner: Option<&SignerAccount>,
    guardian: Option<&SignerAccount>,
) -> (r: CoSigners)
    ensures
        r == co_signers_of(
            account@,
            match owner {
                Some(signer) => Some(*signer),
                None => None,
            },
            match guardian {
                Some(signer) => Some(*signer),
                None => None,
            },
        ),
{
    let owner_signed = match owner {
        Some(signer) => signer.has_signed_as(&account.owner),
        None => false,
    };
    let guardian_signed = match guardian {
        Some(signer) => signer.has_signed_as(&account.guardian),
        None => false,
    };
    CoSigners { owner_signed, guardian_signed }
}

} // verus!
