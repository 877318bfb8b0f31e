//! The requests: for each operation, the account it is addressed to and the
//! accounts presented with it.

use vstd::prelude::*;
use crate::account::ArgentAccount;
use crate::identity::Identity;
use crate::signers::co_signers_of;
use crate::signers::CoSigners;
use crate::signers::SignerAccount;

verus! {

/// A request to create an account record.
#[derive(Clone, Debug, PartialEq, Eq)]
pub struct Create {
    pub argent_account: ArgentAccount,
    pub payer: SignerAccount,
    pub system_program: Identity,
}

/// A request to stage a payload.
#[derive(Clone, Debug, PartialEq, Eq)]
pub struct Execute {
    pub argent_account: ArgentAccount,
    pub owner: SignerAccount,
    pub guardian: SignerAccount,
}

/// A request to replace the owner by agreement.
#[derive(Clone, Debug, PartialEq, Eq)]
pub struct ChangeOwner {
    pub argent_account: ArgentAccount,
    pub owner: SignerAccount,
    pub guardian: SignerAccount,
}

/// A request to replace the guardian by agreement.
#[derive(Clone, Debug, PartialEq, Eq)]
pub struct ChangeGuardian {
    pub argent_account: ArgentAccount,
    pub owner: SignerAccount,
    pub guardian: SignerAccount,
}

/// A request to set or clear the backup guardian.
#[derive(Clone, Debug, PartialEq, Eq)]
pub struct ChangeGuardianBackup {
    pub argent_account: ArgentAccount,
    pub owner: SignerAccount,
    pub guardian: SignerAccount,
}

/// The owner's request to start replacing the guardian.
#[derive(Clone, Debug, PartialEq, Eq)]
pub struct TriggerEscapeGuardian {
    pub argent_account: ArgentAccount,
    pub owner: SignerAccount,
}

/// The guardian's request to start replacing the owner.
#[derive(Clone, Debug, PartialEq, Eq)]
pub struct TriggerEscapeOwner {
    pub argent_account: ArgentAccount,
    pub guardian: SignerAccount,
}

/// The owner's request to complete the replacement of the guardian.
#[derive(Clone, Debug, PartialEq, Eq)]
pub struct EscapeGuardian {
    pub argent_account: ArgentAccount,
    pub owner: SignerAccount,
}

/// The guardian's request to complete the replacement of the owner.
#[derive(Clone, Debug, PartialEq, Eq)]
pub struct EscapeOwner {
    pub argent_account: ArgentAccount,
    pub guardian: SignerAccount,
}

/// A request to abandon the escape that is under way.
#[derive(Clone, Debug, PartialEq, Eq)]
pub struct CancelEscape {
    pub argent_account: ArgentAccount,
    pub owner: SignerAccount,
    pub guardian: SignerAccount,
}

/// A request to replace the program, with the accounts that the loader needs.
#[derive(Clone, Debug, PartialEq, Eq)]
pub struct Upgrade {
    pub argent_account: ArgentAccount,
    pub owner: SignerAccount,
    pub guardian: SignerAccount,
    pub program: Identity,
    pub program_data: Identity,
    pub buffer: Identity,
    pub upgrade_authority: SignerAccount,
    pub bpf_loader: Identity,
    pub rent: Identity,
    pub clock: Identity,
    pub spl_token_program: Identity,
    pub system_program: Identity,
}

impl Execute {
    /// The co-signers of this request.
    pub open spec fn signers(&self) -> CoSigners {
        co_signers_of(self.argent_account@, Some(self.owner), Some(self.guardian))
    }
}

impl ChangeOwner {
    /// The co-signers of this request.
    pub open spec fn signers(&self) -> CoSigners {
        co_signers_of(self.argent_account@, Some(self.owner), Some(self.guardian))
    }
}

impl ChangeGuardian {
    /// The co-signers of this request.
    pub open spec fn signers(&self) -> CoSigners {
        co_signers_of(self.argent_account@, Some(self.owner), Some(self.guardian))
    }
}

impl ChangeGuardianBackup {
    /// The co-signers of this request.
    pub open spec fn signers(&self) -> CoSigners {
        co_signers_of(self.argent_account@, Some(self.owner), Some(self.guardian))
    }
}

impl TriggerEscapeGuardian {
    /// The co-signers of this request: the guardian is not asked.
    pub open spec fn signers(&self) -> CoSigners {
        co_signers_of(self.argent_account@, Some(self.owner), None)
    }
}

impl TriggerEscapeOwner {
    /// The co-signers of this request: the owner is not asked.
    pub open spec fn signers(&self) -> CoSigners {
        co_signers_of(self.argent_account@, None, Some(self.guardian))
    }
}

impl EscapeGuardian {
    /// The co-signers of this request: the guardian is not asked.
    pub open spec fn signers(&self) -> CoSigners {
        co_signers_of(self.argent_account@, Some(self.owner), None)
    }
}

impl EscapeOwner {
    /// The co-signers of this request: the owner is not asked.
    pub open spec fn signers(&self) -> CoSigners {
        co_signers_of(self.argent_account@, None, Some(self.guardian))
    }
}

impl CancelEscape {
    /// The co-signers of this request.
    pub open spec fn signers(&self) -> CoSigners {
        co_signers_of(self.argent_account@, Some(self.owner), Some(self.guardian))
    }
}

impl Upgrade {
    /// The co-signers of this request.
    pub open spec fn signers(&self) -> CoSigners {
        co_signers_of(self.argent_account@, Some(self.owner), Some(self.guardian))
    }
}

} // verus!
