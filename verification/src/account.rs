//! The account record and its escape state.

use vstd::prelude::*;
use crate::error::ErrorCode;
use crate::identity::Identity;
use crate::model::created;
use crate::model::AccountState;
use crate::model::PendingTransactionView;
use crate::model::DEFAULT_SECURITY_PERIOD;

verus! {

/// The escape that is under way on an account, if any. `Guardian` means that
/// the owner is replacing the guardian, `Owner` that the guardian is replacing
/// the owner.
#[derive(Clone, Copy, PartialEq, Eq, Structural, Debug, Hash)]
pub enum EscapeType {
    Inactive,
    Guardian,
    Owner,
}

impl EscapeType {
    /// Whether an escape of direction `requested` may be triggered in this
    /// state. The owner may always start replacing the guardian; the guardian
    /// may start replacing the owner unless the owner is already replacing
    /// the guardian. `Inactive` is no direction.
    pub open spec fn admits(self, requested: EscapeType) -> bool {
        match (self, requested) {
            (EscapeType::Inactive, EscapeType::Guardian) => true,
            (EscapeType::Guardian, EscapeType::Guardian) => true,
            (EscapeType::Owner, EscapeType::Guardian) => true,
            (EscapeType::Inactive, EscapeType::Owner) => true,
            (EscapeType::Guardian, EscapeType::Owner) => false,
            (EscapeType::Owner, EscapeType::Owner) => true,
            (_, EscapeType::Inactive) => false,
        }
    }

    /// Whether triggering an escape of direction `requested` in this state
    /// abandons an escape of the other direction.
    pub open spec fn overridden_by(self, requested: EscapeType) -> bool {
        self == EscapeType::Owner && requested == EscapeType::Guardian
    }

    /// Whether an escape of direction `requested` may be triggered in this
    /// state.
    pub fn can_trigger(&self, requested: &EscapeType) -> (r: bool)
        ensures
            r == self.admits(*requested),
    {
        match (self, requested) {
            (EscapeType::Inactive, EscapeType::Guardian) => true,
            (EscapeType::Guardian, EscapeType::Guardian) => true,
            (EscapeType::Owner, EscapeType::Guardian) => true,
            (EscapeType::Inactive, EscapeType::Owner) => true,
            (EscapeType::Guardian, EscapeType::Owner) => false,
            (EscapeType::Owner, EscapeType::Owner) => true,
            (_, EscapeType::Inactive) => false,
        }
    }

    /// Whether triggering an escape of direction `requested` in this state
    /// abandons an escape of the other direction.
    pub fn is_overridden_by(&self, requested: &EscapeType) -> (r: bool)
        ensures
            r == self.overridden_by(*requested),
    {
        *self == EscapeType::Owner && *requested == EscapeType::Guardian
    }
}

/// A payload that the owner and the guardian have jointly approved. It is
/// recorded for a dispatcher outside this library; nothing here reads it.
#[derive(Clone, Debug, PartialEq, Eq)]
pub struct PendingTransaction {
    pub data: Vec<u8>,
    pub owner_approved: bool,
    pub guardian_approved: bool,
}

impl View for PendingTransaction {
    type V = PendingTransactionView;

    open spec fn view(&self) -> PendingTransactionView {
        PendingTransactionView {
            data: self.data@,
            owner_approved: self.owner_approved,
            guardian_approved: self.guardian_approved,
        }
    }
}

/// The record of a custody account.
#[derive(Clone, Debug, PartialEq, Eq)]
pub struct ArgentAccount {
    pub owner: Identity,
    pub guardian: Identity,
    pub guardian_backup: Option<Identity>,
    pub escape_type: EscapeType,
    pub escape_initiated_at: i64,
    pub security_period: i64,
    pub pending_tx: Option<PendingTransaction>,
}

impl View for ArgentAccount {
    type V = AccountState;

    open spec fn view(&self) -> AccountState {
        AccountState {
            owner: self.owner@,
            guardian: self.guardian@,
            guardian_backup: match self.guardian_backup {
                Some(backup) => Some(backup@),
                None => None,
            },
            escape_type: self.escape_type,
            escape_initiated_at: self.escape_initiated_at as int,
            security_period: self.security_period as int,
            pending_tx: match self.pending_tx {
                Some(pending) => Some(pending@),
                None => None,
            },
        }
    }
}

impl ArgentAccount {
    /// The invariant of the escape fields: the time of the trigger is zero
    /// exactly when no escape is under way.
    pub open spec fn escape_consistent(&self) -> bool {
        self@.escape_consistent()
    }

    /// Whether the waiting time of the escape is over at `now`. The difference
    /// of the two times is taken exactly, whatever their signs.
    pub fn period_elapsed(&self, now: i64) -> (r: bool)
        ensures
            r == self@.period_elapsed(now as int),
    {
        let elapsed: i128 = now as i128 - self.escape_initiated_at as i128;
        elapsed >= self.security_period as i128
    }
}

/// Whether a call did to a record what the model's outcome `expected` asks
/// for: on success the record after the call is the state that the model
/// gives; on an error that error is returned and the record is left exactly
/// as it was.
pub open spec fn conforms(
    expected: Result<AccountState, ErrorCode>,
    result: Result<(), ErrorCode>,
    before: ArgentAccount,
    after: ArgentAccount,
) -> bool {
    match expected {
        Ok(post) => result is Ok && after@ == post,
        Err(code) => result == Err::<(), ErrorCode>(code) && after == before,
    }
}

impl Default for ArgentAccount {
    /// A record with zero identities, no escape, nothing staged and the
    /// default security period.
    fn default() -> (r: ArgentAccount)
        ensures
            r@ == created(Seq::new(32, |i: int| 0u8), Seq::new(32, |i: int| 0u8), None),
            r.escape_consistent(),
    {
        let r = ArgentAccount {
            owner: Identity::new([0u8; 32]),
            guardian: Identity::new([0u8; 32]),
            guardian_backup: None,
            escape_type: EscapeType::Inactive,
            escape_initiated_at: 0,
            security_period: DEFAULT_SECURITY_PERIOD,
            pending_tx: None,
        };
        proof {
            assert(r.owner@ =~= Seq::new(32, |i: int| 0u8));
            assert(r.guardian@ =~= Seq::new(32, |i: int| 0u8));
        }
        r
    }
}

} // verus!
