//! The mathematical model of an account and of the operations on it.
//!
//! An account is modelled by [`AccountState`]: identities are byte sequences,
//! times are unbounded integers. Each operation is a function from the state
//! before, the co-signers of the request and, where it reads the clock, the
//! time, to the state after or to the error with which the request is
//! rejected. The contracts of the executable operations refer to these
//! functions.

use vstd::prelude::*;
use crate::account::EscapeType;
use crate::error::ErrorCode;
use crate::signers::CoSigners;

verus! {

/// The security period of an account created without one: seven days, in
/// seconds.
pub const DEFAULT_SECURITY_PERIOD: i64 = 604800;

/// Model of a staged payload.
pub struct PendingTransactionView {
    pub data: Seq<u8>,
    pub owner_approved: bool,
    pub guardian_approved: bool,
}

/// Model of an account record.
pub struct AccountState {
    pub owner: Seq<u8>,
    pub guardian: Seq<u8>,
    pub guardian_backup: Option<Seq<u8>>,
    pub escape_type: EscapeType,
    pub escape_initiated_at: int,
    pub security_period: int,
    pub pending_tx: Option<PendingTransactionView>,
}

impl AccountState {
    /// The invariant of the escape fields: the time of the trigger is zero
    /// exactly when no escape is under way.
    pub open spec fn escape_consistent(self) -> bool {
        (self.escape_type == EscapeType::Inactive) <==> (self.escape_initiated_at == 0)
    }

    /// The time that has passed at `now` since the escape was triggered.
    pub open spec fn elapsed(self, now: int) -> int {
        now - self.escape_initiated_at
    }

    /// Whether the waiting time of the escape is over at `now`.
    pub open spec fn period_elapsed(self, now: int) -> bool {
        self.elapsed(now) >= self.security_period
    }

    /// This state with an escape of the given direction triggered at `now`.
    pub open spec fn escaping(self, direction: EscapeType, now: int) -> AccountState {
        AccountState { escape_type: direction, escape_initiated_at: now, ..self }
    }

    /// This state with no escape under way.
    pub open spec fn settled(self) -> AccountState {
        AccountState { escape_type: EscapeType::Inactive, escape_initiated_at: 0, ..self }
    }
}

/// The security period of a new account: the one asked for, or the default.
pub open spec fn period_or_default(security_period: Option<int>) -> int {
    match security_period {
        Some(period) => period,
        None => DEFAULT_SECURITY_PERIOD as int,
    }
}

/// Whether an account may be created with this security period: one that is
/// asked for must be above zero, or an escape could be completed in the
/// second in which it was triggered.
pub open spec fn valid_period(security_period: Option<int>) -> bool {
    match security_period {
        Some(period) => period > 0,
        None => true,
    }
}

/// The state of an account right after its creation.
pub open spec fn created(owner: Seq<u8>, guardian: Seq<u8>, security_period: Option<int>) -> AccountState {
    AccountState {
        owner,
        guardian,
        guardian_backup: None,
        escape_type: EscapeType::Inactive,
        escape_initiated_at: 0,
        security_period: period_or_default(security_period),
        pending_tx: None,
    }
}

/// Creating an account: a security period that is not above zero is refused;
/// otherwise the new account is in the state [`created`].
pub open spec fn create(owner: Seq<u8>, guardian: Seq<u8>, security_period: Option<int>) -> Result<
    AccountState,
    ErrorCode,
> {
    if !valid_period(security_period) {
        Err(ErrorCode::InvalidSecurityPeriod)
    } else {
        Ok(created(owner, guardian, security_period))
    }
}

/// A signature that proves nothing: every byte of it is zero.
pub open spec fn is_blank(signature: Seq<u8>) -> bool {
    forall|i: int| 0 <= i < signature.len() ==> signature[i] == 0
}

/// Staging a payload: both co-signers are needed; the payload replaces
/// whatever was staged, with both approvals set.
pub open spec fn execute(pre: AccountState, signers: CoSigners, data: Seq<u8>) -> Result<
    AccountState,
    ErrorCode,
> {
    if !signers.both() {
        Err(ErrorCode::NotEnoughApprovals)
    } else {
        Ok(
            AccountState {
                pending_tx: Some(
                    PendingTransactionView { data, owner_approved: true, guardian_approved: true },
                ),
                ..pre
            },
        )
    }
}

/// Replacing the owner by agreement: both co-signers are needed, and a
/// signature of the new owner that is not blank.
pub open spec fn change_owner(
    pre: AccountState,
    signers: CoSigners,
    new_owner: Seq<u8>,
    new_owner_signature: Seq<u8>,
) -> Result<AccountState, ErrorCode> {
    if !signers.both() {
        Err(ErrorCode::NotEnoughApprovals)
    } else if is_blank(new_owner_signature) {
        Err(ErrorCode::InvalidSignature)
    } else {
        Ok(AccountState { owner: new_owner, ..pre })
    }
}

/// Replacing the guardian by agreement: both co-signers are needed.
pub open spec fn change_guardian(pre: AccountState, signers: CoSigners, new_guardian: Seq<u8>) -> Result<
    AccountState,
    ErrorCode,
> {
    if !signers.both() {
        Err(ErrorCode::NotEnoughApprovals)
    } else {
        Ok(AccountState { guardian: new_guardian, ..pre })
    }
}

/// Setting or clearing the backup guardian: both co-signers are needed.
pub open spec fn change_guardian_backup(
    pre: AccountState,
    signers: CoSigners,
    new_guardian_backup: Option<Seq<u8>>,
) -> Result<AccountState, ErrorCode> {
    if !signers.both() {
        Err(ErrorCode::NotEnoughApprovals)
    } else {
        Ok(AccountState { guardian_backup: new_guardian_backup, ..pre })
    }
}

/// The owner starts replacing the guardian. Only the owner is needed, and no
/// state forbids it: an escape of the owner that is under way is abandoned,
/// one of the guardian is restarted.
pub open spec fn trigger_escape_guardian(pre: AccountState, signers: CoSigners, now: int) -> Result<
    AccountState,
    ErrorCode,
> {
    if !signers.owner_signed {
        Err(ErrorCode::NotEnoughApprovals)
    } else {
        Ok(pre.escaping(EscapeType::Guardian, now))
    }
}

/// The guardian starts replacing the owner. Only the guardian is needed, but
/// the request is refused while the owner is replacing the guardian.
pub open spec fn trigger_escape_owner(pre: AccountState, signers: CoSigners, now: int) -> Result<
    AccountState,
    ErrorCode,
> {
    if !signers.guardian_signed {
        Err(ErrorCode::NotEnoughApprovals)
    } else if !pre.escape_type.admits(EscapeType::Owner) {
        Err(ErrorCode::EscapeGuardianInProgress)
    } else {
        Ok(pre.escaping(EscapeType::Owner, now))
    }
}

/// The owner completes the replacement of the guardian, once the security
/// period has passed since the trigger.
pub open spec fn escape_guardian(
    pre: AccountState,
    signers: CoSigners,
    now: int,
    new_guardian: Seq<u8>,
) -> Result<AccountState, ErrorCode> {
    if !signers.owner_signed {
        Err(ErrorCode::NotEnoughApprovals)
    } else if pre.escape_type != EscapeType::Guardian {
        Err(ErrorCode::InvalidEscapeType)
    } else if !pre.period_elapsed(now) {
        Err(ErrorCode::SecurityPeriodNotElapsed)
    } else {
        Ok(AccountState { guardian: new_guardian, ..pre.settled() })
    }
}

/// The guardian completes the replacement of the owner, once the security
/// period has passed since the trigger.
pub open spec fn escape_owner(
    pre: AccountState,
    signers: CoSigners,
    now: int,
    new_owner: Seq<u8>,
) -> Result<AccountState, ErrorCode> {
    if !signers.guardian_signed {
        Err(ErrorCode::NotEnoughApprovals)
    } else if pre.escape_type != EscapeType::Owner {
        Err(ErrorCode::InvalidEscapeType)
    } else if !pre.period_elapsed(now) {
        Err(ErrorCode::SecurityPeriodNotElapsed)
    } else {
        Ok(AccountState { owner: new_owner, ..pre.settled() })
    }
}

/// Abandoning the escape that is under way: both co-signers are needed.
pub open spec fn cancel_escape(pre: AccountState, signers: CoSigners) -> Result<
    AccountState,
    ErrorCode,
> {
    if !signers.both() {
        Err(ErrorCode::NotEnoughApprovals)
    } else if pre.escape_type == EscapeType::Inactive {
        Err(ErrorCode::NoEscapeInProgress)
    } else {
        Ok(pre.settled())
    }
}

/// Authorizing the replacement of the program: both co-signers are needed,
/// and the account stays as it is.
pub open spec fn upgrade(pre: AccountState, signers: CoSigners) -> Result<AccountState, ErrorCode> {
    if !signers.both() {
        Err(ErrorCode::NotEnoughApprovals)
    } else {
        Ok(pre)
    }
}

/// What a request asks for.
pub enum Operation {
    Execute { data: Seq<u8> },
    ChangeOwner { new_owner: Seq<u8>, new_owner_signature: Seq<u8> },
    ChangeGuardian { new_guardian: Seq<u8> },
    ChangeGuardianBackup { new_guardian_backup: Option<Seq<u8>> },
    TriggerEscapeGuardian,
    TriggerEscapeOwner,
    EscapeGuardian { new_guardian: Seq<u8> },
    EscapeOwner { new_owner: Seq<u8> },
    CancelEscape,
    Upgrade,
}

impl Operation {
    /// The operations that need the owner and the guardian together.
    pub open spec fn needs_both(self) -> bool {
        match self {
            Operation::Execute { .. } => true,
            Operation::ChangeOwner { .. } => true,
            Operation::ChangeGuardian { .. } => true,
            Operation::ChangeGuardianBackup { .. } => true,
            Operation::CancelEscape => true,
            Operation::Upgrade => true,
            _ => false,
        }
    }

    /// The operations that start an escape.
    pub open spec fn is_trigger(self) -> bool {
        self is TriggerEscapeGuardian || self is TriggerEscapeOwner
    }
}

/// A request as the controller sees it: who co-signed, what the clock says,
/// and what is asked for.
pub struct Call {
    pub signers: CoSigners,
    pub now: int,
    pub operation: Operation,
}

/// The outcome of one request on one account.
pub open spec fn step(pre: AccountState, call: Call) -> Result<AccountState, ErrorCode> {
    match call.operation {
        Operation::Execute { data } => execute(pre, call.signers, data),
        Operation::ChangeOwner { new_owner, new_owner_signature } => change_owner(
            pre,
            call.signers,
            new_owner,
            new_owner_signature,
        ),
        Operation::ChangeGuardian { new_guardian } => change_guardian(pre, call.signers, new_guardian),
        Operation::ChangeGuardianBackup { new_guardian_backup } => change_guardian_backup(
            pre,
            call.signers,
            new_guardian_backup,
        ),
        Operation::TriggerEscapeGuardian => trigger_escape_guardian(pre, call.signers, call.now),
        Operation::TriggerEscapeOwner => trigger_escape_owner(pre, call.signers, call.now),
        Operation::EscapeGuardian { new_guardian } => escape_guardian(
            pre,
            call.signers,
            call.now,
            new_guardian,
        ),
        Operation::EscapeOwner { new_owner } => escape_owner(pre, call.signers, call.now, new_owner),
        Operation::CancelEscape => cancel_escape(pre, call.signers),
        Operation::Upgrade => upgrade(pre, call.signers),
    }
}

/// The account after one request: a rejected request leaves it as it was.
pub open spec fn after(pre: AccountState, call: Call) -> AccountState {
    match step(pre, call) {
        Ok(post) => post,
        Err(_) => pre,
    }
}

/// The account after a series of requests, served in order.
pub open spec fn run(start: AccountState, calls: Seq<Call>) -> AccountState
    decreases calls.len(),
{
    if calls.len() == 0 {
        start
    } else {
        after(run(start, calls.drop_last()), calls.last())
    }
}

} // verus!
