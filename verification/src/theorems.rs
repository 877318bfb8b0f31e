//! What holds of the operations taken together, proved from the model that
//! their contracts refer to.

use vstd::prelude::*;
use crate::account::EscapeType;
use crate::error::ErrorCode;
use crate::model::after;
use crate::model::cancel_escape;
use crate::model::change_guardian;
use crate::model::create;
use crate::model::created;
use crate::model::escape_guardian;
use crate::model::escape_owner;
use crate::model::run;
use crate::model::step;
use crate::model::trigger_escape_guardian;
use crate::model::trigger_escape_owner;
use crate::model::valid_period;
use crate::model::AccountState;
use crate::model::Call;
use crate::signers::co_signers_of;
use crate::signers::CoSigners;
use crate::signers::SignerAccount;

verus! {

/// Whether `call` starts an escape on `pre` while the clock reads zero. Such
/// a request succeeds like any other trigger, and records a time of zero for
/// an escape that is under way.
pub open spec fn triggers_at_zero(pre: AccountState, call: Call) -> bool {
    call.operation.is_trigger() && call.now == 0 && step(pre, call) is Ok
}

/// Whether no request of `calls`, served in order from `start`, starts an
/// escape while the clock reads zero.
pub open spec fn no_trigger_at_zero(start: AccountState, calls: Seq<Call>) -> bool {
    forall|i: int|
        0 <= i < calls.len() ==> !triggers_at_zero(run(start, calls.take(i)), #[trigger] calls[i])
}

/// A new account has no escape under way and a trigger time of zero.
pub proof fn theorem_created_is_consistent(
    owner: Seq<u8>,
    guardian: Seq<u8>,
    security_period: Option<int>,
)
    ensures
        created(owner, guardian, security_period).escape_consistent(),
{
}

/// One request keeps the invariant of the escape fields, whether it succeeds
/// or not, unless it starts an escape while the clock reads zero; such a
/// request breaks it.
pub proof fn theorem_step_keeps_consistency(pre: AccountState, call: Call)
    requires
        pre.escape_consistent(),
    ensures
        after(pre, call).escape_consistent() <==> !triggers_at_zero(pre, call),
{
}

/// In every state that an account reaches from its creation by any series of
/// requests, the trigger time is zero exactly when no escape is under way,
/// provided that no escape was started while the clock read zero.
pub proof fn theorem_reachable_states_are_consistent(
    owner: Seq<u8>,
    guardian: Seq<u8>,
    security_period: Option<int>,
    calls: Seq<Call>,
)
    requires
        no_trigger_at_zero(created(owner, guardian, security_period), calls),
    ensures
        run(created(owner, guardian, security_period), calls).escape_consistent(),
    decreases calls.len(),
{
    let start = created(owner, guardian, security_period);
    if calls.len() > 0 {
        let earlier = calls.drop_last();
        assert forall|i: int| 0 <= i < earlier.len() implies !triggers_at_zero(
            run(start, earlier.take(i)),
            #[trigger] earlier[i],
        ) by {
            assert(earlier.take(i) =~= calls.take(i));
            assert(earlier[i] == calls[i]);
        }
        theorem_reachable_states_are_consistent(owner, guardian, security_period, earlier);
        let last = calls.len() - 1;
        assert(calls.take(last) =~= earlier);
        assert(!triggers_at_zero(run(start, calls.take(last)), calls[last]));
        theorem_step_keeps_consistency(run(start, earlier), calls.last());
    }
}

/// An operation that needs the owner and the guardian together is rejected
/// for want of approvals whenever one of them, or both, did not co-sign, and
/// leaves the account as it was.
pub proof fn theorem_dual_gate(pre: AccountState, call: Call)
    requires
        call.operation.needs_both(),
        !(call.signers.owner_signed && call.signers.guardian_signed),
    ensures
        step(pre, call) == Err::<AccountState, ErrorCode>(ErrorCode::NotEnoughApprovals),
        after(pre, call) == pre,
{
}

/// The owner completes the replacement of the guardian exactly when the owner
/// co-signed, that escape is the one under way, and the security period has
/// passed since its trigger. The same holds of the guardian and the
/// replacement of the owner.
pub proof fn theorem_completion_conditions(
    pre: AccountState,
    signers: CoSigners,
    now: int,
    successor: Seq<u8>,
)
    ensures
        escape_guardian(pre, signers, now, successor) is Ok <==> signers.owner_signed
            && pre.escape_type == EscapeType::Guardian && now - pre.escape_initiated_at
            >= pre.security_period,
        escape_owner(pre, signers, now, successor) is Ok <==> signers.guardian_signed
            && pre.escape_type == EscapeType::Owner && now - pre.escape_initiated_at
            >= pre.security_period,
{
}

/// The time lock of the replacement of the guardian: the owner's request to
/// complete it is rejected as too early while less than the security period
/// has passed since the trigger, and succeeds from the very second at which
/// the period has passed.
pub proof fn theorem_time_lock_guardian(
    pre: AccountState,
    signers: CoSigners,
    now: int,
    new_guardian: Seq<u8>,
)
    requires
        signers.owner_signed,
        pre.escape_type == EscapeType::Guardian,
    ensures
        now - pre.escape_initiated_at < pre.security_period ==> escape_guardian(
            pre,
            signers,
            now,
            new_guardian,
        ) == Err::<AccountState, ErrorCode>(ErrorCode::SecurityPeriodNotElapsed),
        now - pre.escape_initiated_at == pre.security_period ==> escape_guardian(
            pre,
            signers,
            now,
            new_guardian,
        ) is Ok,
        now - pre.escape_initiated_at >= pre.security_period ==> escape_guardian(
            pre,
            signers,
            now,
            new_guardian,
        ) == Ok::<AccountState, ErrorCode>(
            AccountState {
                guardian: new_guardian,
                escape_type: EscapeType::Inactive,
                escape_initiated_at: 0,
                ..pre
            },
        ),
{
}

/// The time lock of the replacement of the owner: the guardian's request to
/// complete it is rejected as too early while less than the security period
/// has passed since the trigger, and succeeds from the very second at which
/// the period has passed.
pub proof fn theorem_time_lock_owner(
    pre: AccountState,
    signers: CoSigners,
    now: int,
    new_owner: Seq<u8>,
)
    requires
        signers.guardian_signed,
        pre.escape_type == EscapeType::Owner,
    ensures
        now - pre.escape_initiated_at < pre.security_period ==> escape_owner(
            pre,
            signers,
            now,
            new_owner,
        ) == Err::<AccountState, ErrorCode>(ErrorCode::SecurityPeriodNotElapsed),
        now - pre.escape_initiated_at == pre.security_period ==> escape_owner(
            pre,
            signers,
            now,
            new_owner,
        ) is Ok,
        now - pre.escape_initiated_at >= pre.security_period ==> escape_owner(
            pre,
            signers,
            now,
            new_owner,
        ) == Ok::<AccountState, ErrorCode>(
            AccountState {
                owner: new_owner,
                escape_type: EscapeType::Inactive,
                escape_initiated_at: 0,
                ..pre
            },
        ),
{
}

/// An account is created exactly when the security period asked for, if any,
/// is above zero; the new account then has a security period above zero.
pub proof fn theorem_creation_needs_a_period_above_zero(
    owner: Seq<u8>,
    guardian: Seq<u8>,
    security_period: Option<int>,
)
    ensures
        create(owner, guardian, security_period) is Ok <==> valid_period(security_period),
        security_period matches Some(period) && period <= 0 ==> create(
            owner,
            guardian,
            security_period,
        ) == Err::<AccountState, ErrorCode>(ErrorCode::InvalidSecurityPeriod),
        create(owner, guardian, security_period) matches Ok(start) ==> start == created(
            owner,
            guardian,
            security_period,
        ) && start.security_period > 0,
{
}

/// No request changes the security period of an account, whether it succeeds
/// or not.
pub proof fn theorem_step_keeps_the_period(pre: AccountState, call: Call)
    ensures
        after(pre, call).security_period == pre.security_period,
{
}

/// In every state that an account reaches from its creation by any series of
/// requests, the security period is the one it was created with, and above
/// zero.
pub proof fn theorem_reachable_states_keep_the_period(
    owner: Seq<u8>,
    guardian: Seq<u8>,
    security_period: Option<int>,
    calls: Seq<Call>,
)
    requires
        create(owner, guardian, security_period) is Ok,
    ensures
        run(created(owner, guardian, security_period), calls).security_period == created(
            owner,
            guardian,
            security_period,
        ).security_period,
        run(created(owner, guardian, security_period), calls).security_period > 0,
    decreases calls.len(),
{
    let start = created(owner, guardian, security_period);
    if calls.len() > 0 {
        theorem_reachable_states_keep_the_period(
            owner,
            guardian,
            security_period,
            calls.drop_last(),
        );
        theorem_step_keeps_the_period(run(start, calls.drop_last()), calls.last());
    }
}

/// In no state that an account reaches from its creation is an escape
/// completed in the second in which it was triggered, whoever asks.
pub proof fn theorem_no_instant_completion_once_created(
    owner: Seq<u8>,
    guardian: Seq<u8>,
    security_period: Option<int>,
    calls: Seq<Call>,
    signers: CoSigners,
    now: int,
    later_signers: CoSigners,
    successor: Seq<u8>,
)
    requires
        create(owner, guardian, security_period) is Ok,
    ensures
        trigger_escape_guardian(
            run(created(owner, guardian, security_period), calls),
            signers,
            now,
        ) matches Ok(triggered) ==> escape_guardian(triggered, later_signers, now, successor)
            is Err,
        trigger_escape_owner(
            run(created(owner, guardian, security_period), calls),
            signers,
            now,
        ) matches Ok(triggered) ==> escape_owner(triggered, later_signers, now, successor)
            is Err,
{
    theorem_reachable_states_keep_the_period(owner, guardian, security_period, calls);
    theorem_no_instant_completion(
        run(created(owner, guardian, security_period), calls),
        signers,
        now,
        later_signers,
        successor,
    );
}

/// With a security period above zero no escape is completed in the second in
/// which it was triggered, whoever asks.
pub proof fn theorem_no_instant_completion(
    pre: AccountState,
    signers: CoSigners,
    now: int,
    later_signers: CoSigners,
    successor: Seq<u8>,
)
    requires
        pre.security_period > 0,
    ensures
        trigger_escape_guardian(pre, signers, now) matches Ok(triggered) ==> escape_guardian(
            triggered,
            later_signers,
            now,
            successor,
        ) is Err,
        trigger_escape_owner(pre, signers, now) matches Ok(triggered) ==> escape_owner(
            triggered,
            later_signers,
            now,
            successor,
        ) is Err,
{
}

/// The owner has the last word. While the guardian is replacing the owner,
/// the owner's trigger succeeds: the owner is now replacing the guardian,
/// from `now` on, and the guardian's escape is abandoned. While the owner is
/// replacing the guardian, the guardian's trigger is refused.
pub proof fn theorem_priority_asymmetry(pre: AccountState, signers: CoSigners, now: int)
    ensures
        pre.escape_type == EscapeType::Owner && signers.owner_signed ==> trigger_escape_guardian(
            pre,
            signers,
            now,
        ) == Ok::<AccountState, ErrorCode>(
            AccountState { escape_type: EscapeType::Guardian, escape_initiated_at: now, ..pre },
        ),
        pre.escape_type == EscapeType::Guardian && signers.guardian_signed ==> trigger_escape_owner(
            pre,
            signers,
            now,
        ) == Err::<AccountState, ErrorCode>(ErrorCode::EscapeGuardianInProgress),
{
}

/// An escape that the owner's trigger has overridden cannot be completed: the
/// guardian's request to replace the owner is then refused at any time,
/// whoever signed it.
pub proof fn theorem_overridden_escape_is_abandoned(
    pre: AccountState,
    signers: CoSigners,
    now: int,
    later_signers: CoSigners,
    later: int,
    new_owner: Seq<u8>,
)
    requires
        signers.owner_signed,
    ensures
        trigger_escape_guardian(pre, signers, now) is Ok,
        escape_owner(
            trigger_escape_guardian(pre, signers, now)->Ok_0,
            later_signers,
            later,
            new_owner,
        ) is Err,
        later_signers.guardian_signed ==> escape_owner(
            trigger_escape_guardian(pre, signers, now)->Ok_0,
            later_signers,
            later,
            new_owner,
        ) == Err::<AccountState, ErrorCode>(ErrorCode::InvalidEscapeType),
{
}

/// Triggering again the escape that is under way is allowed, and restarts its
/// waiting time at `now`.
pub proof fn theorem_retrigger_restarts_the_clock(pre: AccountState, signers: CoSigners, now: int)
    ensures
        pre.escape_type == EscapeType::Guardian && signers.owner_signed ==> trigger_escape_guardian(
            pre,
            signers,
            now,
        ) == Ok::<AccountState, ErrorCode>(AccountState { escape_initiated_at: now, ..pre }),
        pre.escape_type == EscapeType::Owner && signers.guardian_signed ==> trigger_escape_owner(
            pre,
            signers,
            now,
        ) == Ok::<AccountState, ErrorCode>(AccountState { escape_initiated_at: now, ..pre }),
{
}

/// Cancelling needs both credentials and an escape under way; it then leaves
/// no escape under way, whichever direction it had.
pub proof fn theorem_cancel_conditions(pre: AccountState, signers: CoSigners)
    ensures
        cancel_escape(pre, signers) is Ok <==> signers.owner_signed && signers.guardian_signed
            && pre.escape_type != EscapeType::Inactive,
        cancel_escape(pre, signers) is Ok ==> cancel_escape(pre, signers)->Ok_0
            == (AccountState {
            escape_type: EscapeType::Inactive,
            escape_initiated_at: 0,
            ..pre
        }),
{
}

/// Once the guardian has been replaced by agreement, it is the new guardian
/// whose signature the guardian's trigger asks for. An account presented in
/// the guardian's place counts exactly when it signed and is the new
/// guardian; the former guardian, if it is another identity, is turned away
/// for want of approvals.
pub proof fn theorem_new_guardian_is_the_signer(
    pre: AccountState,
    signers: CoSigners,
    new_guardian: Seq<u8>,
    presented: SignerAccount,
    now: int,
)
    requires
        signers.owner_signed,
        signers.guardian_signed,
    ensures
        change_guardian(pre, signers, new_guardian) is Ok,
        ({
            let changed = change_guardian(pre, signers, new_guardian)->Ok_0;
            let later_signers = co_signers_of(changed, None, Some(presented));
            &&& later_signers.guardian_signed <==> presented.is_signer && presented.key@
                == new_guardian
            &&& presented.key@ == pre.guardian && pre.guardian != new_guardian
                ==> trigger_escape_owner(changed, later_signers, now) == Err::<
                AccountState,
                ErrorCode,
            >(ErrorCode::NotEnoughApprovals)
            &&& presented.is_signer && presented.key@ == new_guardian && pre.escape_type
                != EscapeType::Guardian ==> trigger_escape_owner(changed, later_signers, now)
                == Ok::<AccountState, ErrorCode>(
                AccountState { escape_type: EscapeType::Owner, escape_initiated_at: now, ..changed },
            )
        }),
{
}

} // verus!
