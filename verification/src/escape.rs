//! The escape state machine: either credential may replace the other alone,
//! after the security period has passed since it announced so.
//!
//! Each operation that depends on the time comes twice. The one that ends in
//! `_at` takes the time as an argument, and its contract is exact. The other
//! reads the clock first and then does the same; its contract says what holds
//! whatever the clock returned.

use vstd::prelude::*;
use anchor_lang::prelude::Clock;
use anchor_lang::prelude::ProgramError;
use anchor_lang::prelude::SolanaSysvar;
use crate::account::conforms;
use crate::account::ArgentAccount;
use crate::account::EscapeType;
use crate::contexts::CancelEscape;
use crate::contexts::EscapeGuardian;
use crate::contexts::EscapeOwner;
use crate::contexts::TriggerEscapeGuardian;
use crate::contexts::TriggerEscapeOwner;
use crate::error::ErrorCode;
use crate::error::EscapeError;
use crate::identity::Identity;
use crate::model;
use crate::model::AccountState;
use crate::signers::co_signers;

verus! {

/// Calls `Clock::get` of the runtime and hands back the `unix_timestamp` of
/// the clock it returns, or its error. Nothing is claimed of the result: the
/// time is whatever the runtime reports, and the call fails where no runtime
/// answers it.
#[verifier::external_body]
fn clock_unix_timestamp() -> (r: Result<i64, ProgramError>) {
    Clock::get().map(|clock| clock.unix_timestamp)
}

/// The time of the runtime's clock, in seconds since the epoch. The only
/// error is that the clock could not be read.
pub fn current_time() -> (r: Result<i64, EscapeError>)
    ensures
        r matches Err(error) ==> error is ClockUnavailable,
{
    match clock_unix_timestamp() {
        Ok(now) => Ok(now),
        Err(error) => Err(EscapeError::ClockUnavailable(error)),
    }
}

/// Whether an operation that reads the clock itself did what the model asks
/// for. `outcome` gives the model's outcome at each time. If the clock could
/// not be read, the record is as it was. Otherwise there is a time, the one
/// that the clock gave, at which the model's outcome is the result returned
/// and the record after the call.
pub open spec fn conforms_at_clock_time(
    outcome: spec_fn(int) -> Result<AccountState, ErrorCode>,
    result: Result<(), EscapeError>,
    before: ArgentAccount,
    after: ArgentAccount,
) -> bool {
    match result {
        Err(EscapeError::ClockUnavailable(_)) => after == before,
        Err(EscapeError::Rejected(code)) => exists|now: i64|
            conforms(#[trigger] outcome(now as int), Err(code), before, after),
        Ok(()) => exists|now: i64| conforms(#[trigger] outcome(now as int), Ok(()), before, after),
    }
}

/// Starts the replacement of the guardian at time `now`, if the owner
/// co-signed. No state forbids it: an escape of the owner that is under way
/// is abandoned, and an escape of the guardian is restarted at `now`.
pub fn trigger_escape_guardian_at(ctx: &mut TriggerEscapeGuardian, now: i64) -> (r: Result<
    (),
    ErrorCode,
>)
    ensures
        conforms(
            model::trigger_escape_guardian(old(ctx).argent_account@, old(ctx).signers(), now as int),
            r,
            old(ctx).argent_account,
            final(ctx).argent_account,
        ),
        final(ctx).owner == old(ctx).owner,
        old(ctx).argent_account.escape_consistent() && now != 0 ==> final(ctx).argent_account.escape_consistent(),
{
    let signers = co_signers(&ctx.argent_account, Some(&ctx.owner), None);
    if !signers.owner_signed {
        return Err(ErrorCode::NotEnoughApprovals);
    }
    ctx.argent_account.escape_type = EscapeType::Guardian;
    ctx.argent_account.escape_initiated_at = now;
    Ok(())
}

/// Starts the replacement of the owner at time `now`, if the guardian
/// co-signed and the owner is not replacing the guardian. An escape of the
/// owner that is under way is restarted at `now`.
pub fn trigger_escape_owner_at(ctx: &mut TriggerEscapeOwner, now: i64) -> (r: Result<
    (),
    ErrorCode,
>)
    ensures
        conforms(
            model::trigger_escape_owner(old(ctx).argent_account@, old(ctx).signers(), now as int),
            r,
            old(ctx).argent_account,
            final(ctx).argent_account,
        ),
        final(ctx).guardian == old(ctx).guardian,
        old(ctx).argent_account.escape_consistent() && now != 0 ==> final(ctx).argent_account.escape_consistent(),
{
    let signers = co_signers(&ctx.argent_account, None, Some(&ctx.guardian));
    if !signers.guardian_signed {
        return Err(ErrorCode::NotEnoughApprovals);
    }
    if !ctx.argent_account.escape_type.can_trigger(&EscapeType::Owner) {
        return Err(ErrorCode::EscapeGuardianInProgress);
    }
    ctx.argent_account.escape_type = EscapeType::Owner;
    ctx.argent_account.escape_initiated_at = now;
    Ok(())
}

/// Completes the replacement of the guardian at time `now`: if the owner
/// co-signed, the owner is replacing the guardian, and the security period
/// has passed since the trigger, `new_guardian` becomes the guardian and no
/// escape is under way any more.
pub fn escape_guardian_at(ctx: &mut EscapeGuardian, new_guardian: Identity, now: i64) -> (r: Result<
    (),
    ErrorCode,
>)
    ensures
        conforms(
            model::escape_guardian(
                old(ctx).argent_account@,
                old(ctx).signers(),
                now as int,
                new_guardian@,
            ),
            r,
            old(ctx).argent_account,
            final(ctx).argent_account,
        ),
        final(ctx).owner == old(ctx).owner,
        old(ctx).argent_account.escape_consistent() ==> final(ctx).argent_account.escape_consistent(),
{
    let signers = co_signers(&ctx.argent_account, Some(&ctx.owner), None);
    if !signers.owner_signed {
        return Err(ErrorCode::NotEnoughApprovals);
    }
    if ctx.argent_account.escape_type != EscapeType::Guardian {
        return Err(ErrorCode::InvalidEscapeType);
    }
    if !ctx.argent_account.period_elapsed(now) {
        return Err(ErrorCode::SecurityPeriodNotElapsed);
    }
    ctx.argent_account.guardian = new_guardian;
    ctx.argent_account.escape_type = EscapeType::Inactive;
    ctx.argent_account.escape_initiated_at = 0;
    Ok(())
}

/// Completes the replacement of the owner at time `now`: if the guardian
/// co-signed, the guardian is replacing the owner, and the security period
/// has passed since the trigger, `new_owner` becomes the owner and no escape
/// is under way any more.
pub fn escape_owner_at(ctx: &mut EscapeOwner, new_owner: Identity, now: i64) -> (r: Result<
    (),
    ErrorCode,
>)
    ensures
        conforms(
            model::escape_owner(
                old(ctx).argent_account@,
                old(ctx).signers(),
                now as int,
                new_owner@,
            ),
            r,
            old(ctx).argent_account,
            final(ctx).argent_account,
        ),
        final(ctx).guardian == old(ctx).guardian,
        old(ctx).argent_account.escape_consistent() ==> final(ctx).argent_account.escape_consistent(),
{
    let signers = co_signers(&ctx.argent_account, None, Some(&ctx.guardian));
    if !signers.guardian_signed {
        return Err(ErrorCode::NotEnoughApprovals);
    }
    if ctx.argent_account.escape_type != EscapeType::Owner {
        return Err(ErrorCode::InvalidEscapeType);
    }
    if !ctx.argent_account.period_elapsed(now) {
        return Err(ErrorCode::SecurityPeriodNotElapsed);
    }
    ctx.argent_account.owner = new_owner;
    ctx.argent_account.escape_type = EscapeType::Inactive;
    ctx.argent_account.escape_initiated_at = 0;
    Ok(())
}

/// Abandons the escape that is under way, if the owner and the guardian both
/// co-signed and there is one.
pub fn cancel_escape(ctx: &mut CancelEscape) -> (r: Result<(), ErrorCode>)
    ensures
        conforms(
            model::cancel_escape(old(ctx).argent_account@, old(ctx).signers()),
            r,
            old(ctx).argent_account,
            final(ctx).argent_account,
        ),
        final(ctx).owner == old(ctx).owner,
        final(ctx).guardian == old(ctx).guardian,
        old(ctx).argent_account.escape_consistent() ==> final(ctx).argent_account.escape_consistent(),
{
    let signers = co_signers(&ctx.argent_account, Some(&ctx.owner), Some(&ctx.guardian));
    if !signers.has_both() {
        return Err(ErrorCode::NotEnoughApprovals);
    }
    if ctx.argent_account.escape_type == EscapeType::Inactive {
        return Err(ErrorCode::NoEscapeInProgress);
    }
    ctx.argent_account.escape_type = EscapeType::Inactive;
    ctx.argent_account.escape_initiated_at = 0;
    Ok(())
}

/// Reads the clock, then starts the replacement of the guardian at that time
/// as [`trigger_escape_guardian_at`] does.
pub fn trigger_escape_guardian(ctx: &mut TriggerEscapeGuardian) -> (r: Result<(), EscapeError>)
    ensures
        conforms_at_clock_time(
            |now: int|
                model::trigger_escape_guardian(old(ctx).argent_account@, old(ctx).signers(), now),
            r,
            old(ctx).argent_account,
            final(ctx).argent_account,
        ),
        final(ctx).owner == old(ctx).owner,
{
    let ghost outcome = |now: int|
        model::trigger_escape_guardian(ctx.argent_account@, ctx.signers(), now);
    let now: i64 = current_time()?;
    let done = trigger_escape_guardian_at(ctx, now);
    assert(conforms(outcome(now as int), done, old(ctx).argent_account, ctx.argent_account));
    match done {
        Ok(()) => Ok(()),
        Err(code) => Err(EscapeError::Rejected(code)),
    }
}

/// Reads the clock, then starts the replacement of the owner at that time as
/// [`trigger_escape_owner_at`] does.
pub fn trigger_escape_owner(ctx: &mut TriggerEscapeOwner) -> (r: Result<(), EscapeError>)
    ensures
        conforms_at_clock_time(
            |now: int|
                model::trigger_escape_owner(old(ctx).argent_account@, old(ctx).signers(), now),
            r,
            old(ctx).argent_account,
            final(ctx).argent_account,
        ),
        final(ctx).guardian == old(ctx).guardian,
{
    let ghost outcome = |now: int|
        model::trigger_escape_owner(ctx.argent_account@, ctx.signers(), now);
    let now: i64 = current_time()?;
    let done = trigger_escape_owner_at(ctx, now);
    assert(conforms(outcome(now as int), done, old(ctx).argent_account, ctx.argent_account));
    match done {
        Ok(()) => Ok(()),
        Err(code) => Err(EscapeError::Rejected(code)),
    }
}

/// Reads the clock, then completes the replacement of the guardian at that
/// time as [`escape_guardian_at`] does.
pub fn escape_guardian(ctx: &mut EscapeGuardian, new_guardian: Identity) -> (r: Result<
    (),
    EscapeError,
>)
    ensures
        conforms_at_clock_time(
            |now: int|
                model::escape_guardian(
                    old(ctx).argent_account@,
                    old(ctx).signers(),
                    now,
                    new_guardian@,
                ),
            r,
            old(ctx).argent_account,
            final(ctx).argent_account,
        ),
        final(ctx).owner == old(ctx).owner,
{
    let ghost outcome = |now: int|
        model::escape_guardian(ctx.argent_account@, ctx.signers(), now, new_guardian@);
    let now: i64 = current_time()?;
    let done = escape_guardian_at(ctx, new_guardian, now);
    assert(conforms(outcome(now as int), done, old(ctx).argent_account, ctx.argent_account));
    match done {
        Ok(()) => Ok(()),
        Err(code) => Err(EscapeError::Rejected(code)),
    }
}

/// Reads the clock, then completes the replacement of the owner at that time
/// as [`escape_owner_at`] does.
pub fn escape_owner(ctx: &mut EscapeOwner, new_owner: Identity) -> (r: Result<(), EscapeError>)
    ensures
        conforms_at_clock_time(
            |now: int|
                model::escape_owner(
                    old(ctx).argent_account@,
                    old(ctx).signers(),
                    now,
                    new_owner@,
                ),
            r,
            old(ctx).argent_account,
            final(ctx).argent_account,
        ),
        final(ctx).guardian == old(ctx).guardian,
{
    let ghost outcome = |now: int|
        model::escape_owner(ctx.argent_account@, ctx.signers(), now, new_owner@);
    let now: i64 = current_time()?;
    let done = escape_owner_at(ctx, new_owner, now);
    assert(conforms(outcome(now as int), done, old(ctx).argent_account, ctx.argent_account));
    match done {
        Ok(()) => Ok(()),
        Err(code) => Err(EscapeError::Rejected(code)),
    }
}

} // verus!
