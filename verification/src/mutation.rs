//! Creation of an account, and the writes that the owner and the guardian
//! must co-sign.

use vstd::prelude::*;
use crate::account::conforms;
use crate::account::EscapeType;
use crate::account::PendingTransaction;
use crate::contexts::ChangeGuardian;
use crate::contexts::ChangeGuardianBackup;
use crate::contexts::ChangeOwner;
use crate::contexts::Create;
use crate::contexts::Execute;
use crate::error::ErrorCode;
use crate::identity::Identity;
use crate::model;
use crate::model::DEFAULT_SECURITY_PERIOD;
use crate::signers::co_signers;

verus! {

/// Number of bytes in the signature that a new owner presents.
pub const SIGNATURE_LEN: usize = 64;

/// The security period that a request for creation asks for, as the model
/// takes it.
pub open spec fn requested_period(security_period: Option<i64>) -> Option<int> {
    match security_period {
        Some(period) => Some(period as int),
        None => None,
    }
}

/// The backup guardian that a request names, as the model takes it.
pub open spec fn requested_backup(new_guardian_backup: Option<Identity>) -> Option<Seq<u8>> {
    match new_guardian_backup {
        Some(backup) => Some(backup@),
        None => None,
    }
}

/// Whether a signature holds a byte that is not zero. This stands in for a
/// proof of possession; it is no cryptographic check.
pub fn signature_provided(signature: &[u8; 64]) -> (r: bool)
    ensures
        r == !model::is_blank(signature@),
{
    let mut i: usize = 0;
    while i < SIGNATURE_LEN
        invariant
            0 <= i <= SIGNATURE_LEN,
            forall|j: int| 0 <= j < i ==> signature@[j] == 0,
        decreases SIGNATURE_LEN - i,
    {
        if signature[i] != 0 {
            return true;
        }
        i = i + 1;
    }
    false
}

/// Fills the record of a new account: the given owner and guardian, no backup
/// guardian, no escape, nothing staged, and the security period asked for or,
/// without one, the default of seven days. A security period that is not
/// above zero is refused and leaves the record as it was. Whether a record
/// for this pair exists already is for the storage to refuse before this is
/// called.
pub fn create(
    ctx: &mut Create,
    owner: Identity,
    guardian: Identity,
    security_period: Option<i64>,
) -> (r: Result<(), ErrorCode>)
    ensures
        conforms(
            model::create(owner@, guardian@, requested_period(security_period)),
            r,
            old(ctx).argent_account,
            final(ctx).argent_account,
        ),
        r is Ok <==> model::valid_period(requested_period(security_period)),
        r is Ok ==> final(ctx).argent_account.security_period > 0,
        r is Ok ==> final(ctx).argent_account.escape_consistent(),
        final(ctx).payer == old(ctx).payer,
        final(ctx).system_program == old(ctx).system_program,
{
    let period: i64 = match security_period {
        Some(period) => period,
        None => DEFAULT_SECURITY_PERIOD,
    };
    if period <= 0 {
        return Err(ErrorCode::InvalidSecurityPeriod);
    }
    ctx.argent_account.owner = owner;
    ctx.argent_account.guardian = guardian;
    ctx.argent_account.guardian_backup = None;
    ctx.argent_account.escape_type = EscapeType::Inactive;
    ctx.argent_account.escape_initiated_at = 0;
    ctx.argent_account.security_period = period;
    ctx.argent_account.pending_tx = None;
    Ok(())
}

/// Stages `data` on the account, if the owner and the guardian both
/// co-signed: the payload replaces whatever was staged, marked as approved by
/// both. Nothing is dispatched.
pub fn execute(ctx: &mut Execute, data: Vec<u8>) -> (r: Result<(), ErrorCode>)
    ensures
        conforms(
            model::execute(old(ctx).argent_account@, old(ctx).signers(), data@),
            r,
            old(ctx).argent_account,
            final(ctx).argent_account,
        ),
        final(ctx).owner == old(ctx).owner,
        final(ctx).guardian == old(ctx).guardian,
        old(ctx).argent_account.escape_consistent() ==> final(ctx).argent_account.escape_consistent(),
{
    let signers = co_signers(&ctx.argent_account, Some(&ctx.owner), Some(&ctx.guardian));
    if !signers.has_both() {
        return Err(ErrorCode::NotEnoughApprovals);
    }
    ctx.argent_account.pending_tx = Some(
        PendingTransaction { data, owner_approved: true, guardian_approved: true },
    );
    Ok(())
}

/// Makes `new_owner` the owner, if the owner and the guardian both co-signed
/// and `new_owner_signature` is not blank. The escape state stays as it is.
pub fn change_owner(
    ctx: &mut ChangeOwner,
    new_owner: Identity,
    new_owner_signature: [u8; 64],
) -> (r: Result<(), ErrorCode>)
    ensures
        conforms(
            model::change_owner(
                old(ctx).argent_account@,
                old(ctx).signers(),
                new_owner@,
                new_owner_signature@,
            ),
            r,
            old(ctx).argent_account,
            final(ctx).argent_account,
        ),
        final(ctx).owner == old(ctx).owner,
        final(ctx).guardian == old(ctx).guardian,
        old(ctx).argent_account.escape_consistent() ==> final(ctx).argent_account.escape_consistent(),
{
    let signers = co_signers(&ctx.argent_account, Some(&ctx.owner), Some(&ctx.guardian));
    if !signers.has_both() {
        return Err(ErrorCode::NotEnoughApprovals);
    }
    if !signature_provided(&new_owner_signature) {
        return Err(ErrorCode::InvalidSignature);
    }
    ctx.argent_account.owner = new_owner;
    Ok(())
}

/// Makes `new_guardian` the guardian, if the owner and the guardian both
/// co-signed. The backup guardian and the escape state stay as they are.
pub fn change_guardian(ctx: &mut ChangeGuardian, new_guardian: Identity) -> (r: Result<
    (),
    ErrorCode,
>)
    ensures
        conforms(
            model::change_guardian(old(ctx).argent_account@, old(ctx).signers(), new_guardian@),
            r,
            old(ctx).argent_account,
            final(ctx).argent_account,
        ),
        final(ctx).owner == old(ctx).owner,
        final(ctx).guardian == old(ctx).guardian,
        old(ctx).argent_account.escape_consistent() ==> final(ctx).argent_account.escape_consistent(),
{
    let signers = co_signers(&ctx.argent_account, Some(&ctx.owner), Some(&ctx.guardian));
    if !signers.has_both() {
        return Err(ErrorCode::NotEnoughApprovals);
    }
    ctx.argent_account.guardian = new_guardian;
    Ok(())
}

/// Sets the backup guardian, or clears it, if the owner and the guardian both
/// co-signed.
pub fn change_guardian_backup(
    ctx: &mut ChangeGuardianBackup,
    new_guardian_backup: Option<Identity>,
) -> (r: Result<(), ErrorCode>)
    ensures
        conforms(
            model::change_guardian_backup(
                old(ctx).argent_account@,
                old(ctx).signers(),
                requested_backup(new_guardian_backup),
            ),
            r,
            old(ctx).argent_account,
            final(ctx).argent_account,
        ),
        final(ctx).owner == old(ctx).owner,
        final(ctx).guardian == old(ctx).guardian,
        old(ctx).argent_account.escape_consistent() ==> final(ctx).argent_account.escape_consistent(),
{
    let signers = co_signers(&ctx.argent_account, Some(&ctx.owner), Some(&ctx.guardian));
    if !signers.has_both() {
        return Err(ErrorCode::NotEnoughApprovals);
    }
    ctx.argent_account.guardian_backup = new_guardian_backup;
    Ok(())
}

} // verus!
