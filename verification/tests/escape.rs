use multisig::cancel_escape;
use multisig::change_guardian;
use multisig::create;
use multisig::escape_guardian_at;
use multisig::escape_owner_at;
use multisig::trigger_escape_guardian_at;
use multisig::trigger_escape_owner_at;
use multisig::ArgentAccount;
use multisig::CancelEscape;
use multisig::ChangeGuardian;
use multisig::Create;
use multisig::ErrorCode;
use multisig::EscapeGuardian;
use multisig::EscapeOwner;
use multisig::EscapeType;
use multisig::Identity;
use multisig::SignerAccount;
use multisig::TriggerEscapeGuardian;
use multisig::TriggerEscapeOwner;

const T0: i64 = 1_700_000_000;

fn key(byte: u8) -> Identity {
    Identity::new([byte; 32])
}

fn signing(key: Identity) -> SignerAccount {
    SignerAccount { key, is_signer: true }
}

fn silent(key: Identity) -> SignerAccount {
    SignerAccount { key, is_signer: false }
}

fn new_account(owner: Identity, guardian: Identity, period: i64) -> ArgentAccount {
    let mut ctx = Create {
        argent_account: ArgentAccount::default(),
        payer: signing(key(99)),
        system_program: key(0),
    };
    assert_eq!(create(&mut ctx, owner, guardian, Some(period)), Ok(()));
    ctx.argent_account
}

fn escaping(owner: Identity, guardian: Identity, state: EscapeType, since: i64) -> ArgentAccount {
    let mut record = new_account(owner, guardian, 604800);
    record.escape_type = state;
    record.escape_initiated_at = since;
    record
}

#[test]
fn guardian_replaces_the_owner_after_the_period() {
    let (o1, g1, o2) = (key(1), key(2), key(3));
    let created = new_account(o1, g1, 604800);

    let mut trigger = TriggerEscapeOwner { argent_account: created, guardian: signing(g1) };
    assert_eq!(trigger_escape_owner_at(&mut trigger, T0), Ok(()));
    assert_eq!(trigger.argent_account.escape_type, EscapeType::Owner);
    assert_eq!(trigger.argent_account.escape_initiated_at, T0);

    let triggered = trigger.argent_account;
    let mut complete = EscapeOwner { argent_account: triggered.clone(), guardian: signing(g1) };
    assert_eq!(
        escape_owner_at(&mut complete, o2, T0 + 604799),
        Err(ErrorCode::SecurityPeriodNotElapsed)
    );
    assert_eq!(complete.argent_account, triggered);

    assert_eq!(escape_owner_at(&mut complete, o2, T0 + 604800), Ok(()));
    assert_eq!(complete.argent_account.owner, o2);
    assert_eq!(complete.argent_account.guardian, g1);
    assert_eq!(complete.argent_account.escape_type, EscapeType::Inactive);
    assert_eq!(complete.argent_account.escape_initiated_at, 0);
}

#[test]
fn owner_trigger_overrides_the_guardians_escape() {
    let (o1, g1, o2) = (key(1), key(2), key(3));
    let record = escaping(o1, g1, EscapeType::Owner, T0);

    let mut trigger = TriggerEscapeGuardian { argent_account: record, owner: signing(o1) };
    assert!(trigger.argent_account.escape_type.is_overridden_by(&EscapeType::Guardian));
    assert_eq!(trigger_escape_guardian_at(&mut trigger, T0 + 100), Ok(()));
    assert_eq!(trigger.argent_account.escape_type, EscapeType::Guardian);
    assert_eq!(trigger.argent_account.escape_initiated_at, T0 + 100);

    let overridden = trigger.argent_account;
    let mut complete = EscapeOwner { argent_account: overridden.clone(), guardian: signing(g1) };
    assert_eq!(
        escape_owner_at(&mut complete, o2, T0 + 100 + 604800),
        Err(ErrorCode::InvalidEscapeType)
    );
    assert_eq!(complete.argent_account, overridden);
}

#[test]
fn cancel_needs_both_and_an_escape() {
    let (o1, g1) = (key(1), key(2));

    let guarded = escaping(o1, g1, EscapeType::Guardian, T0);
    let mut ctx =
        CancelEscape { argent_account: guarded.clone(), owner: signing(o1), guardian: silent(g1) };
    assert_eq!(cancel_escape(&mut ctx), Err(ErrorCode::NotEnoughApprovals));
    assert_eq!(ctx.argent_account, guarded);

    let idle = new_account(o1, g1, 604800);
    let mut ctx =
        CancelEscape { argent_account: idle.clone(), owner: signing(o1), guardian: signing(g1) };
    assert_eq!(cancel_escape(&mut ctx), Err(ErrorCode::NoEscapeInProgress));
    assert_eq!(ctx.argent_account, idle);

    let mut ctx =
        CancelEscape { argent_account: guarded, owner: signing(o1), guardian: signing(g1) };
    assert_eq!(cancel_escape(&mut ctx), Ok(()));
    assert_eq!(ctx.argent_account.escape_type, EscapeType::Inactive);
    assert_eq!(ctx.argent_account.escape_initiated_at, 0);
    assert_eq!(ctx.argent_account.owner, o1);
    assert_eq!(ctx.argent_account.guardian, g1);
}

#[test]
fn cancel_ends_an_escape_of_the_owner_too() {
    let (o1, g1) = (key(1), key(2));
    let mut ctx = CancelEscape {
        argent_account: escaping(o1, g1, EscapeType::Owner, T0),
        owner: signing(o1),
        guardian: signing(g1),
    };
    assert_eq!(cancel_escape(&mut ctx), Ok(()));
    assert_eq!(ctx.argent_account, new_account(o1, g1, 604800));
}

#[test]
fn cancel_needs_both_signers() {
    let (o1, g1) = (key(1), key(2));
    for (owner_signs, guardian_signs) in [(false, false), (true, false), (false, true)] {
        let before = escaping(o1, g1, EscapeType::Owner, T0);
        let mut ctx = CancelEscape {
            argent_account: before.clone(),
            owner: SignerAccount { key: o1, is_signer: owner_signs },
            guardian: SignerAccount { key: g1, is_signer: guardian_signs },
        };
        assert_eq!(cancel_escape(&mut ctx), Err(ErrorCode::NotEnoughApprovals));
        assert_eq!(ctx.argent_account, before);
    }
}

#[test]
fn cancel_reports_missing_approvals_before_missing_escape() {
    let (o1, g1) = (key(1), key(2));
    let mut ctx = CancelEscape {
        argent_account: new_account(o1, g1, 604800),
        owner: silent(o1),
        guardian: signing(g1),
    };
    assert_eq!(cancel_escape(&mut ctx), Err(ErrorCode::NotEnoughApprovals));
}

#[test]
fn new_guardian_is_the_one_who_triggers() {
    let (o1, g1, g2) = (key(1), key(2), key(4));
    let mut change = ChangeGuardian {
        argent_account: new_account(o1, g1, 604800),
        owner: signing(o1),
        guardian: signing(g1),
    };
    assert_eq!(change_guardian(&mut change, g2), Ok(()));
    let changed = change.argent_account;

    let mut by_former =
        TriggerEscapeOwner { argent_account: changed.clone(), guardian: signing(g1) };
    assert_eq!(trigger_escape_owner_at(&mut by_former, T0), Err(ErrorCode::NotEnoughApprovals));
    assert_eq!(by_former.argent_account, changed);

    let mut by_new = TriggerEscapeOwner { argent_account: changed, guardian: signing(g2) };
    assert_eq!(trigger_escape_owner_at(&mut by_new, T0), Ok(()));
    assert_eq!(by_new.argent_account.escape_type, EscapeType::Owner);
    assert_eq!(by_new.argent_account.escape_initiated_at, T0);
    assert_eq!(by_new.argent_account.guardian, g2);
}

#[test]
fn guardian_trigger_is_blocked_by_the_owners_escape() {
    let (o1, g1) = (key(1), key(2));
    let before = escaping(o1, g1, EscapeType::Guardian, T0);
    let mut ctx = TriggerEscapeOwner { argent_account: before.clone(), guardian: signing(g1) };
    assert_eq!(
        trigger_escape_owner_at(&mut ctx, T0 + 5),
        Err(ErrorCode::EscapeGuardianInProgress)
    );
    assert_eq!(ctx.argent_account, before);
}

#[test]
fn trigger_guardian_from_each_state() {
    let (o1, g1) = (key(1), key(2));
    for state in [EscapeType::Inactive, EscapeType::Guardian, EscapeType::Owner] {
        let since = if state == EscapeType::Inactive { 0 } else { T0 };
        let mut ctx = TriggerEscapeGuardian {
            argent_account: escaping(o1, g1, state, since),
            owner: signing(o1),
        };
        assert_eq!(trigger_escape_guardian_at(&mut ctx, T0 + 9), Ok(()));
        assert_eq!(ctx.argent_account, escaping(o1, g1, EscapeType::Guardian, T0 + 9));
    }
}

#[test]
fn retrigger_restarts_the_waiting_time() {
    let (o1, g1, o2) = (key(1), key(2), key(3));
    let mut ctx = TriggerEscapeOwner {
        argent_account: escaping(o1, g1, EscapeType::Owner, T0),
        guardian: signing(g1),
    };
    assert_eq!(trigger_escape_owner_at(&mut ctx, T0 + 600000), Ok(()));
    assert_eq!(ctx.argent_account.escape_type, EscapeType::Owner);
    assert_eq!(ctx.argent_account.escape_initiated_at, T0 + 600000);

    let mut complete = EscapeOwner { argent_account: ctx.argent_account, guardian: signing(g1) };
    assert_eq!(
        escape_owner_at(&mut complete, o2, T0 + 604800),
        Err(ErrorCode::SecurityPeriodNotElapsed)
    );
    assert_eq!(escape_owner_at(&mut complete, o2, T0 + 600000 + 604800), Ok(()));
}

#[test]
fn triggers_need_their_signer() {
    let (o1, g1) = (key(1), key(2));
    let before = new_account(o1, g1, 604800);

    let mut ctx = TriggerEscapeGuardian { argent_account: before.clone(), owner: silent(o1) };
    assert_eq!(trigger_escape_guardian_at(&mut ctx, T0), Err(ErrorCode::NotEnoughApprovals));
    assert_eq!(ctx.argent_account, before);

    let mut ctx = TriggerEscapeGuardian { argent_account: before.clone(), owner: signing(g1) };
    assert_eq!(trigger_escape_guardian_at(&mut ctx, T0), Err(ErrorCode::NotEnoughApprovals));
    assert_eq!(ctx.argent_account, before);

    let mut ctx = TriggerEscapeOwner { argent_account: before.clone(), guardian: silent(g1) };
    assert_eq!(trigger_escape_owner_at(&mut ctx, T0), Err(ErrorCode::NotEnoughApprovals));
    assert_eq!(ctx.argent_account, before);

    let mut ctx = TriggerEscapeOwner { argent_account: before.clone(), guardian: signing(o1) };
    assert_eq!(trigger_escape_owner_at(&mut ctx, T0), Err(ErrorCode::NotEnoughApprovals));
    assert_eq!(ctx.argent_account, before);
}

#[test]
fn missing_signer_is_reported_before_the_blocked_trigger() {
    let (o1, g1) = (key(1), key(2));
    let mut ctx = TriggerEscapeOwner {
        argent_account: escaping(o1, g1, EscapeType::Guardian, T0),
        guardian: silent(g1),
    };
    assert_eq!(trigger_escape_owner_at(&mut ctx, T0), Err(ErrorCode::NotEnoughApprovals));
}

#[test]
fn owner_replaces_the_guardian_at_the_boundary() {
    let (o1, g1, g2) = (key(1), key(2), key(4));
    let triggered = escaping(o1, g1, EscapeType::Guardian, T0);
    let mut ctx = EscapeGuardian { argent_account: triggered.clone(), owner: signing(o1) };
    assert_eq!(
        escape_guardian_at(&mut ctx, g2, T0 + 604799),
        Err(ErrorCode::SecurityPeriodNotElapsed)
    );
    assert_eq!(ctx.argent_account, triggered);
    assert_eq!(escape_guardian_at(&mut ctx, g2, T0 + 604800), Ok(()));
    assert_eq!(ctx.argent_account.guardian, g2);
    assert_eq!(ctx.argent_account.owner, o1);
    assert_eq!(ctx.argent_account.escape_type, EscapeType::Inactive);
    assert_eq!(ctx.argent_account.escape_initiated_at, 0);
    assert_eq!(ctx.argent_account.security_period, 604800);
}

#[test]
fn completion_long_after_the_period_succeeds() {
    let (o1, g1, g2) = (key(1), key(2), key(4));
    let mut ctx = EscapeGuardian {
        argent_account: escaping(o1, g1, EscapeType::Guardian, T0),
        owner: signing(o1),
    };
    assert_eq!(escape_guardian_at(&mut ctx, g2, T0 + 10 * 604800), Ok(()));
    assert_eq!(ctx.argent_account.guardian, g2);
}

#[test]
fn completion_needs_the_matching_escape() {
    let (o1, g1, other) = (key(1), key(2), key(5));
    for (state, since) in [(EscapeType::Inactive, 0), (EscapeType::Owner, T0)] {
        let before = escaping(o1, g1, state, since);
        let mut ctx = EscapeGuardian { argent_account: before.clone(), owner: signing(o1) };
        assert_eq!(
            escape_guardian_at(&mut ctx, other, T0 + 604800),
            Err(ErrorCode::InvalidEscapeType)
        );
        assert_eq!(ctx.argent_account, before);
    }
    for (state, since) in [(EscapeType::Inactive, 0), (EscapeType::Guardian, T0)] {
        let before = escaping(o1, g1, state, since);
        let mut ctx = EscapeOwner { argent_account: before.clone(), guardian: signing(g1) };
        assert_eq!(
            escape_owner_at(&mut ctx, other, T0 + 604800),
            Err(ErrorCode::InvalidEscapeType)
        );
        assert_eq!(ctx.argent_account, before);
    }
}

#[test]
fn completion_needs_its_signer() {
    let (o1, g1, other) = (key(1), key(2), key(5));
    let before = escaping(o1, g1, EscapeType::Guardian, T0);
    let mut ctx = EscapeGuardian { argent_account: before.clone(), owner: silent(o1) };
    assert_eq!(
        escape_guardian_at(&mut ctx, other, T0 + 604800),
        Err(ErrorCode::NotEnoughApprovals)
    );
    assert_eq!(ctx.argent_account, before);

    let before = escaping(o1, g1, EscapeType::Owner, T0);
    let mut ctx = EscapeOwner { argent_account: before.clone(), guardian: signing(o1) };
    assert_eq!(
        escape_owner_at(&mut ctx, other, T0 + 604800),
        Err(ErrorCode::NotEnoughApprovals)
    );
    assert_eq!(ctx.argent_account, before);
}

#[test]
fn guardian_cannot_complete_the_owners_escape() {
    let (o1, g1, g2) = (key(1), key(2), key(4));
    let before = escaping(o1, g1, EscapeType::Guardian, T0);
    let mut ctx = EscapeGuardian { argent_account: before.clone(), owner: signing(g1) };
    assert_eq!(
        escape_guardian_at(&mut ctx, g2, T0 + 604800),
        Err(ErrorCode::NotEnoughApprovals)
    );
    assert_eq!(ctx.argent_account, before);
}

#[test]
fn elapsed_time_is_exact_at_the_ends_of_the_range() {
    let (o1, g1, g2) = (key(1), key(2), key(4));
    let mut record = escaping(o1, g1, EscapeType::Guardian, i64::MIN);
    record.security_period = i64::MAX;
    let mut ctx = EscapeGuardian { argent_account: record, owner: signing(o1) };
    assert_eq!(
        escape_guardian_at(&mut ctx, g2, -2),
        Err(ErrorCode::SecurityPeriodNotElapsed)
    );
    assert_eq!(escape_guardian_at(&mut ctx, g2, -1), Ok(()));

    let mut record = escaping(o1, g1, EscapeType::Guardian, i64::MAX);
    record.security_period = 1;
    let mut ctx = EscapeGuardian { argent_account: record, owner: signing(o1) };
    assert_eq!(
        escape_guardian_at(&mut ctx, g2, i64::MIN),
        Err(ErrorCode::SecurityPeriodNotElapsed)
    );
}

#[test]
fn clock_set_back_does_not_open_the_lock() {
    let (o1, g1, o2) = (key(1), key(2), key(3));
    let before = escaping(o1, g1, EscapeType::Owner, T0);
    let mut ctx = EscapeOwner { argent_account: before.clone(), guardian: signing(g1) };
    assert_eq!(
        escape_owner_at(&mut ctx, o2, T0 - 604800),
        Err(ErrorCode::SecurityPeriodNotElapsed)
    );
    assert_eq!(ctx.argent_account, before);
}

#[test]
fn escape_fields_stay_consistent() {
    let (o1, g1, g2) = (key(1), key(2), key(4));
    let consistent = |record: &ArgentAccount| {
        (record.escape_type == EscapeType::Inactive) == (record.escape_initiated_at == 0)
    };
    let record = new_account(o1, g1, 10);
    assert!(consistent(&record));

    let mut trigger = TriggerEscapeOwner { argent_account: record, guardian: signing(g1) };
    assert_eq!(trigger_escape_owner_at(&mut trigger, 5), Ok(()));
    assert!(consistent(&trigger.argent_account));

    let mut again =
        TriggerEscapeGuardian { argent_account: trigger.argent_account, owner: signing(o1) };
    assert_eq!(trigger_escape_guardian_at(&mut again, 7), Ok(()));
    assert!(consistent(&again.argent_account));

    let mut complete = EscapeGuardian { argent_account: again.argent_account, owner: signing(o1) };
    assert_eq!(escape_guardian_at(&mut complete, g2, 16), Err(ErrorCode::SecurityPeriodNotElapsed));
    assert!(consistent(&complete.argent_account));
    assert_eq!(escape_guardian_at(&mut complete, g2, 17), Ok(()));
    assert!(consistent(&complete.argent_account));

    let mut cancel = CancelEscape {
        argent_account: escaping(o1, g2, EscapeType::Owner, 3),
        owner: signing(o1),
        guardian: signing(g2),
    };
    assert_eq!(cancel_escape(&mut cancel), Ok(()));
    assert!(consistent(&cancel.argent_account));
}

#[test]
fn trigger_at_time_zero_records_zero() {
    let (o1, g1) = (key(1), key(2));
    let mut ctx =
        TriggerEscapeGuardian { argent_account: new_account(o1, g1, 604800), owner: signing(o1) };
    assert_eq!(trigger_escape_guardian_at(&mut ctx, 0), Ok(()));
    assert_eq!(ctx.argent_account.escape_type, EscapeType::Guardian);
    assert_eq!(ctx.argent_account.escape_initiated_at, 0);
}

#[test]
fn guard_table_of_the_triggers() {
    let idle = EscapeType::Inactive;
    let guardian = EscapeType::Guardian;
    let owner = EscapeType::Owner;
    assert!(idle.can_trigger(&guardian));
    assert!(guardian.can_trigger(&guardian));
    assert!(owner.can_trigger(&guardian));
    assert!(idle.can_trigger(&owner));
    assert!(!guardian.can_trigger(&owner));
    assert!(owner.can_trigger(&owner));
    assert!(!idle.can_trigger(&idle));
    assert!(!guardian.can_trigger(&idle));
    assert!(!owner.can_trigger(&idle));

    assert!(owner.is_overridden_by(&guardian));
    assert!(!idle.is_overridden_by(&guardian));
    assert!(!guardian.is_overridden_by(&guardian));
    assert!(!guardian.is_overridden_by(&owner));
    assert!(!owner.is_overridden_by(&owner));
}
