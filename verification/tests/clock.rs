use anchor_lang::prelude::ProgramError;
use multisig::current_time;
use multisig::escape_guardian;
use multisig::escape_owner;
use multisig::trigger_escape_guardian;
use multisig::trigger_escape_owner;
use multisig::ArgentAccount;
use multisig::EscapeError;
use multisig::EscapeGuardian;
use multisig::EscapeOwner;
use multisig::EscapeType;
use multisig::Identity;
use multisig::SignerAccount;
use multisig::TriggerEscapeGuardian;
use multisig::TriggerEscapeOwner;

fn party(byte: u8) -> Identity {
    Identity::new([byte; 32])
}

fn record(state: EscapeType, since: i64) -> ArgentAccount {
    ArgentAccount {
        owner: party(1),
        guardian: party(2),
        guardian_backup: None,
        escape_type: state,
        escape_initiated_at: since,
        security_period: 604800,
        pending_tx: None,
    }
}

fn no_clock() -> EscapeError {
    EscapeError::ClockUnavailable(ProgramError::UnsupportedSysvar)
}

#[test]
fn clock_cannot_be_read_off_chain() {
    assert_eq!(current_time(), Err(no_clock()));
}

#[test]
fn trigger_guardian_without_a_clock_changes_nothing() {
    let before = record(EscapeType::Inactive, 0);
    let mut ctx = TriggerEscapeGuardian {
        argent_account: before.clone(),
        owner: SignerAccount { key: party(1), is_signer: true },
    };
    assert_eq!(trigger_escape_guardian(&mut ctx), Err(no_clock()));
    assert_eq!(ctx.argent_account, before);
}

#[test]
fn trigger_owner_without_a_clock_changes_nothing() {
    let before = record(EscapeType::Inactive, 0);
    let mut ctx = TriggerEscapeOwner {
        argent_account: before.clone(),
        guardian: SignerAccount { key: party(2), is_signer: true },
    };
    assert_eq!(trigger_escape_owner(&mut ctx), Err(no_clock()));
    assert_eq!(ctx.argent_account, before);
}

#[test]
fn escape_guardian_without_a_clock_changes_nothing() {
    let before = record(EscapeType::Guardian, 1);
    let mut ctx = EscapeGuardian {
        argent_account: before.clone(),
        owner: SignerAccount { key: party(1), is_signer: true },
    };
    assert_eq!(escape_guardian(&mut ctx, party(4)), Err(no_clock()));
    assert_eq!(ctx.argent_account, before);
}

#[test]
fn escape_owner_without_a_clock_changes_nothing() {
    let before = record(EscapeType::Owner, 1);
    let mut ctx = EscapeOwner {
        argent_account: before.clone(),
        guardian: SignerAccount { key: party(2), is_signer: true },
    };
    assert_eq!(escape_owner(&mut ctx, party(3)), Err(no_clock()));
    assert_eq!(ctx.argent_account, before);
}

#[test]
fn clock_failure_comes_before_the_signer_check() {
    let mut ctx = TriggerEscapeGuardian {
        argent_account: record(EscapeType::Inactive, 0),
        owner: SignerAccount { key: party(1), is_signer: false },
    };
    assert_eq!(trigger_escape_guardian(&mut ctx), Err(no_clock()));
}
