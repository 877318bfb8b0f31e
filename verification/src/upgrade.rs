//! Authorization of a replacement of the program. The owner and the guardian
//! must both co-sign; what is then asked of the loader is put together here,
//! and sent by the caller.

use vstd::prelude::*;
use crate::contexts::Upgrade;
use crate::error::ErrorCode;
use crate::identity::Identity;
use crate::model;
use crate::signers::co_signers;

verus! {

/// The instruction of the loader that replaces a program.
pub const UPGRADE_OPCODE: u8 = 3;

/// An account as an instruction refers to it.
#[derive(Clone, Copy, Debug, PartialEq, Eq)]
pub struct AccountReference {
    pub key: Identity,
    pub is_signer: bool,
    pub is_writable: bool,
}

impl AccountReference {
    /// A reference to an account that the instruction may write to.
    pub open spec fn writable_spec(key: Identity, is_signer: bool) -> AccountReference {
        AccountReference { key, is_signer, is_writable: true }
    }

    /// A reference to an account that the instruction only reads.
    pub open spec fn readonly_spec(key: Identity, is_signer: bool) -> AccountReference {
        AccountReference { key, is_signer, is_writable: false }
    }

    /// A reference to an account that the instruction may write to.
    pub fn writable(key: Identity, is_signer: bool) -> (r: AccountReference)
        ensures
            r == AccountReference::writable_spec(key, is_signer),
    {
        AccountReference { key, is_signer, is_writable: true }
    }

    /// A reference to an account that the instruction only reads.
    pub fn readonly(key: Identity, is_signer: bool) -> (r: AccountReference)
        ensures
            r == AccountReference::readonly_spec(key, is_signer),
    {
        AccountReference { key, is_signer, is_writable: false }
    }
}

/// What is asked of the loader: the program to call, the accounts it is
/// handed, in order, and the bytes of the instruction.
#[derive(Clone, Debug, PartialEq, Eq)]
pub struct UpgradeInstruction {
    pub program_id: Identity,
    pub accounts: Vec<AccountReference>,
    pub data: Vec<u8>,
}

/// The accounts that the loader is handed for an upgrade, in order: the
/// program, its data and the buffer with the new code, all writable; then the
/// upgrade authority, as a signer, and the rent, clock, token program and
/// system program accounts, all read only.
pub open spec fn upgrade_accounts(ctx: Upgrade) -> Seq<AccountReference> {
    seq![
        AccountReference::writable_spec(ctx.program, false),
        AccountReference::writable_spec(ctx.program_data, false),
        AccountReference::writable_spec(ctx.buffer, false),
        AccountReference::readonly_spec(ctx.upgrade_authority.key, true),
        AccountReference::readonly_spec(ctx.rent, false),
        AccountReference::readonly_spec(ctx.clock, false),
        AccountReference::readonly_spec(ctx.spl_token_program, false),
        AccountReference::readonly_spec(ctx.system_program, false),
    ]
}

/// Authorizes the replacement of the program: if the owner and the guardian
/// both co-signed, returns the instruction to send to the loader that the
/// request names; otherwise nothing is to be sent. The account record is not
/// touched either way.
pub fn upgrade(ctx: &Upgrade) -> (r: Result<UpgradeInstruction, ErrorCode>)
    ensures
        match model::upgrade(ctx.argent_account@, ctx.signers()) {
            Ok(_) => {
                &&& r matches Ok(instruction)
                &&& instruction.program_id == ctx.bpf_loader
                &&& instruction.accounts@ == upgrade_accounts(*ctx)
                &&& instruction.data@ == seq![UPGRADE_OPCODE]
            },
            Err(code) => r == Err::<UpgradeInstruction, ErrorCode>(code),
        },
{
    let signers = co_signers(&ctx.argent_account, Some(&ctx.owner), Some(&ctx.guardian));
    if !signers.has_both() {
        return Err(ErrorCode::NotEnoughApprovals);
    }
    let accounts = vec![
        AccountReference::writable(ctx.program, false),
        AccountReference::writable(ctx.program_data, false),
        AccountReference::writable(ctx.buffer, false),
        AccountReference::readonly(ctx.upgrade_authority.key, true),
        AccountReference::readonly(ctx.rent, false),
        AccountReference::readonly(ctx.clock, false),
        AccountReference::readonly(ctx.spl_token_program, false),
        AccountReference::readonly(ctx.system_program, false),
    ];
    let data = vec![UPGRADE_OPCODE];
    proof {
        assert(accounts@ =~= upgrade_accounts(*ctx));
        assert(data@ =~= seq![UPGRADE_OPCODE]);
    }
    Ok(UpgradeInstruction { program_id: ctx.bpf_loader, accounts, data })
}

} // verus!
