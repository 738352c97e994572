use vstd::prelude::*;
use vstd::bytes::spec_u64_to_le_bytes;
use solana_account_view::AccountView;
use solana_instruction_view::cpi::Signer;
use crate::bytes::{push_bytes, push_u64_le};
use crate::cpi::{
    CpiAccount, CpiInstruction, CpiProgram, infos_of, instruction, readonly, readonly_meta,
    writable, writable_meta, writable_signer, writable_signer_meta,
};
use crate::error::SwapError;
use crate::runtime::{invoke, invoked_with};

verus! {

pub const UNITAS_VAULT_PROGRAM_ID: [u8; 32] = [7, 54, 209, 115, 54, 54, 171, 189, 208, 7, 7, 113, 193, 207, 11, 116, 123, 133, 84, 97, 6, 41, 165, 217, 23, 200, 102, 119, 42, 207, 138, 206];

pub const STAKE_USDU_MINT_SUSDU_DISCRIMINATOR: [u8; 8] = [20, 15, 120, 241, 40, 12, 245, 17];

pub struct UnitasVault;

pub struct UnitasVaultSwapAccounts<'info, A> {
    pub unitas_vault_program: &'info A,
    pub caller: &'info A,
    pub receiver: &'info A,
    pub receiver_susdu_token_account: &'info A,
    pub caller_usdu_token_account: &'info A,
    pub access_registry: &'info A,
    pub vault_stake_pool_usdu_token_account: &'info A,
    pub susdu_minter: &'info A,
    pub usdu_token: &'info A,
    pub susdu_token: &'info A,
    pub vault_state: &'info A,
    pub vault_config: &'info A,
    pub susdu_config: &'info A,
    pub susdu_program: &'info A,
    pub usdu_token_program: &'info A,
    pub susdu_token_program: &'info A,
    pub associated_token_program: &'info A,
    pub system_program: &'info A,
}

/// `c` holds the accounts of `s` in the order of its fields.
pub open spec fn unitas_vault_accounts_laid_out<'info, A>(c: UnitasVaultSwapAccounts<'info, A>, s: Seq<A>) -> bool {
    &&& *c.unitas_vault_program == s[0]
    &&& *c.caller == s[1]
    &&& *c.receiver == s[2]
    &&& *c.receiver_susdu_token_account == s[3]
    &&& *c.caller_usdu_token_account == s[4]
    &&& *c.access_registry == s[5]
    &&& *c.vault_stake_pool_usdu_token_account == s[6]
    &&& *c.susdu_minter == s[7]
    &&& *c.usdu_token == s[8]
    &&& *c.susdu_token == s[9]
    &&& *c.vault_state == s[10]
    &&& *c.vault_config == s[11]
    &&& *c.susdu_config == s[12]
    &&& *c.susdu_program == s[13]
    &&& *c.usdu_token_program == s[14]
    &&& *c.susdu_token_program == s[15]
    &&& *c.associated_token_program == s[16]
    &&& *c.system_program == s[17]
}

impl<'info, A> UnitasVaultSwapAccounts<'info, A> {
    pub const NUM_ACCOUNTS: usize = 18;

    pub fn try_from(accounts: &'info [A]) -> (r: Result<Self, SwapError>)
        ensures
            accounts@.len() != 18 ==> r == Err::<Self, SwapError>(SwapError::NotEnoughAccountKeys),
            accounts@.len() == 18 ==> (r matches Ok(c) && unitas_vault_accounts_laid_out(c, accounts@)),
    {
        if accounts.len() != 18 {
            return Err(SwapError::NotEnoughAccountKeys);
        }
        Ok(UnitasVaultSwapAccounts {
            unitas_vault_program: &accounts[0],
            caller: &accounts[1],
            receiver: &accounts[2],
            receiver_susdu_token_account: &accounts[3],
            caller_usdu_token_account: &accounts[4],
            access_registry: &accounts[5],
            vault_stake_pool_usdu_token_account: &accounts[6],
            susdu_minter: &accounts[7],
            usdu_token: &accounts[8],
            susdu_token: &accounts[9],
            vault_state: &accounts[10],
            vault_config: &accounts[11],
            susdu_config: &accounts[12],
            susdu_program: &accounts[13],
            usdu_token_program: &accounts[14],
            susdu_token_program: &accounts[15],
            associated_token_program: &accounts[16],
            system_program: &accounts[17],
        })
    }
}

/// The seventeen accounts of an Unitas stake; the program account is addressed, not passed on.
pub open spec fn unitas_vault_metas<'info, A>(ctx: UnitasVaultSwapAccounts<'info, A>) -> Seq<CpiAccount<'info, A>> {
    seq![
        writable_signer_meta(ctx.caller),
        writable_signer_meta(ctx.receiver),
        writable_meta(ctx.receiver_susdu_token_account),
        writable_meta(ctx.caller_usdu_token_account),
        readonly_meta(ctx.access_registry),
        writable_meta(ctx.vault_stake_pool_usdu_token_account),
        readonly_meta(ctx.susdu_minter),
        writable_meta(ctx.usdu_token),
        writable_meta(ctx.susdu_token),
        readonly_meta(ctx.vault_state),
        writable_meta(ctx.vault_config),
        writable_meta(ctx.susdu_config),
        readonly_meta(ctx.susdu_program),
        readonly_meta(ctx.usdu_token_program),
        readonly_meta(ctx.susdu_token_program),
        readonly_meta(ctx.associated_token_program),
        readonly_meta(ctx.system_program),
    ]
}

/// Discriminator, then the amount in, little-endian.
pub open spec fn unitas_vault_data(in_amount: u64, minimum_out_amount: u64) -> Seq<u8> {
    STAKE_USDU_MINT_SUSDU_DISCRIMINATOR@ + spec_u64_to_le_bytes(in_amount)
}

impl UnitasVault {
    /// The Unitas `stake_usdu_mint_susdu` instruction, addressed to the program account passed in.
    pub fn instruction<'info, A>(ctx: &UnitasVaultSwapAccounts<'info, A>, in_amount: u64, minimum_out_amount: u64, _data: &()) -> (ix: CpiInstruction<'info, A>)
        ensures
            ix.program == CpiProgram::<'info, A>::Account(ctx.unitas_vault_program),
            ix.accounts@ == unitas_vault_metas(*ctx),
            ix.account_infos@ == infos_of(ix.accounts@),
            ix.data@ == unitas_vault_data(in_amount, minimum_out_amount),
    {
        let mut accounts: Vec<CpiAccount<'info, A>> = Vec::new();
        accounts.push(writable_signer(ctx.caller));
        accounts.push(writable_signer(ctx.receiver));
        accounts.push(writable(ctx.receiver_susdu_token_account));
        accounts.push(writable(ctx.caller_usdu_token_account));
        accounts.push(readonly(ctx.access_registry));
        accounts.push(writable(ctx.vault_stake_pool_usdu_token_account));
        accounts.push(readonly(ctx.susdu_minter));
        accounts.push(writable(ctx.usdu_token));
        accounts.push(writable(ctx.susdu_token));
        accounts.push(readonly(ctx.vault_state));
        accounts.push(writable(ctx.vault_config));
        accounts.push(writable(ctx.susdu_config));
        accounts.push(readonly(ctx.susdu_program));
        accounts.push(readonly(ctx.usdu_token_program));
        accounts.push(readonly(ctx.susdu_token_program));
        accounts.push(readonly(ctx.associated_token_program));
        accounts.push(readonly(ctx.system_program));
        let mut bytes: Vec<u8> = Vec::new();
        push_bytes(&mut bytes, &STAKE_USDU_MINT_SUSDU_DISCRIMINATOR);
        push_u64_le(&mut bytes, in_amount);
        let ix = instruction(CpiProgram::Account(ctx.unitas_vault_program), accounts, bytes);
        assert(ix.accounts@ =~= unitas_vault_metas(*ctx));
        assert(ix.data@ =~= unitas_vault_data(in_amount, minimum_out_amount));
        ix
    }

    /// Builds the swap instruction and invokes it with the given signer seeds.
    pub fn swap_signed(ctx: &UnitasVaultSwapAccounts<'_, AccountView>, in_amount: u64, minimum_out_amount: u64, _data: &(), signer_seeds: &[Signer]) -> (r: Result<(), SwapError>)
        ensures
            r matches Err(e) ==> e is Runtime,
            invoked_with(
                    CpiProgram::Account(ctx.unitas_vault_program),
                    unitas_vault_metas(*ctx),
                    infos_of(unitas_vault_metas(*ctx)),
                    unitas_vault_data(in_amount, minimum_out_amount),
                    signer_seeds,
                    r,
                ),
    {
        let ix = Self::instruction(ctx, in_amount, minimum_out_amount, _data);
        invoke(&ix, signer_seeds)
    }

    /// `swap_signed` without signer seeds.
    pub fn swap(ctx: &UnitasVaultSwapAccounts<'_, AccountView>, in_amount: u64, minimum_out_amount: u64, _data: &()) -> (r: Result<(), SwapError>)
        ensures
            r matches Err(e) ==> e is Runtime,
            invoked_with(
                    CpiProgram::Account(ctx.unitas_vault_program),
                    unitas_vault_metas(*ctx),
                    infos_of(unitas_vault_metas(*ctx)),
                    unitas_vault_data(in_amount, minimum_out_amount),
                    &[],
                    r,
                ),
    {
        Self::swap_signed(ctx, in_amount, minimum_out_amount, _data, &[])
    }
}

} // verus!
