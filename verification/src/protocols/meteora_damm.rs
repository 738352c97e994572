use vstd::prelude::*;
use vstd::bytes::spec_u64_to_le_bytes;
use solana_account_view::AccountView;
use solana_instruction_view::cpi::Signer;
use crate::bytes::{push_bytes, push_u64_le};
use crate::cpi::{
    CpiAccount, CpiInstruction, CpiProgram, infos_of, instruction, readonly, readonly_meta,
    readonly_signer, readonly_signer_meta, writable, writable_meta,
};
use crate::error::SwapError;
use crate::runtime::{invoke, invoked_with};

verus! {

pub const METEORA_DAMM_PROGRAM_ID: [u8; 32] = [204, 248, 2, 212, 204, 204, 132, 215, 251, 33, 181, 247, 59, 73, 216, 26, 22, 197, 180, 200, 142, 227, 35, 148, 225, 201, 29, 53, 136, 204, 64, 128];

pub const SWAP_DISCRIMINATOR: [u8; 8] = [248, 198, 158, 145, 225, 117, 135, 200];

pub struct MeteoraDamm;

pub struct MeteoraDammSwapAccounts<'info, A> {
    pub meteora_damm_program: &'info A,
    pub pool: &'info A,
    pub user_source_token: &'info A,
    pub user_destination_token: &'info A,
    pub a_vault: &'info A,
    pub b_vault: &'info A,
    pub a_token_vault: &'info A,
    pub b_token_vault: &'info A,
    pub a_vault_lp_mint: &'info A,
    pub b_vault_lp_mint: &'info A,
    pub a_vault_lp: &'info A,
    pub b_vault_lp: &'info A,
    pub protocol_token_fee: &'info A,
    pub user: &'info A,
    pub vault_program: &'info A,
    pub token_program: &'info A,
}

/// `c` holds the accounts of `s` in the order of its fields.
pub open spec fn meteora_damm_accounts_laid_out<'info, A>(c: MeteoraDammSwapAccounts<'info, A>, s: Seq<A>) -> bool {
    &&& *c.meteora_damm_program == s[0]
    &&& *c.pool == s[1]
    &&& *c.user_source_token == s[2]
    &&& *c.user_destination_token == s[3]
    &&& *c.a_vault == s[4]
    &&& *c.b_vault == s[5]
    &&& *c.a_token_vault == s[6]
    &&& *c.b_token_vault == s[7]
    &&& *c.a_vault_lp_mint == s[8]
    &&& *c.b_vault_lp_mint == s[9]
    &&& *c.a_vault_lp == s[10]
    &&& *c.b_vault_lp == s[11]
    &&& *c.protocol_token_fee == s[12]
    &&& *c.user == s[13]
    &&& *c.vault_program == s[14]
    &&& *c.token_program == s[15]
}

impl<'info, A> MeteoraDammSwapAccounts<'info, A> {
    pub const NUM_ACCOUNTS: usize = 16;

    pub fn try_from(accounts: &'info [A]) -> (r: Result<Self, SwapError>)
        ensures
            accounts@.len() < 16 ==> r == Err::<Self, SwapError>(SwapError::NotEnoughAccountKeys),
            accounts@.len() >= 16 ==> (r matches Ok(c) && meteora_damm_accounts_laid_out(c, accounts@)),
    {
        if accounts.len() < 16 {
            return Err(SwapError::NotEnoughAccountKeys);
        }
        Ok(MeteoraDammSwapAccounts {
            meteora_damm_program: &accounts[0],
            pool: &accounts[1],
            user_source_token: &accounts[2],
            user_destination_token: &accounts[3],
            a_vault: &accounts[4],
            b_vault: &accounts[5],
            a_token_vault: &accounts[6],
            b_token_vault: &accounts[7],
            a_vault_lp_mint: &accounts[8],
            b_vault_lp_mint: &accounts[9],
            a_vault_lp: &accounts[10],
            b_vault_lp: &accounts[11],
            protocol_token_fee: &accounts[12],
            user: &accounts[13],
            vault_program: &accounts[14],
            token_program: &accounts[15],
        })
    }
}

/// The fifteen accounts of a Meteora DAMM swap; the program account is not passed on.
pub open spec fn meteora_damm_metas<'info, A>(ctx: MeteoraDammSwapAccounts<'info, A>) -> Seq<CpiAccount<'info, A>> {
    seq![
        writable_meta(ctx.pool),
        writable_meta(ctx.user_source_token),
        writable_meta(ctx.user_destination_token),
        writable_meta(ctx.a_vault),
        writable_meta(ctx.b_vault),
        writable_meta(ctx.a_token_vault),
        writable_meta(ctx.b_token_vault),
        writable_meta(ctx.a_vault_lp_mint),
        writable_meta(ctx.b_vault_lp_mint),
        writable_meta(ctx.a_vault_lp),
        writable_meta(ctx.b_vault_lp),
        writable_meta(ctx.protocol_token_fee),
        readonly_signer_meta(ctx.user),
        readonly_meta(ctx.vault_program),
        readonly_meta(ctx.token_program),
    ]
}

/// Discriminator, then the two amounts, little-endian.
pub open spec fn meteora_damm_data(in_amount: u64, minimum_out_amount: u64) -> Seq<u8> {
    SWAP_DISCRIMINATOR@ + spec_u64_to_le_bytes(in_amount) + spec_u64_to_le_bytes(minimum_out_amount)
}

impl MeteoraDamm {
    /// The Meteora DAMM swap instruction.
    pub fn instruction<'info, A>(ctx: &MeteoraDammSwapAccounts<'info, A>, in_amount: u64, minimum_out_amount: u64, _data: &()) -> (ix: CpiInstruction<'info, A>)
        ensures
            ix.program == CpiProgram::<'info, A>::Id(METEORA_DAMM_PROGRAM_ID),
            ix.accounts@ == meteora_damm_metas(*ctx),
            ix.account_infos@ == infos_of(ix.accounts@),
            ix.data@ == meteora_damm_data(in_amount, minimum_out_amount),
    {
        let mut accounts: Vec<CpiAccount<'info, A>> = Vec::new();
        accounts.push(writable(ctx.pool));
        accounts.push(writable(ctx.user_source_token));
        accounts.push(writable(ctx.user_destination_token));
        accounts.push(writable(ctx.a_vault));
        accounts.push(writable(ctx.b_vault));
        accounts.push(writable(ctx.a_token_vault));
        accounts.push(writable(ctx.b_token_vault));
        accounts.push(writable(ctx.a_vault_lp_mint));
        accounts.push(writable(ctx.b_vault_lp_mint));
        accounts.push(writable(ctx.a_vault_lp));
        accounts.push(writable(ctx.b_vault_lp));
        accounts.push(writable(ctx.protocol_token_fee));
        accounts.push(readonly_signer(ctx.user));
        accounts.push(readonly(ctx.vault_program));
        accounts.push(readonly(ctx.token_program));
        let mut bytes: Vec<u8> = Vec::new();
        push_bytes(&mut bytes, &SWAP_DISCRIMINATOR);
        push_u64_le(&mut bytes, in_amount);
        push_u64_le(&mut bytes, minimum_out_amount);
        let ix = instruction(CpiProgram::Id(METEORA_DAMM_PROGRAM_ID), accounts, bytes);
        assert(ix.accounts@ =~= meteora_damm_metas(*ctx));
        assert(ix.data@ =~= meteora_damm_data(in_amount, minimum_out_amount));
        ix
    }

    /// Builds the swap instruction and invokes it with the given signer seeds.
    pub fn swap_signed(ctx: &MeteoraDammSwapAccounts<'_, AccountView>, in_amount: u64, minimum_out_amount: u64, _data: &(), signer_seeds: &[Signer]) -> (r: Result<(), SwapError>)
        ensures
            r matches Err(e) ==> e is Runtime,
            invoked_with(
                    CpiProgram::Id(METEORA_DAMM_PROGRAM_ID),
                    meteora_damm_metas(*ctx),
                    infos_of(meteora_damm_metas(*ctx)),
                    meteora_damm_data(in_amount, minimum_out_amount),
                    signer_seeds,
                    r,
                ),
    {
        let ix = Self::instruction(ctx, in_amount, minimum_out_amount, _data);
        invoke(&ix, signer_seeds)
    }

    /// `swap_signed` without signer seeds.
    pub fn swap(ctx: &MeteoraDammSwapAccounts<'_, AccountView>, in_amount: u64, minimum_out_amount: u64, _data: &()) -> (r: Result<(), SwapError>)
        ensures
            r matches Err(e) ==> e is Runtime,
            invoked_with(
                    CpiProgram::Id(METEORA_DAMM_PROGRAM_ID),
                    meteora_damm_metas(*ctx),
                    infos_of(meteora_damm_metas(*ctx)),
                    meteora_damm_data(in_amount, minimum_out_amount),
                    &[],
                    r,
                ),
    {
        Self::swap_signed(ctx, in_amount, minimum_out_amount, _data, &[])
    }
}

} // verus!
