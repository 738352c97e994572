use vstd::prelude::*;
use vstd::bytes::spec_u64_to_le_bytes;
use solana_account_view::AccountView;
use solana_instruction_view::cpi::Signer;
use crate::bytes::{push_bytes, push_u64_le};
use crate::cpi::{
    CpiAccount, CpiInstruction, CpiProgram, infos_of, instruction, readonly, readonly_meta,
    readonly_signer, readonly_signer_meta, writable, writable_meta,
};
use crate::error::SwapError;
use crate::runtime::{invoke, invoked_with};

verus! {

pub const SANCTUM_STAKING_PROGRAM_ID: [u8; 32] = [8, 234, 163, 101, 19, 250, 141, 25, 138, 18, 4, 168, 153, 5, 175, 201, 28, 78, 136, 113, 203, 169, 34, 95, 178, 161, 189, 49, 195, 232, 208, 134];

pub const DEPOSIT_DISCRIMINATOR: [u8; 8] = [242, 35, 198, 137, 82, 225, 242, 182];

pub struct SanctumStaking;

pub struct SanctumStakingSwapAccounts<'info, A> {
    pub sanctum_staking_program: &'info A,
    pub authority: &'info A,
    pub deposit_from: &'info A,
    pub mint_to: &'info A,
    pub vault: &'info A,
    pub bonded_mint: &'info A,
    pub bond_mint_authority: &'info A,
    pub bond_pool: &'info A,
    pub token_program: &'info A,
}

/// `c` holds the accounts of `s` in the order of its fields.
pub open spec fn sanctum_staking_accounts_laid_out<'info, A>(c: SanctumStakingSwapAccounts<'info, A>, s: Seq<A>) -> bool {
    &&& *c.sanctum_staking_program == s[0]
    &&& *c.authority == s[1]
    &&& *c.deposit_from == s[2]
    &&& *c.mint_to == s[3]
    &&& *c.vault == s[4]
    &&& *c.bonded_mint == s[5]
    &&& *c.bond_mint_authority == s[6]
    &&& *c.bond_pool == s[7]
    &&& *c.token_program == s[8]
}

impl<'info, A> SanctumStakingSwapAccounts<'info, A> {
    pub const NUM_ACCOUNTS: usize = 9;

    pub fn try_from(accounts: &'info [A]) -> (r: Result<Self, SwapError>)
        ensures
            accounts@.len() != 9 ==> r == Err::<Self, SwapError>(SwapError::NotEnoughAccountKeys),
            accounts@.len() == 9 ==> (r matches Ok(c) && sanctum_staking_accounts_laid_out(c, accounts@)),
    {
        if accounts.len() != 9 {
            return Err(SwapError::NotEnoughAccountKeys);
        }
        Ok(SanctumStakingSwapAccounts {
            sanctum_staking_program: &accounts[0],
            authority: &accounts[1],
            deposit_from: &accounts[2],
            mint_to: &accounts[3],
            vault: &accounts[4],
            bonded_mint: &accounts[5],
            bond_mint_authority: &accounts[6],
            bond_pool: &accounts[7],
            token_program: &accounts[8],
        })
    }
}

/// The eight accounts of a Sanctum staking deposit; the program account is not passed on.
pub open spec fn sanctum_staking_metas<'info, A>(ctx: SanctumStakingSwapAccounts<'info, A>) -> Seq<CpiAccount<'info, A>> {
    seq![
        readonly_signer_meta(ctx.authority),
        writable_meta(ctx.deposit_from),
        writable_meta(ctx.mint_to),
        writable_meta(ctx.vault),
        writable_meta(ctx.bonded_mint),
        readonly_meta(ctx.bond_mint_authority),
        readonly_meta(ctx.bond_pool),
        readonly_meta(ctx.token_program),
    ]
}

/// Discriminator, then the amount in, little-endian.
pub open spec fn sanctum_staking_data(in_amount: u64, minimum_out_amount: u64) -> Seq<u8> {
    DEPOSIT_DISCRIMINATOR@ + spec_u64_to_le_bytes(in_amount)
}

impl SanctumStaking {
    /// The Sanctum staking `deposit` instruction.
    pub fn instruction<'info, A>(ctx: &SanctumStakingSwapAccounts<'info, A>, in_amount: u64, minimum_out_amount: u64, _data: &()) -> (ix: CpiInstruction<'info, A>)
        ensures
            ix.program == CpiProgram::<'info, A>::Id(SANCTUM_STAKING_PROGRAM_ID),
            ix.accounts@ == sanctum_staking_metas(*ctx),
            ix.account_infos@ == infos_of(ix.accounts@),
            ix.data@ == sanctum_staking_data(in_amount, minimum_out_amount),
    {
        let mut accounts: Vec<CpiAccount<'info, A>> = Vec::new();
        accounts.push(readonly_signer(ctx.authority));
        accounts.push(writable(ctx.deposit_from));
        accounts.push(writable(ctx.mint_to));
        accounts.push(writable(ctx.vault));
        accounts.push(writable(ctx.bonded_mint));
        accounts.push(readonly(ctx.bond_mint_authority));
        accounts.push(readonly(ctx.bond_pool));
        accounts.push(readonly(ctx.token_program));
        let mut bytes: Vec<u8> = Vec::new();
        push_bytes(&mut bytes, &DEPOSIT_DISCRIMINATOR);
        push_u64_le(&mut bytes, in_amount);
        let ix = instruction(CpiProgram::Id(SANCTUM_STAKING_PROGRAM_ID), accounts, bytes);
        assert(ix.accounts@ =~= sanctum_staking_metas(*ctx));
        assert(ix.data@ =~= sanctum_staking_data(in_amount, minimum_out_amount));
        ix
    }

    /// Builds the swap instruction and invokes it with the given signer seeds.
    pub fn swap_signed(ctx: &SanctumStakingSwapAccounts<'_, AccountView>, in_amount: u64, minimum_out_amount: u64, _data: &(), signer_seeds: &[Signer]) -> (r: Result<(), SwapError>)
        ensures
            r matches Err(e) ==> e is Runtime,
            invoked_with(
                    CpiProgram::Id(SANCTUM_STAKING_PROGRAM_ID),
                    sanctum_staking_metas(*ctx),
                    infos_of(sanctum_staking_metas(*ctx)),
                    sanctum_staking_data(in_amount, minimum_out_amount),
                    signer_seeds,
                    r,
                ),
    {
        let ix = Self::instruction(ctx, in_amount, minimum_out_amount, _data);
        invoke(&ix, signer_seeds)
    }

    /// `swap_signed` without signer seeds.
    pub fn swap(ctx: &SanctumStakingSwapAccounts<'_, AccountView>, in_amount: u64, minimum_out_amount: u64, _data: &()) -> (r: Result<(), SwapError>)
        ensures
            r matches Err(e) ==> e is Runtime,
            invoked_with(
                    CpiProgram::Id(SANCTUM_STAKING_PROGRAM_ID),
                    sanctum_staking_metas(*ctx),
                    infos_of(sanctum_staking_metas(*ctx)),
                    sanctum_staking_data(in_amount, minimum_out_amount),
                    &[],
                    r,
                ),
    {
        Self::swap_signed(ctx, in_amount, minimum_out_amount, _data, &[])
    }
}

} // verus!
