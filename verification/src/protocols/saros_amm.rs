use vstd::prelude::*;
use vstd::bytes::spec_u64_to_le_bytes;
use solana_account_view::AccountView;
use solana_instruction_view::cpi::Signer;
use crate::bytes::push_u64_le;
use crate::cpi::{
    CpiAccount, CpiInstruction, CpiProgram, infos_of, instruction, readonly, readonly_meta,
    writable, writable_meta, writable_signer, writable_signer_meta,
};
use crate::error::SwapError;
use crate::runtime::{invoke, invoked_with};

verus! {

pub const SAROS_AMM_PROGRAM_ID: [u8; 32] = [6, 132, 218, 22, 166, 137, 194, 195, 137, 106, 132, 17, 113, 91, 233, 67, 46, 236, 28, 167, 26, 28, 226, 8, 114, 134, 198, 118, 119, 207, 101, 189];

pub const SWAP_DISCRIMINATOR: u8 = 1;

pub struct SarosAmm;

pub struct SarosAmmSwapAccounts<'info, A> {
    pub saros_program: &'info A,
    pub swap_info: &'info A,
    pub authority_info: &'info A,
    pub user_transfer_authority_info: &'info A,
    pub source_info: &'info A,
    pub swap_source_info: &'info A,
    pub swap_destination_info: &'info A,
    pub destination_info: &'info A,
    pub pool_mint_info: &'info A,
    pub pool_fee_account_info: &'info A,
    pub token_program_info: &'info A,
}

/// `c` holds the accounts of `s` in the order of its fields.
pub open spec fn saros_amm_accounts_laid_out<'info, A>(c: SarosAmmSwapAccounts<'info, A>, s: Seq<A>) -> bool {
    &&& *c.saros_program == s[0]
    &&& *c.swap_info == s[1]
    &&& *c.authority_info == s[2]
    &&& *c.user_transfer_authority_info == s[3]
    &&& *c.source_info == s[4]
    &&& *c.swap_source_info == s[5]
    &&& *c.swap_destination_info == s[6]
    &&& *c.destination_info == s[7]
    &&& *c.pool_mint_info == s[8]
    &&& *c.pool_fee_account_info == s[9]
    &&& *c.token_program_info == s[10]
}

impl<'info, A> SarosAmmSwapAccounts<'info, A> {
    pub const NUM_ACCOUNTS: usize = 11;

    pub fn try_from(accounts: &'info [A]) -> (r: Result<Self, SwapError>)
        ensures
            accounts@.len() < 11 ==> r == Err::<Self, SwapError>(SwapError::NotEnoughAccountKeys),
            accounts@.len() >= 11 ==> (r matches Ok(c) && saros_amm_accounts_laid_out(c, accounts@)),
    {
        if accounts.len() < 11 {
            return Err(SwapError::NotEnoughAccountKeys);
        }
        Ok(SarosAmmSwapAccounts {
            saros_program: &accounts[0],
            swap_info: &accounts[1],
            authority_info: &accounts[2],
            user_transfer_authority_info: &accounts[3],
            source_info: &accounts[4],
            swap_source_info: &accounts[5],
            swap_destination_info: &accounts[6],
            destination_info: &accounts[7],
            pool_mint_info: &accounts[8],
            pool_fee_account_info: &accounts[9],
            token_program_info: &accounts[10],
        })
    }
}

/// The ten accounts of a Saros AMM swap; the program account is not passed on.
pub open spec fn saros_amm_metas<'info, A>(ctx: SarosAmmSwapAccounts<'info, A>) -> Seq<CpiAccount<'info, A>> {
    seq![
        readonly_meta(ctx.swap_info),
        readonly_meta(ctx.authority_info),
        writable_signer_meta(ctx.user_transfer_authority_info),
        writable_meta(ctx.source_info),
        writable_meta(ctx.swap_source_info),
        writable_meta(ctx.swap_destination_info),
        writable_meta(ctx.destination_info),
        writable_meta(ctx.pool_mint_info),
        writable_meta(ctx.pool_fee_account_info),
        readonly_meta(ctx.token_program_info),
    ]
}

/// Discriminator, then the two amounts, little-endian.
pub open spec fn saros_amm_data(in_amount: u64, minimum_out_amount: u64) -> Seq<u8> {
    seq![SWAP_DISCRIMINATOR] + spec_u64_to_le_bytes(in_amount) + spec_u64_to_le_bytes(minimum_out_amount)
}

impl SarosAmm {
    /// The Saros AMM swap instruction.
    pub fn instruction<'info, A>(ctx: &SarosAmmSwapAccounts<'info, A>, in_amount: u64, minimum_out_amount: u64, _data: &()) -> (ix: CpiInstruction<'info, A>)
        ensures
            ix.program == CpiProgram::<'info, A>::Id(SAROS_AMM_PROGRAM_ID),
            ix.accounts@ == saros_amm_metas(*ctx),
            ix.account_infos@ == infos_of(ix.accounts@),
            ix.data@ == saros_amm_data(in_amount, minimum_out_amount),
    {
        let mut accounts: Vec<CpiAccount<'info, A>> = Vec::new();
        accounts.push(readonly(ctx.swap_info));
        accounts.push(readonly(ctx.authority_info));
        accounts.push(writable_signer(ctx.user_transfer_authority_info));
        accounts.push(writable(ctx.source_info));
        accounts.push(writable(ctx.swap_source_info));
        accounts.push(writable(ctx.swap_destination_info));
        accounts.push(writable(ctx.destination_info));
        accounts.push(writable(ctx.pool_mint_info));
        accounts.push(writable(ctx.pool_fee_account_info));
        accounts.push(readonly(ctx.token_program_info));
        let mut bytes: Vec<u8> = Vec::new();
        bytes.push(SWAP_DISCRIMINATOR);
        push_u64_le(&mut bytes, in_amount);
        push_u64_le(&mut bytes, minimum_out_amount);
        let ix = instruction(CpiProgram::Id(SAROS_AMM_PROGRAM_ID), accounts, bytes);
        assert(ix.accounts@ =~= saros_amm_metas(*ctx));
        assert(ix.data@ =~= saros_amm_data(in_amount, minimum_out_amount));
        ix
    }

    /// Builds the swap instruction and invokes it with the given signer seeds.
    pub fn swap_signed(ctx: &SarosAmmSwapAccounts<'_, AccountView>, in_amount: u64, minimum_out_amount: u64, _data: &(), signer_seeds: &[Signer]) -> (r: Result<(), SwapError>)
        ensures
            r matches Err(e) ==> e is Runtime,
            invoked_with(
                    CpiProgram::Id(SAROS_AMM_PROGRAM_ID),
                    saros_amm_metas(*ctx),
                    infos_of(saros_amm_metas(*ctx)),
                    saros_amm_data(in_amount, minimum_out_amount),
                    signer_seeds,
                    r,
                ),
    {
        let ix = Self::instruction(ctx, in_amount, minimum_out_amount, _data);
        invoke(&ix, signer_seeds)
    }

    /// `swap_signed` without signer seeds.
    pub fn swap(ctx: &SarosAmmSwapAccounts<'_, AccountView>, in_amount: u64, minimum_out_amount: u64, _data: &()) -> (r: Result<(), SwapError>)
        ensures
            r matches Err(e) ==> e is Runtime,
            invoked_with(
                    CpiProgram::Id(SAROS_AMM_PROGRAM_ID),
                    saros_amm_metas(*ctx),
                    infos_of(saros_amm_metas(*ctx)),
                    saros_amm_data(in_amount, minimum_out_amount),
                    &[],
                    r,
                ),
    {
        Self::swap_signed(ctx, in_amount, minimum_out_amount, _data, &[])
    }
}

} // verus!
