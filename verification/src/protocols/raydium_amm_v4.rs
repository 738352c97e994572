use vstd::prelude::*;
use vstd::bytes::spec_u64_to_le_bytes;
use solana_account_view::AccountView;
use solana_instruction_view::cpi::Signer;
use crate::bytes::push_u64_le;
use crate::cpi::{
    CpiAccount, CpiInstruction, CpiProgram, infos_of, instruction, readonly, readonly_meta,
    writable, writable_meta, writable_signer, writable_signer_meta,
};
use crate::error::SwapError;
use crate::runtime::{invoke, invoked_with};

verus! {

pub const RAYDIUM_AMM_V4_PROGRAM_ID: [u8; 32] = [75, 217, 73, 196, 54, 2, 195, 63, 32, 119, 144, 237, 22, 163, 82, 76, 161, 185, 151, 92, 241, 33, 162, 169, 12, 255, 236, 125, 248, 182, 138, 205];

pub const SWAP_BASE_IN_V2_TAG: u8 = 16;

pub struct RaydiumAmmV4;

pub struct RaydiumAmmV4SwapAccounts<'info, A> {
    pub raydium_amm_v4_program: &'info A,
    pub token_program: &'info A,
    pub amm_id: &'info A,
    pub amm_authority: &'info A,
    pub amm_coin_vault: &'info A,
    pub amm_pc_vault: &'info A,
    pub user_source_token_account: &'info A,
    pub user_dest_token_account: &'info A,
    pub user_wallet_account: &'info A,
}

/// `c` holds the accounts of `s` in the order of its fields.
pub open spec fn raydium_amm_v4_accounts_laid_out<'info, A>(c: RaydiumAmmV4SwapAccounts<'info, A>, s: Seq<A>) -> bool {
    &&& *c.raydium_amm_v4_program == s[0]
    &&& *c.token_program == s[1]
    &&& *c.amm_id == s[2]
    &&& *c.amm_authority == s[3]
    &&& *c.amm_coin_vault == s[4]
    &&& *c.amm_pc_vault == s[5]
    &&& *c.user_source_token_account == s[6]
    &&& *c.user_dest_token_account == s[7]
    &&& *c.user_wallet_account == s[8]
}

impl<'info, A> RaydiumAmmV4SwapAccounts<'info, A> {
    pub const NUM_ACCOUNTS: usize = 9;

    pub fn try_from(accounts: &'info [A]) -> (r: Result<Self, SwapError>)
        ensures
            accounts@.len() < 9 ==> r == Err::<Self, SwapError>(SwapError::NotEnoughAccountKeys),
            accounts@.len() >= 9 ==> (r matches Ok(c) && raydium_amm_v4_accounts_laid_out(c, accounts@)),
    {
        if accounts.len() < 9 {
            return Err(SwapError::NotEnoughAccountKeys);
        }
        Ok(RaydiumAmmV4SwapAccounts {
            raydium_amm_v4_program: &accounts[0],
            token_program: &accounts[1],
            amm_id: &accounts[2],
            amm_authority: &accounts[3],
            amm_coin_vault: &accounts[4],
            amm_pc_vault: &accounts[5],
            user_source_token_account: &accounts[6],
            user_dest_token_account: &accounts[7],
            user_wallet_account: &accounts[8],
        })
    }
}

/// The eight accounts of a Raydium AMM v4 `swap_base_in_v2`; the program account is not passed on.
pub open spec fn raydium_amm_v4_metas<'info, A>(ctx: RaydiumAmmV4SwapAccounts<'info, A>) -> Seq<CpiAccount<'info, A>> {
    seq![
        readonly_meta(ctx.token_program),
        writable_meta(ctx.amm_id),
        readonly_meta(ctx.amm_authority),
        writable_meta(ctx.amm_coin_vault),
        writable_meta(ctx.amm_pc_vault),
        writable_meta(ctx.user_source_token_account),
        writable_meta(ctx.user_dest_token_account),
        writable_signer_meta(ctx.user_wallet_account),
    ]
}

/// Tag, then the two amounts, little-endian.
pub open spec fn raydium_amm_v4_data(in_amount: u64, minimum_out_amount: u64) -> Seq<u8> {
    seq![SWAP_BASE_IN_V2_TAG] + spec_u64_to_le_bytes(in_amount) + spec_u64_to_le_bytes(minimum_out_amount)
}

impl RaydiumAmmV4 {
    /// The Raydium AMM v4 `swap_base_in_v2` instruction.
    pub fn instruction<'info, A>(ctx: &RaydiumAmmV4SwapAccounts<'info, A>, in_amount: u64, minimum_out_amount: u64, _data: &()) -> (ix: CpiInstruction<'info, A>)
        ensures
            ix.program == CpiProgram::<'info, A>::Id(RAYDIUM_AMM_V4_PROGRAM_ID),
            ix.accounts@ == raydium_amm_v4_metas(*ctx),
            ix.account_infos@ == infos_of(ix.accounts@),
            ix.data@ == raydium_amm_v4_data(in_amount, minimum_out_amount),
    {
        let mut accounts: Vec<CpiAccount<'info, A>> = Vec::new();
        accounts.push(readonly(ctx.token_program));
        accounts.push(writable(ctx.amm_id));
        accounts.push(readonly(ctx.amm_authority));
        accounts.push(writable(ctx.amm_coin_vault));
        accounts.push(writable(ctx.amm_pc_vault));
        accounts.push(writable(ctx.user_source_token_account));
        accounts.push(writable(ctx.user_dest_token_account));
        accounts.push(writable_signer(ctx.user_wallet_account));
        let mut bytes: Vec<u8> = Vec::new();
        bytes.push(SWAP_BASE_IN_V2_TAG);
        push_u64_le(&mut bytes, in_amount);
        push_u64_le(&mut bytes, minimum_out_amount);
        let ix = instruction(CpiProgram::Id(RAYDIUM_AMM_V4_PROGRAM_ID), accounts, bytes);
        assert(ix.accounts@ =~= raydium_amm_v4_metas(*ctx));
        assert(ix.data@ =~= raydium_amm_v4_data(in_amount, minimum_out_amount));
        ix
    }

    /// Builds the swap instruction and invokes it with the given signer seeds.
    pub fn swap_signed(ctx: &RaydiumAmmV4SwapAccounts<'_, AccountView>, in_amount: u64, minimum_out_amount: u64, _data: &(), signer_seeds: &[Signer]) -> (r: Result<(), SwapError>)
        ensures
            r matches Err(e) ==> e is Runtime,
            invoked_with(
                    CpiProgram::Id(RAYDIUM_AMM_V4_PROGRAM_ID),
                    raydium_amm_v4_metas(*ctx),
                    infos_of(raydium_amm_v4_metas(*ctx)),
                    raydium_amm_v4_data(in_amount, minimum_out_amount),
                    signer_seeds,
                    r,
                ),
    {
        let ix = Self::instruction(ctx, in_amount, minimum_out_amount, _data);
        invoke(&ix, signer_seeds)
    }

    /// `swap_signed` without signer seeds.
    pub fn swap(ctx: &RaydiumAmmV4SwapAccounts<'_, AccountView>, in_amount: u64, minimum_out_amount: u64, _data: &()) -> (r: Result<(), SwapError>)
        ensures
            r matches Err(e) ==> e is Runtime,
            invoked_with(
                    CpiProgram::Id(RAYDIUM_AMM_V4_PROGRAM_ID),
                    raydium_amm_v4_metas(*ctx),
                    infos_of(raydium_amm_v4_metas(*ctx)),
                    raydium_amm_v4_data(in_amount, minimum_out_amount),
                    &[],
                    r,
                ),
    {
        Self::swap_signed(ctx, in_amount, minimum_out_amount, _data, &[])
    }

    /// The user's source and destination token accounts.
    pub fn token_accounts<'info, A>(ctx: &RaydiumAmmV4SwapAccounts<'info, A>, _data: &()) -> (r: (&'info A, &'info A))
        ensures
            r.0 == ctx.user_source_token_account,
            r.1 == ctx.user_dest_token_account,
    {
        (ctx.user_source_token_account, ctx.user_dest_token_account)
    }
}

} // verus!
