use vstd::prelude::*;
use vstd::bytes::{spec_u128_from_le_bytes, spec_u128_to_le_bytes, spec_u64_to_le_bytes, u128_from_le_bytes};
use solana_account_view::AccountView;
use solana_instruction_view::cpi::Signer;
use crate::bytes::{push_bytes, push_u128_le, push_u64_le};
use crate::cpi::{
    AccountRole, CpiAccount, CpiInstruction, CpiProgram, infos_of, instruction, metas_with_role,
    push_all_with_role, readonly, readonly_meta, readonly_signer, readonly_signer_meta, writable,
    writable_meta,
};
use crate::error::SwapError;
use crate::runtime::{invoke, invoked_with};

verus! {

pub const RAYDIUM_CLMM_PROGRAM_ID: [u8; 32] = [165, 213, 202, 158, 4, 207, 93, 181, 144, 183, 20, 186, 47, 227, 44, 177, 89, 19, 63, 193, 193, 146, 183, 34, 87, 253, 7, 211, 156, 176, 64, 30];

pub const SWAP_V2_DISCRIMINATOR: [u8; 8] = [43, 4, 237, 11, 26, 201, 30, 98];

pub const MAX_TICK_ARRAY_SIZE: usize = 16;
pub const MAX_ACCOUNTS: usize = 30;

pub struct RaydiumClmm;

#[derive(Clone, Copy, Debug, PartialEq, Eq, Structural)]
pub struct RaydiumClmmSwapData {
    pub sqrt_price_limit_x64: u128,
    pub is_base_input: bool,
}

impl RaydiumClmmSwapData {
    pub const DATA_LEN: usize = 17;

    /// The price limit (sixteen bytes, little-endian), then whether the in
    /// amount is exact.
    pub fn try_from(data: &[u8]) -> (r: Result<Self, SwapError>)
        ensures
            data@.len() < Self::DATA_LEN ==> r == Err::<Self, SwapError>(SwapError::InvalidInstructionData),
            data@.len() >= Self::DATA_LEN ==> r == Ok::<Self, SwapError>(RaydiumClmmSwapData {
                sqrt_price_limit_x64: spec_u128_from_le_bytes(data@.subrange(0, 16)),
                is_base_input: data@[16] != 0,
            }),
    {
        if data.len() < Self::DATA_LEN {
            return Err(SwapError::InvalidInstructionData);
        }
        let sqrt_price_limit_x64 = u128_from_le_bytes(&data[0..16]);
        Ok(RaydiumClmmSwapData { sqrt_price_limit_x64, is_base_input: data[16] != 0 })
    }
}

pub struct RaydiumClmmSwapAccounts<'info, A> {
    pub raydium_clmm_program: &'info A,
    pub payer: &'info A,
    pub amm_config: &'info A,
    pub pool_state: &'info A,
    pub input_token_account: &'info A,
    pub output_token_account: &'info A,
    pub input_vault: &'info A,
    pub output_vault: &'info A,
    pub observation_state: &'info A,
    pub token_program: &'info A,
    pub token_program_2022: &'info A,
    pub memo_program: &'info A,
    pub input_vault_mint: &'info A,
    pub output_vault_mint: &'info A,
    pub remaining_accounts: &'info [A],
}

/// `c` holds the accounts of `s`: fourteen in the order of its fields, then
/// the remaining (tick array) ones.
pub open spec fn raydium_clmm_accounts_laid_out<'info, A>(c: RaydiumClmmSwapAccounts<'info, A>, s: Seq<A>) -> bool {
    &&& *c.raydium_clmm_program == s[0]
    &&& *c.payer == s[1]
    &&& *c.amm_config == s[2]
    &&& *c.pool_state == s[3]
    &&& *c.input_token_account == s[4]
    &&& *c.output_token_account == s[5]
    &&& *c.input_vault == s[6]
    &&& *c.output_vault == s[7]
    &&& *c.observation_state == s[8]
    &&& *c.token_program == s[9]
    &&& *c.token_program_2022 == s[10]
    &&& *c.memo_program == s[11]
    &&& *c.input_vault_mint == s[12]
    &&& *c.output_vault_mint == s[13]
    &&& c.remaining_accounts@ == s.subrange(14, s.len() as int)
}

impl<'info, A> RaydiumClmmSwapAccounts<'info, A> {
    pub const NUM_ACCOUNTS: usize = 14;

    pub fn try_from(accounts: &'info [A]) -> (r: Result<Self, SwapError>)
        ensures
            accounts@.len() < Self::NUM_ACCOUNTS ==> r == Err::<Self, SwapError>(SwapError::NotEnoughAccountKeys),
            accounts@.len() >= Self::NUM_ACCOUNTS ==> (r matches Ok(c) && raydium_clmm_accounts_laid_out(c, accounts@)),
    {
        if accounts.len() < Self::NUM_ACCOUNTS {
            return Err(SwapError::NotEnoughAccountKeys);
        }
        Ok(RaydiumClmmSwapAccounts {
            raydium_clmm_program: &accounts[0],
            payer: &accounts[1],
            amm_config: &accounts[2],
            pool_state: &accounts[3],
            input_token_account: &accounts[4],
            output_token_account: &accounts[5],
            input_vault: &accounts[6],
            output_vault: &accounts[7],
            observation_state: &accounts[8],
            token_program: &accounts[9],
            token_program_2022: &accounts[10],
            memo_program: &accounts[11],
            input_vault_mint: &accounts[12],
            output_vault_mint: &accounts[13],
            remaining_accounts: &accounts[14..accounts.len()],
        })
    }
}

/// The thirteen named accounts (not the program), then the remaining ones as they came.
pub open spec fn raydium_clmm_metas<'info, A>(ctx: RaydiumClmmSwapAccounts<'info, A>) -> Seq<CpiAccount<'info, A>> {
    seq![
        readonly_signer_meta(ctx.payer),
        readonly_meta(ctx.amm_config),
        writable_meta(ctx.pool_state),
        writable_meta(ctx.input_token_account),
        writable_meta(ctx.output_token_account),
        writable_meta(ctx.input_vault),
        writable_meta(ctx.output_vault),
        writable_meta(ctx.observation_state),
        readonly_meta(ctx.token_program),
        readonly_meta(ctx.token_program_2022),
        readonly_meta(ctx.memo_program),
        readonly_meta(ctx.input_vault_mint),
        readonly_meta(ctx.output_vault_mint),
    ] + metas_with_role(ctx.remaining_accounts@, AccountRole::AsPassed)
}

/// Discriminator, the amount (the in amount where it is exact, else the
/// minimum out amount), the other threshold, the price limit (sixteen bytes),
/// then the exact-in flag; all little-endian.
pub open spec fn raydium_clmm_data(in_amount: u64, minimum_out_amount: u64, data: RaydiumClmmSwapData) -> Seq<u8> {
    let amount = if data.is_base_input { in_amount } else { minimum_out_amount };
    let threshold = if data.is_base_input { minimum_out_amount } else { in_amount };
    SWAP_V2_DISCRIMINATOR@ + spec_u64_to_le_bytes(amount) + spec_u64_to_le_bytes(threshold)
        + spec_u128_to_le_bytes(data.sqrt_price_limit_x64) + seq![if data.is_base_input { 1u8 } else { 0u8 }]
}

impl RaydiumClmm {
    /// The Raydium CLMM `swap_v2` instruction.
    pub fn instruction<'info, A>(ctx: &RaydiumClmmSwapAccounts<'info, A>, in_amount: u64, minimum_out_amount: u64, data: &RaydiumClmmSwapData) -> (ix: CpiInstruction<'info, A>)
        ensures
            ix.program == CpiProgram::<'info, A>::Id(RAYDIUM_CLMM_PROGRAM_ID),
            ix.accounts@ == raydium_clmm_metas(*ctx),
            ix.account_infos@ == infos_of(ix.accounts@),
            ix.data@ == raydium_clmm_data(in_amount, minimum_out_amount, *data),
    {
        let mut accounts: Vec<CpiAccount<'info, A>> = Vec::new();
        accounts.push(readonly_signer(ctx.payer));
        accounts.push(readonly(ctx.amm_config));
        accounts.push(writable(ctx.pool_state));
        accounts.push(writable(ctx.input_token_account));
        accounts.push(writable(ctx.output_token_account));
        accounts.push(writable(ctx.input_vault));
        accounts.push(writable(ctx.output_vault));
        accounts.push(writable(ctx.observation_state));
        accounts.push(readonly(ctx.token_program));
        accounts.push(readonly(ctx.token_program_2022));
        accounts.push(readonly(ctx.memo_program));
        accounts.push(readonly(ctx.input_vault_mint));
        accounts.push(readonly(ctx.output_vault_mint));
        push_all_with_role(&mut accounts, ctx.remaining_accounts, AccountRole::AsPassed);
        let (amount, threshold) = if data.is_base_input { (in_amount, minimum_out_amount) } else { (minimum_out_amount, in_amount) };
        let mut bytes: Vec<u8> = Vec::new();
        push_bytes(&mut bytes, &SWAP_V2_DISCRIMINATOR);
        push_u64_le(&mut bytes, amount);
        push_u64_le(&mut bytes, threshold);
        push_u128_le(&mut bytes, data.sqrt_price_limit_x64);
        bytes.push(if data.is_base_input { 1u8 } else { 0u8 });
        let ix = instruction(CpiProgram::Id(RAYDIUM_CLMM_PROGRAM_ID), accounts, bytes);
        assert(ix.accounts@ =~= raydium_clmm_metas(*ctx));
        assert(ix.data@ =~= raydium_clmm_data(in_amount, minimum_out_amount, *data));
        ix
    }

    /// Builds the instruction and invokes it with the given signer seeds; at
    /// most seventeen remaining accounts are taken.
    pub fn swap_signed(ctx: &RaydiumClmmSwapAccounts<'_, AccountView>, in_amount: u64, minimum_out_amount: u64, data: &RaydiumClmmSwapData, signer_seeds: &[Signer]) -> (r: Result<(), SwapError>)
        requires
            13 + ctx.remaining_accounts@.len() <= MAX_ACCOUNTS,
        ensures
            r matches Err(e) ==> e is Runtime,
            invoked_with(
                    CpiProgram::Id(RAYDIUM_CLMM_PROGRAM_ID),
                    raydium_clmm_metas(*ctx),
                    infos_of(raydium_clmm_metas(*ctx)),
                    raydium_clmm_data(in_amount, minimum_out_amount, *data),
                    signer_seeds,
                    r,
                ),
    {
        let ix = Self::instruction(ctx, in_amount, minimum_out_amount, data);
        invoke(&ix, signer_seeds)
    }

    /// `swap_signed` without signer seeds.
    pub fn swap(ctx: &RaydiumClmmSwapAccounts<'_, AccountView>, in_amount: u64, minimum_out_amount: u64, data: &RaydiumClmmSwapData) -> (r: Result<(), SwapError>)
        requires
            13 + ctx.remaining_accounts@.len() <= MAX_ACCOUNTS,
        ensures
            r matches Err(e) ==> e is Runtime,
            invoked_with(
                    CpiProgram::Id(RAYDIUM_CLMM_PROGRAM_ID),
                    raydium_clmm_metas(*ctx),
                    infos_of(raydium_clmm_metas(*ctx)),
                    raydium_clmm_data(in_amount, minimum_out_amount, *data),
                    &[],
                    r,
                ),
    {
        Self::swap_signed(ctx, in_amount, minimum_out_amount, data, &[])
    }

    /// The user's token accounts paid from and paid into.
    pub fn token_accounts<'info, A>(ctx: &RaydiumClmmSwapAccounts<'info, A>, _data: &RaydiumClmmSwapData) -> (r: (&'info A, &'info A))
        ensures
            r.0 == ctx.input_token_account,
            r.1 == ctx.output_token_account,
    {
        (ctx.input_token_account, ctx.output_token_account)
    }
}

/// The swap data read back from the last seventeen bytes of an instruction
/// is the swap data it was built from.
pub proof fn lemma_raydium_clmm_data_round_trip(in_amount: u64, minimum_out_amount: u64, data: RaydiumClmmSwapData)
    ensures
        ({
            let bytes = raydium_clmm_data(in_amount, minimum_out_amount, data);
            &&& bytes.len() == 41
            &&& spec_u128_from_le_bytes(bytes.subrange(24, 40)) == data.sqrt_price_limit_x64
            &&& (bytes[40] != 0) == data.is_base_input
        }),
{
    vstd::bytes::lemma_auto_spec_u64_to_from_le_bytes();
    vstd::bytes::lemma_auto_spec_u128_to_from_le_bytes();
    let amount = if data.is_base_input { in_amount } else { minimum_out_amount };
    let threshold = if data.is_base_input { minimum_out_amount } else { in_amount };
    let bytes = raydium_clmm_data(in_amount, minimum_out_amount, data);
    assert(bytes.subrange(24, 40) =~= spec_u128_to_le_bytes(data.sqrt_price_limit_x64));
}

} // verus!
