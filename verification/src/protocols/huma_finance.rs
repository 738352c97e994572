use vstd::prelude::*;
use vstd::bytes::spec_u64_to_le_bytes;
use solana_account_view::AccountView;
use solana_instruction_view::cpi::Signer;
use crate::bytes::{push_bytes, push_u64_le};
use crate::cpi::{
    CpiAccount, CpiInstruction, CpiProgram, infos_of, instruction, readonly, readonly_meta,
    writable, writable_meta, writable_signer, writable_signer_meta,
};
use crate::error::SwapError;
use crate::runtime::{invoke, invoked_with};

verus! {

pub const HUMA_FINANCE_PROGRAM_ID: [u8; 32] = [251, 63, 152, 244, 219, 92, 3, 53, 121, 175, 5, 30, 117, 61, 23, 252, 123, 36, 148, 117, 221, 5, 37, 183, 42, 44, 197, 113, 154, 208, 119, 177];

pub const DEPOSIT_DISCRIMINATOR: [u8; 8] = [242, 35, 198, 137, 82, 225, 242, 182];
/// Length prefix of the Borsh string "NO_COMMITMENT".
pub const NO_COMMITMENT_LEN: [u8; 4] = [13, 0, 0, 0];
pub const NO_COMMITMENT_BYTES: [u8; 13] = [78, 79, 95, 67, 79, 77, 77, 73, 84, 77, 69, 78, 84];

pub struct HumaFinance;

pub struct HumaFinanceSwapAccounts<'info, A> {
    pub depositor: &'info A,
    pub huma_config: &'info A,
    pub pool_config: &'info A,
    pub pool_state: &'info A,
    pub mode_config: &'info A,
    pub mode_mint: &'info A,
    pub pool_authority: &'info A,
    pub underlying_mint: &'info A,
    pub pool_underlying_token: &'info A,
    pub depositor_underlying_token: &'info A,
    pub depositor_mode_token: &'info A,
    pub underlying_token_program: &'info A,
    pub mode_token_program: &'info A,
}

/// `c` holds the accounts of `s` in the order of its fields.
pub open spec fn huma_finance_accounts_laid_out<'info, A>(c: HumaFinanceSwapAccounts<'info, A>, s: Seq<A>) -> bool {
    &&& *c.depositor == s[1]
    &&& *c.huma_config == s[2]
    &&& *c.pool_config == s[3]
    &&& *c.pool_state == s[4]
    &&& *c.mode_config == s[5]
    &&& *c.mode_mint == s[6]
    &&& *c.pool_authority == s[7]
    &&& *c.underlying_mint == s[8]
    &&& *c.pool_underlying_token == s[9]
    &&& *c.depositor_underlying_token == s[10]
    &&& *c.depositor_mode_token == s[11]
    &&& *c.underlying_token_program == s[12]
    &&& *c.mode_token_program == s[13]
}

impl<'info, A> HumaFinanceSwapAccounts<'info, A> {
    pub const MIN_NUM_ACCOUNTS: usize = 14;

    pub fn try_from(accounts: &'info [A]) -> (r: Result<Self, SwapError>)
        ensures
            accounts@.len() != 14 ==> r == Err::<Self, SwapError>(SwapError::NotEnoughAccountKeys),
            accounts@.len() == 14 ==> (r matches Ok(c) && huma_finance_accounts_laid_out(c, accounts@)),
    {
        if accounts.len() != 14 {
            return Err(SwapError::NotEnoughAccountKeys);
        }
        Ok(HumaFinanceSwapAccounts {
            depositor: &accounts[1],
            huma_config: &accounts[2],
            pool_config: &accounts[3],
            pool_state: &accounts[4],
            mode_config: &accounts[5],
            mode_mint: &accounts[6],
            pool_authority: &accounts[7],
            underlying_mint: &accounts[8],
            pool_underlying_token: &accounts[9],
            depositor_underlying_token: &accounts[10],
            depositor_mode_token: &accounts[11],
            underlying_token_program: &accounts[12],
            mode_token_program: &accounts[13],
        })
    }
}

/// The thirteen accounts of a Huma deposit; the program account, first in the list, is not kept.
pub open spec fn huma_finance_metas<'info, A>(ctx: HumaFinanceSwapAccounts<'info, A>) -> Seq<CpiAccount<'info, A>> {
    seq![
        writable_signer_meta(ctx.depositor),
        readonly_meta(ctx.huma_config),
        readonly_meta(ctx.pool_config),
        writable_meta(ctx.pool_state),
        readonly_meta(ctx.mode_config),
        writable_meta(ctx.mode_mint),
        readonly_meta(ctx.pool_authority),
        readonly_meta(ctx.underlying_mint),
        writable_meta(ctx.pool_underlying_token),
        writable_meta(ctx.depositor_underlying_token),
        writable_meta(ctx.depositor_mode_token),
        readonly_meta(ctx.underlying_token_program),
        readonly_meta(ctx.mode_token_program),
    ]
}

/// Discriminator, the amount in, the string "NO_COMMITMENT", then `false` for auto-renewal.
pub open spec fn huma_finance_data(in_amount: u64, minimum_out_amount: u64) -> Seq<u8> {
    DEPOSIT_DISCRIMINATOR@ + spec_u64_to_le_bytes(in_amount) + NO_COMMITMENT_LEN@ + NO_COMMITMENT_BYTES@ + seq![0u8]
}

impl HumaFinance {
    /// The Huma `deposit` instruction: no commitment, no auto-renewal.
    pub fn instruction<'info, A>(ctx: &HumaFinanceSwapAccounts<'info, A>, in_amount: u64, minimum_out_amount: u64, _data: &()) -> (ix: CpiInstruction<'info, A>)
        ensures
            ix.program == CpiProgram::<'info, A>::Id(HUMA_FINANCE_PROGRAM_ID),
            ix.accounts@ == huma_finance_metas(*ctx),
            ix.account_infos@ == infos_of(ix.accounts@),
            ix.data@ == huma_finance_data(in_amount, minimum_out_amount),
    {
        let mut accounts: Vec<CpiAccount<'info, A>> = Vec::new();
        accounts.push(writable_signer(ctx.depositor));
        accounts.push(readonly(ctx.huma_config));
        accounts.push(readonly(ctx.pool_config));
        accounts.push(writable(ctx.pool_state));
        accounts.push(readonly(ctx.mode_config));
        accounts.push(writable(ctx.mode_mint));
        accounts.push(readonly(ctx.pool_authority));
        accounts.push(readonly(ctx.underlying_mint));
        accounts.push(writable(ctx.pool_underlying_token));
        accounts.push(writable(ctx.depositor_underlying_token));
        accounts.push(writable(ctx.depositor_mode_token));
        accounts.push(readonly(ctx.underlying_token_program));
        accounts.push(readonly(ctx.mode_token_program));
        let mut bytes: Vec<u8> = Vec::new();
        push_bytes(&mut bytes, &DEPOSIT_DISCRIMINATOR);
        push_u64_le(&mut bytes, in_amount);
        push_bytes(&mut bytes, &NO_COMMITMENT_LEN);
        push_bytes(&mut bytes, &NO_COMMITMENT_BYTES);
        bytes.push(0u8);
        let ix = instruction(CpiProgram::Id(HUMA_FINANCE_PROGRAM_ID), accounts, bytes);
        assert(ix.accounts@ =~= huma_finance_metas(*ctx));
        assert(ix.data@ =~= huma_finance_data(in_amount, minimum_out_amount));
        ix
    }

    /// Builds the swap instruction and invokes it with the given signer seeds.
    pub fn swap_signed(ctx: &HumaFinanceSwapAccounts<'_, AccountView>, in_amount: u64, minimum_out_amount: u64, _data: &(), signer_seeds: &[Signer]) -> (r: Result<(), SwapError>)
        ensures
            r matches Err(e) ==> e is Runtime,
            invoked_with(
                    CpiProgram::Id(HUMA_FINANCE_PROGRAM_ID),
                    huma_finance_metas(*ctx),
                    infos_of(huma_finance_metas(*ctx)),
                    huma_finance_data(in_amount, minimum_out_amount),
                    signer_seeds,
                    r,
                ),
    {
        let ix = Self::instruction(ctx, in_amount, minimum_out_amount, _data);
        invoke(&ix, signer_seeds)
    }

    /// `swap_signed` without signer seeds.
    pub fn swap(ctx: &HumaFinanceSwapAccounts<'_, AccountView>, in_amount: u64, minimum_out_amount: u64, _data: &()) -> (r: Result<(), SwapError>)
        ensures
            r matches Err(e) ==> e is Runtime,
            invoked_with(
                    CpiProgram::Id(HUMA_FINANCE_PROGRAM_ID),
                    huma_finance_metas(*ctx),
                    infos_of(huma_finance_metas(*ctx)),
                    huma_finance_data(in_amount, minimum_out_amount),
                    &[],
                    r,
                ),
    {
        Self::swap_signed(ctx, in_amount, minimum_out_amount, _data, &[])
    }
}

} // verus!
