use vstd::prelude::*;
use vstd::bytes::spec_u64_to_le_bytes;
use solana_account_view::AccountView;
use solana_instruction_view::cpi::Signer;
use crate::bytes::push_u64_le;
use crate::cpi::{
    CpiAccount, CpiInstruction, CpiProgram, infos_of, instruction, readonly, readonly_meta,
    writable, writable_meta, writable_signer, writable_signer_meta,
};
use crate::error::SwapError;
use crate::runtime::{invoke, invoked_with};

verus! {

pub const SOLV_FINANCE_PROGRAM_ID: [u8; 32] = [13, 3, 112, 231, 243, 59, 39, 58, 202, 113, 250, 50, 61, 83, 129, 210, 246, 15, 41, 99, 175, 194, 106, 222, 75, 253, 77, 189, 30, 14, 187, 123];

pub const VAULT_DEPOSIT_DISCRIMINATOR: u8 = 0;

pub struct SolvFinance;

pub struct SolvFinanceSwapAccounts<'info, A> {
    pub solv_finance_program: &'info A,
    pub user: &'info A,
    pub user_token_ta: &'info A,
    pub user_target_ta: &'info A,
    pub treasurer_token_ta: &'info A,
    pub multisig: &'info A,
    pub mint_token: &'info A,
    pub mint_target: &'info A,
    pub vault: &'info A,
    pub token_program: &'info A,
    pub associated_token_program: &'info A,
}

/// `c` holds the accounts of `s` in the order of its fields.
pub open spec fn solv_finance_accounts_laid_out<'info, A>(c: SolvFinanceSwapAccounts<'info, A>, s: Seq<A>) -> bool {
    &&& *c.solv_finance_program == s[0]
    &&& *c.user == s[1]
    &&& *c.user_token_ta == s[2]
    &&& *c.user_target_ta == s[3]
    &&& *c.treasurer_token_ta == s[4]
    &&& *c.multisig == s[5]
    &&& *c.mint_token == s[6]
    &&& *c.mint_target == s[7]
    &&& *c.vault == s[8]
    &&& *c.token_program == s[9]
    &&& *c.associated_token_program == s[10]
}

impl<'info, A> SolvFinanceSwapAccounts<'info, A> {
    pub const NUM_ACCOUNTS: usize = 11;

    pub fn try_from(accounts: &'info [A]) -> (r: Result<Self, SwapError>)
        ensures
            accounts@.len() < 11 ==> r == Err::<Self, SwapError>(SwapError::NotEnoughAccountKeys),
            accounts@.len() >= 11 ==> (r matches Ok(c) && solv_finance_accounts_laid_out(c, accounts@)),
    {
        if accounts.len() < 11 {
            return Err(SwapError::NotEnoughAccountKeys);
        }
        Ok(SolvFinanceSwapAccounts {
            solv_finance_program: &accounts[0],
            user: &accounts[1],
            user_token_ta: &accounts[2],
            user_target_ta: &accounts[3],
            treasurer_token_ta: &accounts[4],
            multisig: &accounts[5],
            mint_token: &accounts[6],
            mint_target: &accounts[7],
            vault: &accounts[8],
            token_program: &accounts[9],
            associated_token_program: &accounts[10],
        })
    }
}

/// The ten accounts of a Solv vault deposit; the program account is not passed on.
pub open spec fn solv_finance_metas<'info, A>(ctx: SolvFinanceSwapAccounts<'info, A>) -> Seq<CpiAccount<'info, A>> {
    seq![
        writable_signer_meta(ctx.user),
        writable_meta(ctx.user_token_ta),
        writable_meta(ctx.user_target_ta),
        writable_meta(ctx.treasurer_token_ta),
        readonly_meta(ctx.multisig),
        readonly_meta(ctx.mint_token),
        writable_meta(ctx.mint_target),
        writable_meta(ctx.vault),
        readonly_meta(ctx.token_program),
        readonly_meta(ctx.associated_token_program),
    ]
}

/// Discriminator, then the two amounts, little-endian.
pub open spec fn solv_finance_data(in_amount: u64, minimum_out_amount: u64) -> Seq<u8> {
    seq![VAULT_DEPOSIT_DISCRIMINATOR] + spec_u64_to_le_bytes(in_amount) + spec_u64_to_le_bytes(minimum_out_amount)
}

impl SolvFinance {
    /// The Solv `vault_deposit` instruction.
    pub fn instruction<'info, A>(ctx: &SolvFinanceSwapAccounts<'info, A>, in_amount: u64, minimum_out_amount: u64, _data: &()) -> (ix: CpiInstruction<'info, A>)
        ensures
            ix.program == CpiProgram::<'info, A>::Id(SOLV_FINANCE_PROGRAM_ID),
            ix.accounts@ == solv_finance_metas(*ctx),
            ix.account_infos@ == infos_of(ix.accounts@),
            ix.data@ == solv_finance_data(in_amount, minimum_out_amount),
    {
        let mut accounts: Vec<CpiAccount<'info, A>> = Vec::new();
        accounts.push(writable_signer(ctx.user));
        accounts.push(writable(ctx.user_token_ta));
        accounts.push(writable(ctx.user_target_ta));
        accounts.push(writable(ctx.treasurer_token_ta));
        accounts.push(readonly(ctx.multisig));
        accounts.push(readonly(ctx.mint_token));
        accounts.push(writable(ctx.mint_target));
        accounts.push(writable(ctx.vault));
        accounts.push(readonly(ctx.token_program));
        accounts.push(readonly(ctx.associated_token_program));
        let mut bytes: Vec<u8> = Vec::new();
        bytes.push(VAULT_DEPOSIT_DISCRIMINATOR);
        push_u64_le(&mut bytes, in_amount);
        push_u64_le(&mut bytes, minimum_out_amount);
        let ix = instruction(CpiProgram::Id(SOLV_FINANCE_PROGRAM_ID), accounts, bytes);
        assert(ix.accounts@ =~= solv_finance_metas(*ctx));
        assert(ix.data@ =~= solv_finance_data(in_amount, minimum_out_amount));
        ix
    }

    /// Builds the swap instruction and invokes it with the given signer seeds.
    pub fn swap_signed(ctx: &SolvFinanceSwapAccounts<'_, AccountView>, in_amount: u64, minimum_out_amount: u64, _data: &(), signer_seeds: &[Signer]) -> (r: Result<(), SwapError>)
        ensures
            r matches Err(e) ==> e is Runtime,
            invoked_with(
                    CpiProgram::Id(SOLV_FINANCE_PROGRAM_ID),
                    solv_finance_metas(*ctx),
                    infos_of(solv_finance_metas(*ctx)),
                    solv_finance_data(in_amount, minimum_out_amount),
                    signer_seeds,
                    r,
                ),
    {
        let ix = Self::instruction(ctx, in_amount, minimum_out_amount, _data);
        invoke(&ix, signer_seeds)
    }

    /// `swap_signed` without signer seeds.
    pub fn swap(ctx: &SolvFinanceSwapAccounts<'_, AccountView>, in_amount: u64, minimum_out_amount: u64, _data: &()) -> (r: Result<(), SwapError>)
        ensures
            r matches Err(e) ==> e is Runtime,
            invoked_with(
                    CpiProgram::Id(SOLV_FINANCE_PROGRAM_ID),
                    solv_finance_metas(*ctx),
                    infos_of(solv_finance_metas(*ctx)),
                    solv_finance_data(in_amount, minimum_out_amount),
                    &[],
                    r,
                ),
    {
        Self::swap_signed(ctx, in_amount, minimum_out_amount, _data, &[])
    }
}

} // verus!
