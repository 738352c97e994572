use vstd::prelude::*;
use vstd::bytes::spec_u64_to_le_bytes;
use solana_account_view::AccountView;
use solana_instruction_view::cpi::Signer;
use crate::bytes::{push_bytes, push_u64_le};
use crate::cpi::{
    CpiAccount, CpiInstruction, CpiProgram, infos_of, instruction, readonly, readonly_meta,
    writable, writable_meta, writable_signer, writable_signer_meta,
};
use crate::error::SwapError;
use crate::runtime::{invoke, invoked_with};

verus! {

pub const STABBLE_STABLE_PROGRAM_ID: [u8; 32] = [13, 12, 193, 248, 239, 141, 238, 175, 144, 68, 158, 35, 127, 56, 60, 151, 110, 54, 189, 83, 101, 45, 54, 121, 224, 17, 141, 21, 139, 115, 30, 66];

pub const SWAP_V2_DISCRIMINATOR: [u8; 8] = [43, 4, 237, 11, 26, 201, 30, 98];

pub struct StabbleStable;

pub struct StabbleStableSwapAccounts<'info, A> {
    pub stabble_program: &'info A,
    pub user: &'info A,
    pub mint_in: &'info A,
    pub mint_out: &'info A,
    pub user_token_in: &'info A,
    pub user_token_out: &'info A,
    pub vault_token_in: &'info A,
    pub vault_token_out: &'info A,
    pub beneficiary_token_out: &'info A,
    pub pool: &'info A,
    pub withdraw_authority: &'info A,
    pub vault: &'info A,
    pub vault_authority: &'info A,
    pub vault_program: &'info A,
    pub token_program: &'info A,
    pub token_2022_program: &'info A,
}

/// `c` holds the accounts of `s` in the order of its fields.
pub open spec fn stabble_stable_accounts_laid_out<'info, A>(c: StabbleStableSwapAccounts<'info, A>, s: Seq<A>) -> bool {
    &&& *c.stabble_program == s[0]
    &&& *c.user == s[1]
    &&& *c.mint_in == s[2]
    &&& *c.mint_out == s[3]
    &&& *c.user_token_in == s[4]
    &&& *c.user_token_out == s[5]
    &&& *c.vault_token_in == s[6]
    &&& *c.vault_token_out == s[7]
    &&& *c.beneficiary_token_out == s[8]
    &&& *c.pool == s[9]
    &&& *c.withdraw_authority == s[10]
    &&& *c.vault == s[11]
    &&& *c.vault_authority == s[12]
    &&& *c.vault_program == s[13]
    &&& *c.token_program == s[14]
    &&& *c.token_2022_program == s[15]
}

impl<'info, A> StabbleStableSwapAccounts<'info, A> {
    pub const NUM_ACCOUNTS: usize = 16;

    pub fn try_from(accounts: &'info [A]) -> (r: Result<Self, SwapError>)
        ensures
            accounts@.len() < 16 ==> r == Err::<Self, SwapError>(SwapError::NotEnoughAccountKeys),
            accounts@.len() >= 16 ==> (r matches Ok(c) && stabble_stable_accounts_laid_out(c, accounts@)),
    {
        if accounts.len() < 16 {
            return Err(SwapError::NotEnoughAccountKeys);
        }
        Ok(StabbleStableSwapAccounts {
            stabble_program: &accounts[0],
            user: &accounts[1],
            mint_in: &accounts[2],
            mint_out: &accounts[3],
            user_token_in: &accounts[4],
            user_token_out: &accounts[5],
            vault_token_in: &accounts[6],
            vault_token_out: &accounts[7],
            beneficiary_token_out: &accounts[8],
            pool: &accounts[9],
            withdraw_authority: &accounts[10],
            vault: &accounts[11],
            vault_authority: &accounts[12],
            vault_program: &accounts[13],
            token_program: &accounts[14],
            token_2022_program: &accounts[15],
        })
    }
}

/// The fifteen accounts of a Stabble stable swap; the program account is not passed on.
pub open spec fn stabble_stable_metas<'info, A>(ctx: StabbleStableSwapAccounts<'info, A>) -> Seq<CpiAccount<'info, A>> {
    seq![
        writable_signer_meta(ctx.user),
        readonly_meta(ctx.mint_in),
        readonly_meta(ctx.mint_out),
        writable_meta(ctx.user_token_in),
        writable_meta(ctx.user_token_out),
        writable_meta(ctx.vault_token_in),
        writable_meta(ctx.vault_token_out),
        writable_meta(ctx.beneficiary_token_out),
        writable_meta(ctx.pool),
        readonly_meta(ctx.withdraw_authority),
        readonly_meta(ctx.vault),
        readonly_meta(ctx.vault_authority),
        readonly_meta(ctx.vault_program),
        readonly_meta(ctx.token_program),
        readonly_meta(ctx.token_2022_program),
    ]
}

/// Discriminator, `Some` tag of the amount in, then the two amounts, little-endian.
pub open spec fn stabble_stable_data(in_amount: u64, minimum_out_amount: u64) -> Seq<u8> {
    SWAP_V2_DISCRIMINATOR@ + seq![1u8] + spec_u64_to_le_bytes(in_amount) + spec_u64_to_le_bytes(minimum_out_amount)
}

impl StabbleStable {
    /// The Stabble `swap_v2` instruction, with an amount in given.
    pub fn instruction<'info, A>(ctx: &StabbleStableSwapAccounts<'info, A>, in_amount: u64, minimum_out_amount: u64, _data: &()) -> (ix: CpiInstruction<'info, A>)
        ensures
            ix.program == CpiProgram::<'info, A>::Id(STABBLE_STABLE_PROGRAM_ID),
            ix.accounts@ == stabble_stable_metas(*ctx),
            ix.account_infos@ == infos_of(ix.accounts@),
            ix.data@ == stabble_stable_data(in_amount, minimum_out_amount),
    {
        let mut accounts: Vec<CpiAccount<'info, A>> = Vec::new();
        accounts.push(writable_signer(ctx.user));
        accounts.push(readonly(ctx.mint_in));
        accounts.push(readonly(ctx.mint_out));
        accounts.push(writable(ctx.user_token_in));
        accounts.push(writable(ctx.user_token_out));
        accounts.push(writable(ctx.vault_token_in));
        accounts.push(writable(ctx.vault_token_out));
        accounts.push(writable(ctx.beneficiary_token_out));
        accounts.push(writable(ctx.pool));
        accounts.push(readonly(ctx.withdraw_authority));
        accounts.push(readonly(ctx.vault));
        accounts.push(readonly(ctx.vault_authority));
        accounts.push(readonly(ctx.vault_program));
        accounts.push(readonly(ctx.token_program));
        accounts.push(readonly(ctx.token_2022_program));
        let mut bytes: Vec<u8> = Vec::new();
        push_bytes(&mut bytes, &SWAP_V2_DISCRIMINATOR);
        bytes.push(1u8);
        push_u64_le(&mut bytes, in_amount);
        push_u64_le(&mut bytes, minimum_out_amount);
        let ix = instruction(CpiProgram::Id(STABBLE_STABLE_PROGRAM_ID), accounts, bytes);
        assert(ix.accounts@ =~= stabble_stable_metas(*ctx));
        assert(ix.data@ =~= stabble_stable_data(in_amount, minimum_out_amount));
        ix
    }

    /// Builds the swap instruction and invokes it with the given signer seeds.
    pub fn swap_signed(ctx: &StabbleStableSwapAccounts<'_, AccountView>, in_amount: u64, minimum_out_amount: u64, _data: &(), signer_seeds: &[Signer]) -> (r: Result<(), SwapError>)
        ensures
            r matches Err(e) ==> e is Runtime,
            invoked_with(
                    CpiProgram::Id(STABBLE_STABLE_PROGRAM_ID),
                    stabble_stable_metas(*ctx),
                    infos_of(stabble_stable_metas(*ctx)),
                    stabble_stable_data(in_amount, minimum_out_amount),
                    signer_seeds,
                    r,
                ),
    {
        let ix = Self::instruction(ctx, in_amount, minimum_out_amount, _data);
        invoke(&ix, signer_seeds)
    }

    /// `swap_signed` without signer seeds.
    pub fn swap(ctx: &StabbleStableSwapAccounts<'_, AccountView>, in_amount: u64, minimum_out_amount: u64, _data: &()) -> (r: Result<(), SwapError>)
        ensures
            r matches Err(e) ==> e is Runtime,
            invoked_with(
                    CpiProgram::Id(STABBLE_STABLE_PROGRAM_ID),
                    stabble_stable_metas(*ctx),
                    infos_of(stabble_stable_metas(*ctx)),
                    stabble_stable_data(in_amount, minimum_out_amount),
                    &[],
                    r,
                ),
    {
        Self::swap_signed(ctx, in_amount, minimum_out_amount, _data, &[])
    }
}

} // verus!
