use vstd::prelude::*;
use vstd::bytes::spec_u64_to_le_bytes;
use solana_account_view::AccountView;
use solana_instruction_view::cpi::Signer;
use crate::bytes::push_u64_le;
use crate::cpi::{
    CpiAccount, CpiInstruction, CpiProgram, infos_of, instruction, readonly, readonly_meta,
    writable, writable_meta, writable_signer, writable_signer_meta,
};
use crate::error::SwapError;
use crate::runtime::{invoke, invoked_with};

verus! {

pub const ORE_LST_PROGRAM_ID: [u8; 32] = [4, 251, 80, 194, 234, 15, 72, 106, 104, 80, 91, 93, 174, 212, 106, 243, 71, 70, 149, 89, 215, 70, 161, 100, 153, 213, 221, 81, 78, 163, 190, 130];

pub const WRAP_DISCRIMINATOR: u8 = 3;
pub const UNWRAP_DISCRIMINATOR: u8 = 2;

pub struct OreLst;

#[derive(Clone, Copy, Debug, PartialEq, Eq)]
pub struct OreLstSwapData {
    pub is_wrap: bool,
}

impl OreLstSwapData {
    pub const DATA_LEN: usize = 1;

    /// A wrap unless the first byte is zero.
    pub fn try_from(data: &[u8]) -> (r: Result<Self, SwapError>)
        ensures
            data@.len() < Self::DATA_LEN ==> r == Err::<Self, SwapError>(SwapError::InvalidInstructionData),
            data@.len() >= Self::DATA_LEN ==> (r matches Ok(d) && d.is_wrap == (data@[0] != 0)),
    {
        if data.len() < Self::DATA_LEN {
            return Err(SwapError::InvalidInstructionData);
        }
        Ok(OreLstSwapData { is_wrap: data[0] != 0 })
    }
}

pub struct OreLstSwapAccounts<'info, A> {
    pub ore_lst_program: &'info A,
    pub signer: &'info A,
    pub payer: &'info A,
    pub sender_ore: &'info A,
    pub sender_store: &'info A,
    pub ore_mint: &'info A,
    pub store_mint: &'info A,
    pub stake: &'info A,
    pub stake_tokens: &'info A,
    pub treasury: &'info A,
    pub treasury_tokens: &'info A,
    pub vault: &'info A,
    pub vault_tokens: &'info A,
    pub system_program: &'info A,
    pub token_program: &'info A,
    pub associated_token_program: &'info A,
    pub ore_stake_program: &'info A,
}

/// `c` holds the accounts of `s` in the order of its fields.
pub open spec fn ore_lst_accounts_laid_out<'info, A>(c: OreLstSwapAccounts<'info, A>, s: Seq<A>) -> bool {
    &&& *c.ore_lst_program == s[0]
    &&& *c.signer == s[1]
    &&& *c.payer == s[2]
    &&& *c.sender_ore == s[3]
    &&& *c.sender_store == s[4]
    &&& *c.ore_mint == s[5]
    &&& *c.store_mint == s[6]
    &&& *c.stake == s[7]
    &&& *c.stake_tokens == s[8]
    &&& *c.treasury == s[9]
    &&& *c.treasury_tokens == s[10]
    &&& *c.vault == s[11]
    &&& *c.vault_tokens == s[12]
    &&& *c.system_program == s[13]
    &&& *c.token_program == s[14]
    &&& *c.associated_token_program == s[15]
    &&& *c.ore_stake_program == s[16]
}

impl<'info, A> OreLstSwapAccounts<'info, A> {
    pub const NUM_ACCOUNTS: usize = 17;

    pub fn try_from(accounts: &'info [A]) -> (r: Result<Self, SwapError>)
        ensures
            accounts@.len() != 17 ==> r == Err::<Self, SwapError>(SwapError::NotEnoughAccountKeys),
            accounts@.len() == 17 ==> (r matches Ok(c) && ore_lst_accounts_laid_out(c, accounts@)),
    {
        if accounts.len() != 17 {
            return Err(SwapError::NotEnoughAccountKeys);
        }
        Ok(OreLstSwapAccounts {
            ore_lst_program: &accounts[0],
            signer: &accounts[1],
            payer: &accounts[2],
            sender_ore: &accounts[3],
            sender_store: &accounts[4],
            ore_mint: &accounts[5],
            store_mint: &accounts[6],
            stake: &accounts[7],
            stake_tokens: &accounts[8],
            treasury: &accounts[9],
            treasury_tokens: &accounts[10],
            vault: &accounts[11],
            vault_tokens: &accounts[12],
            system_program: &accounts[13],
            token_program: &accounts[14],
            associated_token_program: &accounts[15],
            ore_stake_program: &accounts[16],
        })
    }
}

/// The sixteen accounts of an ORE LST wrap or unwrap; the program account is not passed on.
pub open spec fn ore_lst_metas<'info, A>(ctx: OreLstSwapAccounts<'info, A>) -> Seq<CpiAccount<'info, A>> {
    seq![
        writable_signer_meta(ctx.signer),
        writable_signer_meta(ctx.payer),
        writable_meta(ctx.sender_ore),
        writable_meta(ctx.sender_store),
        writable_meta(ctx.ore_mint),
        writable_meta(ctx.store_mint),
        writable_meta(ctx.stake),
        writable_meta(ctx.stake_tokens),
        writable_meta(ctx.treasury),
        writable_meta(ctx.treasury_tokens),
        writable_meta(ctx.vault),
        writable_meta(ctx.vault_tokens),
        readonly_meta(ctx.system_program),
        readonly_meta(ctx.token_program),
        readonly_meta(ctx.associated_token_program),
        readonly_meta(ctx.ore_stake_program),
    ]
}

/// Wrap or unwrap discriminator, then the amount in, little-endian.
pub open spec fn ore_lst_data(in_amount: u64, minimum_out_amount: u64, data: OreLstSwapData) -> Seq<u8> {
    seq![if data.is_wrap { WRAP_DISCRIMINATOR } else { UNWRAP_DISCRIMINATOR }] + spec_u64_to_le_bytes(in_amount)
}

impl OreLst {
    /// The ORE LST wrap or unwrap instruction.
    pub fn instruction<'info, A>(ctx: &OreLstSwapAccounts<'info, A>, in_amount: u64, minimum_out_amount: u64, data: &OreLstSwapData) -> (ix: CpiInstruction<'info, A>)
        ensures
            ix.program == CpiProgram::<'info, A>::Id(ORE_LST_PROGRAM_ID),
            ix.accounts@ == ore_lst_metas(*ctx),
            ix.account_infos@ == infos_of(ix.accounts@),
            ix.data@ == ore_lst_data(in_amount, minimum_out_amount, *data),
    {
        let mut accounts: Vec<CpiAccount<'info, A>> = Vec::new();
        accounts.push(writable_signer(ctx.signer));
        accounts.push(writable_signer(ctx.payer));
        accounts.push(writable(ctx.sender_ore));
        accounts.push(writable(ctx.sender_store));
        accounts.push(writable(ctx.ore_mint));
        accounts.push(writable(ctx.store_mint));
        accounts.push(writable(ctx.stake));
        accounts.push(writable(ctx.stake_tokens));
        accounts.push(writable(ctx.treasury));
        accounts.push(writable(ctx.treasury_tokens));
        accounts.push(writable(ctx.vault));
        accounts.push(writable(ctx.vault_tokens));
        accounts.push(readonly(ctx.system_program));
        accounts.push(readonly(ctx.token_program));
        accounts.push(readonly(ctx.associated_token_program));
        accounts.push(readonly(ctx.ore_stake_program));
        let mut bytes: Vec<u8> = Vec::new();
        bytes.push(if data.is_wrap { WRAP_DISCRIMINATOR } else { UNWRAP_DISCRIMINATOR });
        push_u64_le(&mut bytes, in_amount);
        let ix = instruction(CpiProgram::Id(ORE_LST_PROGRAM_ID), accounts, bytes);
        assert(ix.accounts@ =~= ore_lst_metas(*ctx));
        assert(ix.data@ =~= ore_lst_data(in_amount, minimum_out_amount, *data));
        ix
    }

    /// Builds the swap instruction and invokes it with the given signer seeds.
    pub fn swap_signed(ctx: &OreLstSwapAccounts<'_, AccountView>, in_amount: u64, minimum_out_amount: u64, data: &OreLstSwapData, signer_seeds: &[Signer]) -> (r: Result<(), SwapError>)
        ensures
            r matches Err(e) ==> e is Runtime,
            invoked_with(
                    CpiProgram::Id(ORE_LST_PROGRAM_ID),
                    ore_lst_metas(*ctx),
                    infos_of(ore_lst_metas(*ctx)),
                    ore_lst_data(in_amount, minimum_out_amount, *data),
                    signer_seeds,
                    r,
                ),
    {
        let ix = Self::instruction(ctx, in_amount, minimum_out_amount, data);
        invoke(&ix, signer_seeds)
    }

    /// `swap_signed` without signer seeds.
    pub fn swap(ctx: &OreLstSwapAccounts<'_, AccountView>, in_amount: u64, minimum_out_amount: u64, data: &OreLstSwapData) -> (r: Result<(), SwapError>)
        ensures
            r matches Err(e) ==> e is Runtime,
            invoked_with(
                    CpiProgram::Id(ORE_LST_PROGRAM_ID),
                    ore_lst_metas(*ctx),
                    infos_of(ore_lst_metas(*ctx)),
                    ore_lst_data(in_amount, minimum_out_amount, *data),
                    &[],
                    r,
                ),
    {
        Self::swap_signed(ctx, in_amount, minimum_out_amount, data, &[])
    }
}

} // verus!
