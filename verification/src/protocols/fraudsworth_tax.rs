use vstd::prelude::*;
use vstd::bytes::spec_u64_to_le_bytes;
use solana_account_view::AccountView;
use solana_instruction_view::cpi::Signer;
use crate::bytes::{push_bytes, push_u64_le};
use crate::cpi::{
    CpiAccount, CpiInstruction, CpiProgram, infos_of, instruction, readonly, readonly_meta,
    writable, writable_meta, writable_signer, writable_signer_meta,
};
use crate::error::SwapError;
use crate::runtime::{invoke, invoked_with};

verus! {

pub const FRAUDSWORTH_TAX_PROGRAM_ID: [u8; 32] = [45, 65, 209, 114, 183, 158, 14, 46, 96, 175, 143, 213, 174, 7, 234, 135, 65, 158, 248, 30, 46, 242, 241, 38, 205, 30, 10, 29, 245, 82, 141, 128];

pub const SWAP_SOL_BUY_DISCRIMINATOR: [u8; 8] = [158, 213, 169, 65, 11, 116, 176, 25];
pub const SWAP_SOL_SELL_DISCRIMINATOR: [u8; 8] = [136, 242, 218, 149, 17, 222, 250, 240];

pub const BUY_ACCOUNTS_LEN: usize = 24;
pub const SELL_ACCOUNTS_LEN: usize = 25;

pub struct FraudsworthTax;

#[derive(Clone, Copy, Debug, PartialEq, Eq, Structural)]
pub struct FraudsworthTaxSwapData {
    pub is_buy: bool,
    pub is_crime: bool,
}

impl FraudsworthTaxSwapData {
    pub const DATA_LEN: usize = 2;

    /// The side, then the pool (CRIME or FRAUD); each set unless its byte is zero.
    pub fn try_from(data: &[u8]) -> (r: Result<Self, SwapError>)
        ensures
            data@.len() < Self::DATA_LEN ==> r == Err::<Self, SwapError>(SwapError::InvalidInstructionData),
            data@.len() >= Self::DATA_LEN ==> r == Ok::<Self, SwapError>(FraudsworthTaxSwapData { is_buy: data@[0] != 0, is_crime: data@[1] != 0 }),
    {
        if data.len() < Self::DATA_LEN {
            return Err(SwapError::InvalidInstructionData);
        }
        Ok(FraudsworthTaxSwapData { is_buy: data[0] != 0, is_crime: data[1] != 0 })
    }
}

pub struct FraudsworthTaxSwapAccounts<'info, A> {
    pub fraudsworth_tax_program: &'info A,
    pub user: &'info A,
    pub epoch_state: &'info A,
    pub swap_authority: &'info A,
    pub tax_authority: &'info A,
    pub pool: &'info A,
    pub pool_vault_a: &'info A,
    pub pool_vault_b: &'info A,
    pub mint_a: &'info A,
    pub mint_b: &'info A,
    pub user_token_a: &'info A,
    pub user_token_b: &'info A,
    pub stake_pool: &'info A,
    pub staking_escrow: &'info A,
    pub carnage_vault: &'info A,
    pub treasury: &'info A,
    pub wsol_intermediary: Option<&'info A>,
    pub amm_program: &'info A,
    pub token_program_a: &'info A,
    pub token_program_b: &'info A,
    pub system_program: &'info A,
    pub staking_program: &'info A,
    pub extra_account_meta_list: &'info A,
    pub whitelist_source: &'info A,
    pub whitelist_destination: &'info A,
    pub transfer_hook_program: &'info A,
}

/// `c` holds the accounts of `s` in the order of its fields: sixteen, the
/// wrapped SOL intermediary where there are twenty-six accounts, then nine.
pub open spec fn fraudsworth_tax_accounts_laid_out<'info, A>(c: FraudsworthTaxSwapAccounts<'info, A>, s: Seq<A>) -> bool {
    let t: int = if s.len() == 26 { 17 } else { 16 };
    &&& *c.fraudsworth_tax_program == s[0]
    &&& *c.user == s[1]
    &&& *c.epoch_state == s[2]
    &&& *c.swap_authority == s[3]
    &&& *c.tax_authority == s[4]
    &&& *c.pool == s[5]
    &&& *c.pool_vault_a == s[6]
    &&& *c.pool_vault_b == s[7]
    &&& *c.mint_a == s[8]
    &&& *c.mint_b == s[9]
    &&& *c.user_token_a == s[10]
    &&& *c.user_token_b == s[11]
    &&& *c.stake_pool == s[12]
    &&& *c.staking_escrow == s[13]
    &&& *c.carnage_vault == s[14]
    &&& *c.treasury == s[15]
    &&& (s.len() == 26 <==> c.wsol_intermediary is Some)
    &&& (c.wsol_intermediary matches Some(w) ==> *w == s[16])
    &&& *c.amm_program == s[t + 0]
    &&& *c.token_program_a == s[t + 1]
    &&& *c.token_program_b == s[t + 2]
    &&& *c.system_program == s[t + 3]
    &&& *c.staking_program == s[t + 4]
    &&& *c.extra_account_meta_list == s[t + 5]
    &&& *c.whitelist_source == s[t + 6]
    &&& *c.whitelist_destination == s[t + 7]
    &&& *c.transfer_hook_program == s[t + 8]
}

impl<'info, A> FraudsworthTaxSwapAccounts<'info, A> {
    pub const MIN_NUM_ACCOUNTS: usize = BUY_ACCOUNTS_LEN + 1;

    /// Twenty-five accounts, or twenty-six with the wrapped SOL intermediary.
    pub fn try_from(accounts: &'info [A]) -> (r: Result<Self, SwapError>)
        ensures
            accounts@.len() != 25 && accounts@.len() != 26 ==> r == Err::<Self, SwapError>(SwapError::NotEnoughAccountKeys),
            accounts@.len() == 25 || accounts@.len() == 26 ==> (r matches Ok(c) && fraudsworth_tax_accounts_laid_out(c, accounts@)),
    {
        if accounts.len() != 25 && accounts.len() != 26 {
            return Err(SwapError::NotEnoughAccountKeys);
        }
        let (wsol_intermediary, t) = if accounts.len() == 26 { (Some(&accounts[16]), 17usize) } else { (None, 16usize) };
        Ok(FraudsworthTaxSwapAccounts {
            fraudsworth_tax_program: &accounts[0],
            user: &accounts[1],
            epoch_state: &accounts[2],
            swap_authority: &accounts[3],
            tax_authority: &accounts[4],
            pool: &accounts[5],
            pool_vault_a: &accounts[6],
            pool_vault_b: &accounts[7],
            mint_a: &accounts[8],
            mint_b: &accounts[9],
            user_token_a: &accounts[10],
            user_token_b: &accounts[11],
            stake_pool: &accounts[12],
            staking_escrow: &accounts[13],
            carnage_vault: &accounts[14],
            treasury: &accounts[15],
            wsol_intermediary,
            amm_program: &accounts[t + 0],
            token_program_a: &accounts[t + 1],
            token_program_b: &accounts[t + 2],
            system_program: &accounts[t + 3],
            staking_program: &accounts[t + 4],
            extra_account_meta_list: &accounts[t + 5],
            whitelist_source: &accounts[t + 6],
            whitelist_destination: &accounts[t + 7],
            transfer_hook_program: &accounts[t + 8],
        })
    }
}

/// The accounts of the instruction: the swap authority is writable on a sell
/// only, and the wrapped SOL intermediary, where there is one, comes after the
/// treasury.
pub open spec fn fraudsworth_tax_metas<'info, A>(ctx: FraudsworthTaxSwapAccounts<'info, A>, data: FraudsworthTaxSwapData) -> Seq<CpiAccount<'info, A>> {
    seq![
        writable_signer_meta(ctx.user),
        readonly_meta(ctx.epoch_state),
        if data.is_buy { readonly_meta(ctx.swap_authority) } else { writable_meta(ctx.swap_authority) },
        readonly_meta(ctx.tax_authority),
        writable_meta(ctx.pool),
        writable_meta(ctx.pool_vault_a),
        writable_meta(ctx.pool_vault_b),
        readonly_meta(ctx.mint_a),
        readonly_meta(ctx.mint_b),
        writable_meta(ctx.user_token_a),
        writable_meta(ctx.user_token_b),
        writable_meta(ctx.stake_pool),
        writable_meta(ctx.staking_escrow),
        writable_meta(ctx.carnage_vault),
        writable_meta(ctx.treasury),
    ] + match ctx.wsol_intermediary {
        Some(w) => seq![writable_meta(w)],
        None => Seq::empty(),
    } + seq![
        readonly_meta(ctx.amm_program),
        readonly_meta(ctx.token_program_a),
        readonly_meta(ctx.token_program_b),
        readonly_meta(ctx.system_program),
        readonly_meta(ctx.staking_program),
        readonly_meta(ctx.extra_account_meta_list),
        readonly_meta(ctx.whitelist_source),
        readonly_meta(ctx.whitelist_destination),
        readonly_meta(ctx.transfer_hook_program),
    ]
}

/// Discriminator of the side, the two amounts, little-endian, then the pool flag.
pub open spec fn fraudsworth_tax_data(in_amount: u64, minimum_out_amount: u64, data: FraudsworthTaxSwapData) -> Seq<u8> {
    (if data.is_buy { SWAP_SOL_BUY_DISCRIMINATOR@ } else { SWAP_SOL_SELL_DISCRIMINATOR@ })
        + spec_u64_to_le_bytes(in_amount) + spec_u64_to_le_bytes(minimum_out_amount)
        + seq![if data.is_crime { 1u8 } else { 0u8 }]
}

impl FraudsworthTax {
    /// The Fraudsworth tax swap instruction. A buy takes no wrapped SOL
    /// intermediary and a sell needs one.
    pub fn instruction<'info, A>(ctx: &FraudsworthTaxSwapAccounts<'info, A>, in_amount: u64, minimum_out_amount: u64, data: &FraudsworthTaxSwapData) -> (r: Result<CpiInstruction<'info, A>, SwapError>)
        ensures
            data.is_buy && ctx.wsol_intermediary is Some ==> r == Err::<CpiInstruction<'info, A>, SwapError>(SwapError::InvalidAccountData),
            !data.is_buy && ctx.wsol_intermediary is None ==> r == Err::<CpiInstruction<'info, A>, SwapError>(SwapError::NotEnoughAccountKeys),
            data.is_buy == (ctx.wsol_intermediary is None) ==> (r matches Ok(ix) && {
                &&& ix.program == CpiProgram::<'info, A>::Id(FRAUDSWORTH_TAX_PROGRAM_ID)
                &&& ix.accounts@ == fraudsworth_tax_metas(*ctx, *data)
                &&& ix.account_infos@ == infos_of(ix.accounts@)
                &&& ix.data@ == fraudsworth_tax_data(in_amount, minimum_out_amount, *data)
            }),
    {
        if data.is_buy && ctx.wsol_intermediary.is_some() {
            return Err(SwapError::InvalidAccountData);
        }
        if !data.is_buy && ctx.wsol_intermediary.is_none() {
            return Err(SwapError::NotEnoughAccountKeys);
        }
        let mut accounts: Vec<CpiAccount<'info, A>> = Vec::new();
        accounts.push(writable_signer(ctx.user));
        accounts.push(readonly(ctx.epoch_state));
        accounts.push(if data.is_buy { readonly(ctx.swap_authority) } else { writable(ctx.swap_authority) });
        accounts.push(readonly(ctx.tax_authority));
        accounts.push(writable(ctx.pool));
        accounts.push(writable(ctx.pool_vault_a));
        accounts.push(writable(ctx.pool_vault_b));
        accounts.push(readonly(ctx.mint_a));
        accounts.push(readonly(ctx.mint_b));
        accounts.push(writable(ctx.user_token_a));
        accounts.push(writable(ctx.user_token_b));
        accounts.push(writable(ctx.stake_pool));
        accounts.push(writable(ctx.staking_escrow));
        accounts.push(writable(ctx.carnage_vault));
        accounts.push(writable(ctx.treasury));
        match ctx.wsol_intermediary {
            Some(w) => accounts.push(writable(w)),
            None => {},
        }
        accounts.push(readonly(ctx.amm_program));
        accounts.push(readonly(ctx.token_program_a));
        accounts.push(readonly(ctx.token_program_b));
        accounts.push(readonly(ctx.system_program));
        accounts.push(readonly(ctx.staking_program));
        accounts.push(readonly(ctx.extra_account_meta_list));
        accounts.push(readonly(ctx.whitelist_source));
        accounts.push(readonly(ctx.whitelist_destination));
        accounts.push(readonly(ctx.transfer_hook_program));
        let mut bytes: Vec<u8> = Vec::new();
        if data.is_buy {
            push_bytes(&mut bytes, &SWAP_SOL_BUY_DISCRIMINATOR);
        } else {
            push_bytes(&mut bytes, &SWAP_SOL_SELL_DISCRIMINATOR);
        }
        push_u64_le(&mut bytes, in_amount);
        push_u64_le(&mut bytes, minimum_out_amount);
        bytes.push(if data.is_crime { 1u8 } else { 0u8 });
        let ix = instruction(CpiProgram::Id(FRAUDSWORTH_TAX_PROGRAM_ID), accounts, bytes);
        assert(ix.accounts@ =~= fraudsworth_tax_metas(*ctx, *data));
        assert(ix.data@ =~= fraudsworth_tax_data(in_amount, minimum_out_amount, *data));
        Ok(ix)
    }

    /// Builds the swap instruction and invokes it with the given signer seeds.
    pub fn swap_signed(ctx: &FraudsworthTaxSwapAccounts<'_, AccountView>, in_amount: u64, minimum_out_amount: u64, data: &FraudsworthTaxSwapData, signer_seeds: &[Signer]) -> (r: Result<(), SwapError>)
        ensures
            data.is_buy && ctx.wsol_intermediary is Some ==> r == Err::<(), SwapError>(SwapError::InvalidAccountData),
            !data.is_buy && ctx.wsol_intermediary is None ==> r == Err::<(), SwapError>(SwapError::NotEnoughAccountKeys),
            data.is_buy == (ctx.wsol_intermediary is None) ==> (r matches Err(e) ==> e is Runtime),
            data.is_buy == (ctx.wsol_intermediary is None) ==> invoked_with(
                    CpiProgram::Id(FRAUDSWORTH_TAX_PROGRAM_ID),
                    fraudsworth_tax_metas(*ctx, *data),
                    infos_of(fraudsworth_tax_metas(*ctx, *data)),
                    fraudsworth_tax_data(in_amount, minimum_out_amount, *data),
                    signer_seeds,
                    r,
                ),
    {
        let ix = Self::instruction(ctx, in_amount, minimum_out_amount, data)?;
        invoke(&ix, signer_seeds)
    }

    /// `swap_signed` without signer seeds.
    pub fn swap(ctx: &FraudsworthTaxSwapAccounts<'_, AccountView>, in_amount: u64, minimum_out_amount: u64, data: &FraudsworthTaxSwapData) -> (r: Result<(), SwapError>)
        ensures
            data.is_buy && ctx.wsol_intermediary is Some ==> r == Err::<(), SwapError>(SwapError::InvalidAccountData),
            !data.is_buy && ctx.wsol_intermediary is None ==> r == Err::<(), SwapError>(SwapError::NotEnoughAccountKeys),
            data.is_buy == (ctx.wsol_intermediary is None) ==> (r matches Err(e) ==> e is Runtime),
            data.is_buy == (ctx.wsol_intermediary is None) ==> invoked_with(
                    CpiProgram::Id(FRAUDSWORTH_TAX_PROGRAM_ID),
                    fraudsworth_tax_metas(*ctx, *data),
                    infos_of(fraudsworth_tax_metas(*ctx, *data)),
                    fraudsworth_tax_data(in_amount, minimum_out_amount, *data),
                    &[],
                    r,
                ),
    {
        Self::swap_signed(ctx, in_amount, minimum_out_amount, data, &[])
    }
}

/// A buy passes `BUY_ACCOUNTS_LEN` accounts and a sell `SELL_ACCOUNTS_LEN`.
pub proof fn lemma_fraudsworth_tax_account_count<'info, A>(ctx: FraudsworthTaxSwapAccounts<'info, A>, data: FraudsworthTaxSwapData)
    requires
        data.is_buy == (ctx.wsol_intermediary is None),
    ensures
        fraudsworth_tax_metas(ctx, data).len() == if data.is_buy { BUY_ACCOUNTS_LEN } else { SELL_ACCOUNTS_LEN },
{
}

} // verus!
