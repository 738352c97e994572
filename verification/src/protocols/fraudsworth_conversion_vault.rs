use vstd::prelude::*;
use vstd::bytes::spec_u64_to_le_bytes;
use solana_account_view::AccountView;
use solana_instruction_view::cpi::Signer;
use crate::bytes::{push_bytes, push_u64_le};
use crate::cpi::{
    CpiAccount, CpiInstruction, CpiProgram, infos_of, instruction, readonly, readonly_meta,
    readonly_signer, readonly_signer_meta, writable, writable_meta,
};
use crate::error::SwapError;
use crate::runtime::{invoke, invoked_with};
use vstd::bytes::spec_u64_from_le_bytes;
use crate::bytes::read_u64_le;

verus! {

pub const FRAUDSWORTH_CONVERSION_VAULT_PROGRAM_ID: [u8; 32] = [1, 65, 200, 7, 24, 6, 122, 173, 27, 233, 184, 13, 186, 222, 123, 33, 97, 71, 65, 53, 2, 148, 154, 123, 111, 241, 235, 19, 72, 180, 198, 85];

pub const CONVERT_V2_DISCRIMINATOR: [u8; 8] = [2, 169, 12, 141, 64, 38, 20, 20];

pub struct FraudsworthConversionVault;

#[derive(Clone, Copy, Debug, PartialEq, Eq)]
pub struct FraudsworthConversionVaultSwapData {
    pub pre_balance: u64,
}

impl FraudsworthConversionVaultSwapData {
    pub const DATA_LEN: usize = 8;

    /// The pre-balance is the little-endian `u64` in the first eight bytes.
    pub fn try_from(data: &[u8]) -> (r: Result<Self, SwapError>)
        ensures
            data@.len() < Self::DATA_LEN ==> r == Err::<Self, SwapError>(SwapError::InvalidInstructionData),
            data@.len() >= Self::DATA_LEN ==> (r matches Ok(d) && d.pre_balance == spec_u64_from_le_bytes(data@.subrange(0, 8))),
    {
        if data.len() < Self::DATA_LEN {
            return Err(SwapError::InvalidInstructionData);
        }
        Ok(FraudsworthConversionVaultSwapData { pre_balance: read_u64_le(data, 0) })
    }
}

pub struct FraudsworthConversionVaultSwapAccounts<'info, A> {
    pub fraudsworth_conversion_vault_program: &'info A,
    pub user: &'info A,
    pub vault_config: &'info A,
    pub user_input_account: &'info A,
    pub user_output_account: &'info A,
    pub input_mint: &'info A,
    pub output_mint: &'info A,
    pub vault_input: &'info A,
    pub vault_output: &'info A,
    pub token_program: &'info A,
    pub input_mint_extra_account_meta_list: &'info A,
    pub input_mint_whitelist_source: &'info A,
    pub input_mint_whitelist_destination: &'info A,
    pub input_mint_transfer_hook_program: &'info A,
    pub output_mint_extra_account_meta_list: &'info A,
    pub output_mint_whitelist_source: &'info A,
    pub output_mint_whitelist_destination: &'info A,
    pub output_mint_transfer_hook_program: &'info A,
}

/// `c` holds the accounts of `s` in the order of its fields.
pub open spec fn fraudsworth_conversion_vault_accounts_laid_out<'info, A>(c: FraudsworthConversionVaultSwapAccounts<'info, A>, s: Seq<A>) -> bool {
    &&& *c.fraudsworth_conversion_vault_program == s[0]
    &&& *c.user == s[1]
    &&& *c.vault_config == s[2]
    &&& *c.user_input_account == s[3]
    &&& *c.user_output_account == s[4]
    &&& *c.input_mint == s[5]
    &&& *c.output_mint == s[6]
    &&& *c.vault_input == s[7]
    &&& *c.vault_output == s[8]
    &&& *c.token_program == s[9]
    &&& *c.input_mint_extra_account_meta_list == s[10]
    &&& *c.input_mint_whitelist_source == s[11]
    &&& *c.input_mint_whitelist_destination == s[12]
    &&& *c.input_mint_transfer_hook_program == s[13]
    &&& *c.output_mint_extra_account_meta_list == s[14]
    &&& *c.output_mint_whitelist_source == s[15]
    &&& *c.output_mint_whitelist_destination == s[16]
    &&& *c.output_mint_transfer_hook_program == s[17]
}

impl<'info, A> FraudsworthConversionVaultSwapAccounts<'info, A> {
    pub const NUM_ACCOUNTS: usize = 18;

    pub fn try_from(accounts: &'info [A]) -> (r: Result<Self, SwapError>)
        ensures
            accounts@.len() != 18 ==> r == Err::<Self, SwapError>(SwapError::NotEnoughAccountKeys),
            accounts@.len() == 18 ==> (r matches Ok(c) && fraudsworth_conversion_vault_accounts_laid_out(c, accounts@)),
    {
        if accounts.len() != 18 {
            return Err(SwapError::NotEnoughAccountKeys);
        }
        Ok(FraudsworthConversionVaultSwapAccounts {
            fraudsworth_conversion_vault_program: &accounts[0],
            user: &accounts[1],
            vault_config: &accounts[2],
            user_input_account: &accounts[3],
            user_output_account: &accounts[4],
            input_mint: &accounts[5],
            output_mint: &accounts[6],
            vault_input: &accounts[7],
            vault_output: &accounts[8],
            token_program: &accounts[9],
            input_mint_extra_account_meta_list: &accounts[10],
            input_mint_whitelist_source: &accounts[11],
            input_mint_whitelist_destination: &accounts[12],
            input_mint_transfer_hook_program: &accounts[13],
            output_mint_extra_account_meta_list: &accounts[14],
            output_mint_whitelist_source: &accounts[15],
            output_mint_whitelist_destination: &accounts[16],
            output_mint_transfer_hook_program: &accounts[17],
        })
    }
}

/// The seventeen accounts of a `convert_v2`; the program account is not passed on.
pub open spec fn fraudsworth_conversion_vault_metas<'info, A>(ctx: FraudsworthConversionVaultSwapAccounts<'info, A>) -> Seq<CpiAccount<'info, A>> {
    seq![
        readonly_signer_meta(ctx.user),
        readonly_meta(ctx.vault_config),
        writable_meta(ctx.user_input_account),
        writable_meta(ctx.user_output_account),
        readonly_meta(ctx.input_mint),
        readonly_meta(ctx.output_mint),
        writable_meta(ctx.vault_input),
        writable_meta(ctx.vault_output),
        readonly_meta(ctx.token_program),
        readonly_meta(ctx.input_mint_extra_account_meta_list),
        readonly_meta(ctx.input_mint_whitelist_source),
        readonly_meta(ctx.input_mint_whitelist_destination),
        readonly_meta(ctx.input_mint_transfer_hook_program),
        readonly_meta(ctx.output_mint_extra_account_meta_list),
        readonly_meta(ctx.output_mint_whitelist_source),
        readonly_meta(ctx.output_mint_whitelist_destination),
        readonly_meta(ctx.output_mint_transfer_hook_program),
    ]
}

/// Discriminator, then the two amounts and the pre-balance, little-endian.
pub open spec fn fraudsworth_conversion_vault_data(in_amount: u64, minimum_out_amount: u64, data: FraudsworthConversionVaultSwapData) -> Seq<u8> {
    CONVERT_V2_DISCRIMINATOR@ + spec_u64_to_le_bytes(in_amount) + spec_u64_to_le_bytes(minimum_out_amount) + spec_u64_to_le_bytes(data.pre_balance)
}

impl FraudsworthConversionVault {
    /// The `convert_v2` instruction of the conversion vault.
    pub fn instruction<'info, A>(ctx: &FraudsworthConversionVaultSwapAccounts<'info, A>, in_amount: u64, minimum_out_amount: u64, data: &FraudsworthConversionVaultSwapData) -> (ix: CpiInstruction<'info, A>)
        ensures
            ix.program == CpiProgram::<'info, A>::Id(FRAUDSWORTH_CONVERSION_VAULT_PROGRAM_ID),
            ix.accounts@ == fraudsworth_conversion_vault_metas(*ctx),
            ix.account_infos@ == infos_of(ix.accounts@),
            ix.data@ == fraudsworth_conversion_vault_data(in_amount, minimum_out_amount, *data),
    {
        let mut accounts: Vec<CpiAccount<'info, A>> = Vec::new();
        accounts.push(readonly_signer(ctx.user));
        accounts.push(readonly(ctx.vault_config));
        accounts.push(writable(ctx.user_input_account));
        accounts.push(writable(ctx.user_output_account));
        accounts.push(readonly(ctx.input_mint));
        accounts.push(readonly(ctx.output_mint));
        accounts.push(writable(ctx.vault_input));
        accounts.push(writable(ctx.vault_output));
        accounts.push(readonly(ctx.token_program));
        accounts.push(readonly(ctx.input_mint_extra_account_meta_list));
        accounts.push(readonly(ctx.input_mint_whitelist_source));
        accounts.push(readonly(ctx.input_mint_whitelist_destination));
        accounts.push(readonly(ctx.input_mint_transfer_hook_program));
        accounts.push(readonly(ctx.output_mint_extra_account_meta_list));
        accounts.push(readonly(ctx.output_mint_whitelist_source));
        accounts.push(readonly(ctx.output_mint_whitelist_destination));
        accounts.push(readonly(ctx.output_mint_transfer_hook_program));
        let mut bytes: Vec<u8> = Vec::new();
        push_bytes(&mut bytes, &CONVERT_V2_DISCRIMINATOR);
        push_u64_le(&mut bytes, in_amount);
        push_u64_le(&mut bytes, minimum_out_amount);
        push_u64_le(&mut bytes, data.pre_balance);
        let ix = instruction(CpiProgram::Id(FRAUDSWORTH_CONVERSION_VAULT_PROGRAM_ID), accounts, bytes);
        assert(ix.accounts@ =~= fraudsworth_conversion_vault_metas(*ctx));
        assert(ix.data@ =~= fraudsworth_conversion_vault_data(in_amount, minimum_out_amount, *data));
        ix
    }

    /// Builds the swap instruction and invokes it with the given signer seeds.
    pub fn swap_signed(ctx: &FraudsworthConversionVaultSwapAccounts<'_, AccountView>, in_amount: u64, minimum_out_amount: u64, data: &FraudsworthConversionVaultSwapData, signer_seeds: &[Signer]) -> (r: Result<(), SwapError>)
        ensures
            r matches Err(e) ==> e is Runtime,
            invoked_with(
                    CpiProgram::Id(FRAUDSWORTH_CONVERSION_VAULT_PROGRAM_ID),
                    fraudsworth_conversion_vault_metas(*ctx),
                    infos_of(fraudsworth_conversion_vault_metas(*ctx)),
                    fraudsworth_conversion_vault_data(in_amount, minimum_out_amount, *data),
                    signer_seeds,
                    r,
                ),
    {
        let ix = Self::instruction(ctx, in_amount, minimum_out_amount, data);
        invoke(&ix, signer_seeds)
    }

    /// `swap_signed` without signer seeds.
    pub fn swap(ctx: &FraudsworthConversionVaultSwapAccounts<'_, AccountView>, in_amount: u64, minimum_out_amount: u64, data: &FraudsworthConversionVaultSwapData) -> (r: Result<(), SwapError>)
        ensures
            r matches Err(e) ==> e is Runtime,
            invoked_with(
                    CpiProgram::Id(FRAUDSWORTH_CONVERSION_VAULT_PROGRAM_ID),
                    fraudsworth_conversion_vault_metas(*ctx),
                    infos_of(fraudsworth_conversion_vault_metas(*ctx)),
                    fraudsworth_conversion_vault_data(in_amount, minimum_out_amount, *data),
                    &[],
                    r,
                ),
    {
        Self::swap_signed(ctx, in_amount, minimum_out_amount, data, &[])
    }
}

} // verus!
