use vstd::prelude::*;
use vstd::bytes::spec_u64_to_le_bytes;
use solana_account_view::AccountView;
use solana_instruction_view::cpi::Signer;
use crate::bytes::{push_bytes, push_u64_le};
use crate::cpi::{
    AccountRole, CpiAccount, CpiInstruction, CpiProgram, infos_of, instruction, metas_with_role,
    push_all_with_role, readonly, readonly_meta, writable, writable_meta, writable_signer,
    writable_signer_meta,
};
use crate::error::SwapError;
use crate::runtime::{invoke, invoked_with};

verus! {

pub const SAROS_DLMM_PROGRAM_ID: [u8; 32] = [0, 54, 243, 134, 43, 7, 87, 225, 91, 39, 36, 34, 104, 250, 223, 93, 117, 35, 114, 135, 101, 210, 85, 71, 148, 74, 214, 126, 86, 85, 91, 81];

pub const SWAP_DISCRIMINATOR: [u8; 8] = [248, 198, 158, 145, 225, 117, 135, 200];

/// At most two hook bin array accounts are expected.
pub const MAX_REMAINING_ACCOUNTS: usize = 2;
pub const MAX_ACCOUNTS: usize = 20;

#[derive(Clone, Copy, Debug, PartialEq, Eq, Structural)]
pub enum SwapType {
    ExactInput,
    ExactOutput,
}

#[derive(Clone, Copy, Debug, PartialEq, Eq, Structural)]
pub struct SarosDlmmSwapData {
    pub swap_for_y: bool,
    pub swap_type: SwapType,
}

impl SarosDlmmSwapData {
    pub const DATA_LEN: usize = 2;

    /// Whether the swap is for token Y (the first byte is one), then the swap
    /// type (zero exact input, one exact output).
    pub fn try_from(data: &[u8]) -> (r: Result<Self, SwapError>)
        ensures
            data@.len() < Self::DATA_LEN || data@[1] > 1 ==> r == Err::<Self, SwapError>(SwapError::InvalidInstructionData),
            data@.len() >= Self::DATA_LEN && data@[1] <= 1 ==> r == Ok::<Self, SwapError>(SarosDlmmSwapData {
                swap_for_y: data@[0] == 1,
                swap_type: if data@[1] == 0 { SwapType::ExactInput } else { SwapType::ExactOutput },
            }),
    {
        if data.len() < Self::DATA_LEN {
            return Err(SwapError::InvalidInstructionData);
        }
        let swap_type = if data[1] == 0 {
            SwapType::ExactInput
        } else if data[1] == 1 {
            SwapType::ExactOutput
        } else {
            return Err(SwapError::InvalidInstructionData);
        };
        Ok(SarosDlmmSwapData { swap_for_y: data[0] == 1, swap_type })
    }
}

pub struct SarosDlmm;

pub struct SarosDlmmSwapAccounts<'info, A> {
    pub saros_dlmm_program: &'info A,
    pub pair: &'info A,
    pub token_mint_x: &'info A,
    pub token_mint_y: &'info A,
    pub bin_array_lower: &'info A,
    pub bin_array_upper: &'info A,
    pub token_vault_x: &'info A,
    pub token_vault_y: &'info A,
    pub user_vault_x: &'info A,
    pub user_vault_y: &'info A,
    pub user: &'info A,
    pub token_program_x: &'info A,
    pub token_program_y: &'info A,
    pub memo_program: &'info A,
    pub hook: &'info A,
    pub hooks_program: &'info A,
    pub event_authority: &'info A,
    pub program: &'info A,
    pub remaining_accounts: &'info [A],
}

/// `c` holds the accounts of `s`: eighteen in the order of its fields, then
/// the remaining (hook bin array) ones.
pub open spec fn saros_dlmm_accounts_laid_out<'info, A>(c: SarosDlmmSwapAccounts<'info, A>, s: Seq<A>) -> bool {
    &&& *c.saros_dlmm_program == s[0]
    &&& *c.pair == s[1]
    &&& *c.token_mint_x == s[2]
    &&& *c.token_mint_y == s[3]
    &&& *c.bin_array_lower == s[4]
    &&& *c.bin_array_upper == s[5]
    &&& *c.token_vault_x == s[6]
    &&& *c.token_vault_y == s[7]
    &&& *c.user_vault_x == s[8]
    &&& *c.user_vault_y == s[9]
    &&& *c.user == s[10]
    &&& *c.token_program_x == s[11]
    &&& *c.token_program_y == s[12]
    &&& *c.memo_program == s[13]
    &&& *c.hook == s[14]
    &&& *c.hooks_program == s[15]
    &&& *c.event_authority == s[16]
    &&& *c.program == s[17]
    &&& c.remaining_accounts@ == s.subrange(18, s.len() as int)
}

impl<'info, A> SarosDlmmSwapAccounts<'info, A> {
    pub const NUM_ACCOUNTS: usize = 18;

    pub fn try_from(accounts: &'info [A]) -> (r: Result<Self, SwapError>)
        ensures
            accounts@.len() < Self::NUM_ACCOUNTS ==> r == Err::<Self, SwapError>(SwapError::NotEnoughAccountKeys),
            accounts@.len() >= Self::NUM_ACCOUNTS ==> (r matches Ok(c) && saros_dlmm_accounts_laid_out(c, accounts@)),
    {
        if accounts.len() < Self::NUM_ACCOUNTS {
            return Err(SwapError::NotEnoughAccountKeys);
        }
        Ok(SarosDlmmSwapAccounts {
            saros_dlmm_program: &accounts[0],
            pair: &accounts[1],
            token_mint_x: &accounts[2],
            token_mint_y: &accounts[3],
            bin_array_lower: &accounts[4],
            bin_array_upper: &accounts[5],
            token_vault_x: &accounts[6],
            token_vault_y: &accounts[7],
            user_vault_x: &accounts[8],
            user_vault_y: &accounts[9],
            user: &accounts[10],
            token_program_x: &accounts[11],
            token_program_y: &accounts[12],
            memo_program: &accounts[13],
            hook: &accounts[14],
            hooks_program: &accounts[15],
            event_authority: &accounts[16],
            program: &accounts[17],
            remaining_accounts: &accounts[18..accounts.len()],
        })
    }
}

/// The seventeen named accounts (not the program), then the remaining ones as they came.
pub open spec fn saros_dlmm_metas<'info, A>(ctx: SarosDlmmSwapAccounts<'info, A>) -> Seq<CpiAccount<'info, A>> {
    seq![
        writable_meta(ctx.pair),
        readonly_meta(ctx.token_mint_x),
        readonly_meta(ctx.token_mint_y),
        writable_meta(ctx.bin_array_lower),
        writable_meta(ctx.bin_array_upper),
        writable_meta(ctx.token_vault_x),
        writable_meta(ctx.token_vault_y),
        writable_meta(ctx.user_vault_x),
        writable_meta(ctx.user_vault_y),
        writable_signer_meta(ctx.user),
        readonly_meta(ctx.token_program_x),
        readonly_meta(ctx.token_program_y),
        readonly_meta(ctx.memo_program),
        writable_meta(ctx.hook),
        readonly_meta(ctx.hooks_program),
        readonly_meta(ctx.event_authority),
        readonly_meta(ctx.program),
    ] + metas_with_role(ctx.remaining_accounts@, AccountRole::AsPassed)
}

/// Discriminator, the two amounts, little-endian, the for-Y flag, then the
/// swap type (zero exact input, one exact output).
pub open spec fn saros_dlmm_data(in_amount: u64, minimum_out_amount: u64, data: SarosDlmmSwapData) -> Seq<u8> {
    SWAP_DISCRIMINATOR@ + spec_u64_to_le_bytes(in_amount) + spec_u64_to_le_bytes(minimum_out_amount)
        + seq![if data.swap_for_y { 1u8 } else { 0u8 }, if data.swap_type == SwapType::ExactInput { 0u8 } else { 1u8 }]
}

impl SarosDlmm {
    /// The Saros DLMM swap instruction.
    pub fn instruction<'info, A>(ctx: &SarosDlmmSwapAccounts<'info, A>, in_amount: u64, minimum_out_amount: u64, data: &SarosDlmmSwapData) -> (ix: CpiInstruction<'info, A>)
        ensures
            ix.program == CpiProgram::<'info, A>::Id(SAROS_DLMM_PROGRAM_ID),
            ix.accounts@ == saros_dlmm_metas(*ctx),
            ix.account_infos@ == infos_of(ix.accounts@),
            ix.data@ == saros_dlmm_data(in_amount, minimum_out_amount, *data),
    {
        let mut accounts: Vec<CpiAccount<'info, A>> = Vec::new();
        accounts.push(writable(ctx.pair));
        accounts.push(readonly(ctx.token_mint_x));
        accounts.push(readonly(ctx.token_mint_y));
        accounts.push(writable(ctx.bin_array_lower));
        accounts.push(writable(ctx.bin_array_upper));
        accounts.push(writable(ctx.token_vault_x));
        accounts.push(writable(ctx.token_vault_y));
        accounts.push(writable(ctx.user_vault_x));
        accounts.push(writable(ctx.user_vault_y));
        accounts.push(writable_signer(ctx.user));
        accounts.push(readonly(ctx.token_program_x));
        accounts.push(readonly(ctx.token_program_y));
        accounts.push(readonly(ctx.memo_program));
        accounts.push(writable(ctx.hook));
        accounts.push(readonly(ctx.hooks_program));
        accounts.push(readonly(ctx.event_authority));
        accounts.push(readonly(ctx.program));
        push_all_with_role(&mut accounts, ctx.remaining_accounts, AccountRole::AsPassed);
        let mut bytes: Vec<u8> = Vec::new();
        push_bytes(&mut bytes, &SWAP_DISCRIMINATOR);
        push_u64_le(&mut bytes, in_amount);
        push_u64_le(&mut bytes, minimum_out_amount);
        bytes.push(if data.swap_for_y { 1u8 } else { 0u8 });
        bytes.push(match data.swap_type {
            SwapType::ExactInput => 0u8,
            SwapType::ExactOutput => 1u8,
        });
        let ix = instruction(CpiProgram::Id(SAROS_DLMM_PROGRAM_ID), accounts, bytes);
        assert(ix.accounts@ =~= saros_dlmm_metas(*ctx));
        assert(ix.data@ =~= saros_dlmm_data(in_amount, minimum_out_amount, *data));
        ix
    }

    /// Builds the instruction and invokes it with the given signer seeds; at
    /// most three remaining accounts are taken.
    pub fn swap_signed(ctx: &SarosDlmmSwapAccounts<'_, AccountView>, in_amount: u64, minimum_out_amount: u64, data: &SarosDlmmSwapData, signer_seeds: &[Signer]) -> (r: Result<(), SwapError>)
        requires
            17 + ctx.remaining_accounts@.len() <= MAX_ACCOUNTS,
        ensures
            r matches Err(e) ==> e is Runtime,
            invoked_with(
                    CpiProgram::Id(SAROS_DLMM_PROGRAM_ID),
                    saros_dlmm_metas(*ctx),
                    infos_of(saros_dlmm_metas(*ctx)),
                    saros_dlmm_data(in_amount, minimum_out_amount, *data),
                    signer_seeds,
                    r,
                ),
    {
        let ix = Self::instruction(ctx, in_amount, minimum_out_amount, data);
        invoke(&ix, signer_seeds)
    }

    /// `swap_signed` without signer seeds.
    pub fn swap(ctx: &SarosDlmmSwapAccounts<'_, AccountView>, in_amount: u64, minimum_out_amount: u64, data: &SarosDlmmSwapData) -> (r: Result<(), SwapError>)
        requires
            17 + ctx.remaining_accounts@.len() <= MAX_ACCOUNTS,
        ensures
            r matches Err(e) ==> e is Runtime,
            invoked_with(
                    CpiProgram::Id(SAROS_DLMM_PROGRAM_ID),
                    saros_dlmm_metas(*ctx),
                    infos_of(saros_dlmm_metas(*ctx)),
                    saros_dlmm_data(in_amount, minimum_out_amount, *data),
                    &[],
                    r,
                ),
    {
        Self::swap_signed(ctx, in_amount, minimum_out_amount, data, &[])
    }
}

} // verus!
