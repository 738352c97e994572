use vstd::prelude::*;
use vstd::bytes::spec_u64_to_le_bytes;
use solana_account_view::AccountView;
use solana_instruction_view::cpi::Signer;
use crate::bytes::{push_bytes, push_u64_le};
use crate::cpi::{
    CpiAccount, CpiInstruction, CpiProgram, infos_of, instruction, readonly, readonly_meta,
    readonly_signer, readonly_signer_meta, writable, writable_meta,
};
use crate::error::SwapError;
use crate::runtime::invoke;
use crate::runtime::{address_read, invoked_with, read_address};
use crate::bytes::bytes32_eq;

verus! {

pub const METEORA_DYNAMIC_BONDING_CURVE_PROGRAM_ID: [u8; 32] = [9, 96, 12, 165, 36, 247, 177, 183, 214, 204, 177, 195, 151, 58, 160, 51, 13, 25, 3, 218, 96, 28, 201, 181, 222, 227, 198, 98, 180, 202, 209, 73];

pub const SWAP2_DISCRIMINATOR: [u8; 8] = [65, 75, 63, 76, 235, 91, 91, 136];

pub struct MeteoraDynamicBondingCurve;

/// How the amounts of a swap are read.
#[derive(Clone, Copy, Debug, PartialEq, Eq, Structural)]
pub enum SwapMode {
    ExactIn,
    PartialFill,
    ExactOut,
}

/// The byte that encodes a mode.
pub open spec fn swap_mode_byte(m: SwapMode) -> u8 {
    match m {
        SwapMode::ExactIn => 0u8,
        SwapMode::PartialFill => 1u8,
        SwapMode::ExactOut => 2u8,
    }
}

/// The mode that a byte encodes, if any.
pub open spec fn swap_mode_of_byte(b: u8) -> Option<SwapMode> {
    if b == 0 {
        Some(SwapMode::ExactIn)
    } else if b == 1 {
        Some(SwapMode::PartialFill)
    } else if b == 2 {
        Some(SwapMode::ExactOut)
    } else {
        None
    }
}

pub struct MeteoraDynamicBondingCurveSwapData {
    pub swap_mode: SwapMode,
}

impl MeteoraDynamicBondingCurveSwapData {
    pub const DATA_LEN: usize = 1;

    /// The mode is named by the first byte.
    pub fn try_from(data: &[u8]) -> (r: Result<Self, SwapError>)
        ensures
            data@.len() < Self::DATA_LEN ==> r == Err::<Self, SwapError>(SwapError::InvalidInstructionData),
            data@.len() >= Self::DATA_LEN ==> match swap_mode_of_byte(data@[0]) {
                Some(m) => (r matches Ok(d) && d.swap_mode == m),
                None => r == Err::<Self, SwapError>(SwapError::InvalidInstructionData),
            },
    {
        if data.len() < Self::DATA_LEN {
            return Err(SwapError::InvalidInstructionData);
        }
        let swap_mode = if data[0] == 0 {
            SwapMode::ExactIn
        } else if data[0] == 1 {
            SwapMode::PartialFill
        } else if data[0] == 2 {
            SwapMode::ExactOut
        } else {
            return Err(SwapError::InvalidInstructionData);
        };
        Ok(MeteoraDynamicBondingCurveSwapData { swap_mode })
    }
}

pub struct MeteoraDynamicBondingCurveSwapAccounts<'info, A> {
    pub dynamic_bonding_curve_program: &'info A,
    pub pool_authority: &'info A,
    pub config: &'info A,
    pub pool: &'info A,
    pub input_token_account: &'info A,
    pub output_token_account: &'info A,
    pub base_vault: &'info A,
    pub quote_vault: &'info A,
    pub base_mint: &'info A,
    pub quote_mint: &'info A,
    pub payer: &'info A,
    pub token_base_program: &'info A,
    pub token_quote_program: &'info A,
    pub referral_token_account: &'info A,
    pub event_authority: &'info A,
    pub program: &'info A,
}

/// `c` holds the accounts of `s` in the order of its fields.
pub open spec fn meteora_dynamic_bonding_curve_accounts_laid_out<'info, A>(c: MeteoraDynamicBondingCurveSwapAccounts<'info, A>, s: Seq<A>) -> bool {
    &&& *c.dynamic_bonding_curve_program == s[0]
    &&& *c.pool_authority == s[1]
    &&& *c.config == s[2]
    &&& *c.pool == s[3]
    &&& *c.input_token_account == s[4]
    &&& *c.output_token_account == s[5]
    &&& *c.base_vault == s[6]
    &&& *c.quote_vault == s[7]
    &&& *c.base_mint == s[8]
    &&& *c.quote_mint == s[9]
    &&& *c.payer == s[10]
    &&& *c.token_base_program == s[11]
    &&& *c.token_quote_program == s[12]
    &&& *c.referral_token_account == s[13]
    &&& *c.event_authority == s[14]
    &&& *c.program == s[15]
}

impl<'info, A> MeteoraDynamicBondingCurveSwapAccounts<'info, A> {
    pub const NUM_ACCOUNTS: usize = 16;

    pub fn try_from(accounts: &'info [A]) -> (r: Result<Self, SwapError>)
        ensures
            accounts@.len() != 16 ==> r == Err::<Self, SwapError>(SwapError::NotEnoughAccountKeys),
            accounts@.len() == 16 ==> (r matches Ok(c) && meteora_dynamic_bonding_curve_accounts_laid_out(c, accounts@)),
    {
        if accounts.len() != 16 {
            return Err(SwapError::NotEnoughAccountKeys);
        }
        Ok(MeteoraDynamicBondingCurveSwapAccounts {
            dynamic_bonding_curve_program: &accounts[0],
            pool_authority: &accounts[1],
            config: &accounts[2],
            pool: &accounts[3],
            input_token_account: &accounts[4],
            output_token_account: &accounts[5],
            base_vault: &accounts[6],
            quote_vault: &accounts[7],
            base_mint: &accounts[8],
            quote_mint: &accounts[9],
            payer: &accounts[10],
            token_base_program: &accounts[11],
            token_quote_program: &accounts[12],
            referral_token_account: &accounts[13],
            event_authority: &accounts[14],
            program: &accounts[15],
        })
    }
}

/// The fifteen accounts of a bonding-curve `swap2`, given the address held by the referral account; the program account is not passed on.
pub open spec fn meteora_dynamic_bonding_curve_metas<'info, A>(ctx: MeteoraDynamicBondingCurveSwapAccounts<'info, A>, referral_address: Seq<u8>) -> Seq<CpiAccount<'info, A>> {
    seq![
        readonly_meta(ctx.pool_authority),
        readonly_meta(ctx.config),
        writable_meta(ctx.pool),
        writable_meta(ctx.input_token_account),
        writable_meta(ctx.output_token_account),
        writable_meta(ctx.base_vault),
        writable_meta(ctx.quote_vault),
        readonly_meta(ctx.base_mint),
        readonly_meta(ctx.quote_mint),
        readonly_signer_meta(ctx.payer),
        readonly_meta(ctx.token_base_program),
        readonly_meta(ctx.token_quote_program),
        referral_meta(ctx.referral_token_account, referral_address),
        readonly_meta(ctx.event_authority),
        readonly_meta(ctx.program),
    ]
}

/// Discriminator, the two amounts (minimum out first when exact-out) little-endian, then the mode.
pub open spec fn meteora_dynamic_bonding_curve_data(in_amount: u64, minimum_out_amount: u64, data: MeteoraDynamicBondingCurveSwapData) -> Seq<u8> {
    SWAP2_DISCRIMINATOR@ + if data.swap_mode == SwapMode::ExactOut {
        spec_u64_to_le_bytes(minimum_out_amount) + spec_u64_to_le_bytes(in_amount)
    } else {
        spec_u64_to_le_bytes(in_amount) + spec_u64_to_le_bytes(minimum_out_amount)
    } + seq![swap_mode_byte(data.swap_mode)]
}

impl MeteoraDynamicBondingCurve {
    /// The bonding-curve `swap2` instruction, given the address held by the referral account.
    pub fn instruction<'info, A>(ctx: &MeteoraDynamicBondingCurveSwapAccounts<'info, A>, in_amount: u64, minimum_out_amount: u64, data: &MeteoraDynamicBondingCurveSwapData, referral_address: &[u8; 32]) -> (ix: CpiInstruction<'info, A>)
        ensures
            ix.program == CpiProgram::<'info, A>::Id(METEORA_DYNAMIC_BONDING_CURVE_PROGRAM_ID),
            ix.accounts@ == meteora_dynamic_bonding_curve_metas(*ctx, referral_address@),
            ix.account_infos@ == infos_of(ix.accounts@),
            ix.data@ == meteora_dynamic_bonding_curve_data(in_amount, minimum_out_amount, *data),
    {
        let mut accounts: Vec<CpiAccount<'info, A>> = Vec::new();
        accounts.push(readonly(ctx.pool_authority));
        accounts.push(readonly(ctx.config));
        accounts.push(writable(ctx.pool));
        accounts.push(writable(ctx.input_token_account));
        accounts.push(writable(ctx.output_token_account));
        accounts.push(writable(ctx.base_vault));
        accounts.push(writable(ctx.quote_vault));
        accounts.push(readonly(ctx.base_mint));
        accounts.push(readonly(ctx.quote_mint));
        accounts.push(readonly_signer(ctx.payer));
        accounts.push(readonly(ctx.token_base_program));
        accounts.push(readonly(ctx.token_quote_program));
        accounts.push(referral_account_meta(ctx.referral_token_account, referral_address));
        accounts.push(readonly(ctx.event_authority));
        accounts.push(readonly(ctx.program));
        let mut bytes: Vec<u8> = Vec::new();
        push_bytes(&mut bytes, &SWAP2_DISCRIMINATOR);
        let (amount_0, amount_1) = match data.swap_mode {
            SwapMode::ExactOut => (minimum_out_amount, in_amount),
            _ => (in_amount, minimum_out_amount),
        };
        push_u64_le(&mut bytes, amount_0);
        push_u64_le(&mut bytes, amount_1);
        bytes.push(match data.swap_mode {
            SwapMode::ExactIn => 0u8,
            SwapMode::PartialFill => 1u8,
            SwapMode::ExactOut => 2u8,
        });
        let ix = instruction(CpiProgram::Id(METEORA_DYNAMIC_BONDING_CURVE_PROGRAM_ID), accounts, bytes);
        assert(ix.accounts@ =~= meteora_dynamic_bonding_curve_metas(*ctx, referral_address@));
        assert(ix.data@ =~= meteora_dynamic_bonding_curve_data(in_amount, minimum_out_amount, *data));
        ix
    }

    /// Builds the swap instruction and invokes it with the given signer seeds.
    pub fn swap_signed(ctx: &MeteoraDynamicBondingCurveSwapAccounts<'_, AccountView>, in_amount: u64, minimum_out_amount: u64, data: &MeteoraDynamicBondingCurveSwapData, signer_seeds: &[Signer]) -> (r: Result<(), SwapError>)
        ensures
            r matches Err(e) ==> e is Runtime,
            exists|referral_address: [u8; 32]|
                #[trigger] address_read(ctx.referral_token_account, referral_address)
                && invoked_with(
                    CpiProgram::Id(METEORA_DYNAMIC_BONDING_CURVE_PROGRAM_ID),
                    meteora_dynamic_bonding_curve_metas(*ctx, referral_address@),
                    infos_of(meteora_dynamic_bonding_curve_metas(*ctx, referral_address@)),
                    meteora_dynamic_bonding_curve_data(in_amount, minimum_out_amount, *data),
                    signer_seeds,
                    r,
                ),
    {
        let referral_address = read_address(ctx.referral_token_account);
        let ix = Self::instruction(ctx, in_amount, minimum_out_amount, data, &referral_address);
        invoke(&ix, signer_seeds)
    }

    /// `swap_signed` without signer seeds.
    pub fn swap(ctx: &MeteoraDynamicBondingCurveSwapAccounts<'_, AccountView>, in_amount: u64, minimum_out_amount: u64, data: &MeteoraDynamicBondingCurveSwapData) -> (r: Result<(), SwapError>)
        ensures
            r matches Err(e) ==> e is Runtime,
            exists|referral_address: [u8; 32]|
                #[trigger] address_read(ctx.referral_token_account, referral_address)
                && invoked_with(
                    CpiProgram::Id(METEORA_DYNAMIC_BONDING_CURVE_PROGRAM_ID),
                    meteora_dynamic_bonding_curve_metas(*ctx, referral_address@),
                    infos_of(meteora_dynamic_bonding_curve_metas(*ctx, referral_address@)),
                    meteora_dynamic_bonding_curve_data(in_amount, minimum_out_amount, *data),
                    &[],
                    r,
                ),
    {
        Self::swap_signed(ctx, in_amount, minimum_out_amount, data, &[])
    }
}

/// The referral account is passed read-only when it is the program itself
/// (no referral), writable otherwise.
pub open spec fn referral_meta<'a, A>(account: &'a A, address: Seq<u8>) -> CpiAccount<'a, A> {
    if address == METEORA_DYNAMIC_BONDING_CURVE_PROGRAM_ID@ {
        readonly_meta(account)
    } else {
        writable_meta(account)
    }
}

/// The referral account with its role, given the address it holds.
pub fn referral_account_meta<'a, A>(account: &'a A, address: &[u8; 32]) -> (r: CpiAccount<'a, A>)
    ensures
        r == referral_meta(account, address@),
{
    if bytes32_eq(address, &METEORA_DYNAMIC_BONDING_CURVE_PROGRAM_ID) {
        readonly(account)
    } else {
        writable(account)
    }
}

/// The last byte of the instruction data reads back, as swap data, to the
/// swap mode the instruction was built with.
pub proof fn lemma_meteora_dynamic_bonding_curve_swap_mode_round_trip(in_amount: u64, minimum_out_amount: u64, data: MeteoraDynamicBondingCurveSwapData)
    ensures
        ({
            let bytes = meteora_dynamic_bonding_curve_data(in_amount, minimum_out_amount, data);
            swap_mode_of_byte(bytes[bytes.len() - 1]) == Some(data.swap_mode)
        }),
{
    vstd::bytes::lemma_auto_spec_u64_to_from_le_bytes();
}

} // verus!
