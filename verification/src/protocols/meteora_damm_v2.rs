use vstd::prelude::*;
use vstd::bytes::spec_u64_to_le_bytes;
use solana_account_view::AccountView;
use solana_instruction_view::cpi::Signer;
use crate::bytes::{push_bytes, push_u64_le};
use crate::cpi::{
    CpiAccount, CpiInstruction, CpiProgram, infos_of, instruction, readonly, readonly_meta,
    readonly_signer, readonly_signer_meta, writable, writable_meta,
};
use crate::error::SwapError;
use crate::runtime::invoke;
use crate::runtime::{address_read, invoked_with, read_address};
use crate::bytes::bytes32_eq;

verus! {

pub const METEORA_DAMM_V2_PROGRAM_ID: [u8; 32] = [9, 45, 33, 53, 101, 122, 21, 156, 43, 135, 212, 182, 106, 112, 219, 142, 151, 82, 56, 159, 247, 106, 175, 32, 108, 237, 6, 58, 56, 249, 90, 237];

pub const SWAP2_DISCRIMINATOR: [u8; 8] = [65, 75, 63, 76, 235, 91, 91, 136];

pub struct MeteoraDammV2;

/// How the amounts of a swap are read.
#[derive(Clone, Copy, Debug, PartialEq, Eq, Structural)]
pub enum SwapType {
    ExactIn,
    PartialFill,
    ExactOut,
}

/// The byte that encodes a mode.
pub open spec fn swap_type_byte(m: SwapType) -> u8 {
    match m {
        SwapType::ExactIn => 0u8,
        SwapType::PartialFill => 1u8,
        SwapType::ExactOut => 2u8,
    }
}

/// The mode that a byte encodes, if any.
pub open spec fn swap_type_of_byte(b: u8) -> Option<SwapType> {
    if b == 0 {
        Some(SwapType::ExactIn)
    } else if b == 1 {
        Some(SwapType::PartialFill)
    } else if b == 2 {
        Some(SwapType::ExactOut)
    } else {
        None
    }
}

pub struct MeteoraDammV2SwapData {
    pub swap_type: SwapType,
}

impl MeteoraDammV2SwapData {
    pub const DATA_LEN: usize = 1;

    /// The swap type is named by the first byte.
    pub fn try_from(data: &[u8]) -> (r: Result<Self, SwapError>)
        ensures
            data@.len() < Self::DATA_LEN ==> r == Err::<Self, SwapError>(SwapError::InvalidInstructionData),
            data@.len() >= Self::DATA_LEN ==> match swap_type_of_byte(data@[0]) {
                Some(m) => (r matches Ok(d) && d.swap_type == m),
                None => r == Err::<Self, SwapError>(SwapError::InvalidInstructionData),
            },
    {
        if data.len() < Self::DATA_LEN {
            return Err(SwapError::InvalidInstructionData);
        }
        let swap_type = if data[0] == 0 {
            SwapType::ExactIn
        } else if data[0] == 1 {
            SwapType::PartialFill
        } else if data[0] == 2 {
            SwapType::ExactOut
        } else {
            return Err(SwapError::InvalidInstructionData);
        };
        Ok(MeteoraDammV2SwapData { swap_type })
    }
}

pub struct MeteoraDammV2SwapAccounts<'info, A> {
    pub cp_amm_program: &'info A,
    pub pool_authority: &'info A,
    pub pool: &'info A,
    pub input_token_account: &'info A,
    pub output_token_account: &'info A,
    pub token_a_vault: &'info A,
    pub token_b_vault: &'info A,
    pub token_a_mint: &'info A,
    pub token_b_mint: &'info A,
    pub payer: &'info A,
    pub token_a_program: &'info A,
    pub token_b_program: &'info A,
    pub referral_token_account: &'info A,
    pub event_authority: &'info A,
    pub program: &'info A,
}

/// `c` holds the accounts of `s` in the order of its fields.
pub open spec fn meteora_damm_v2_accounts_laid_out<'info, A>(c: MeteoraDammV2SwapAccounts<'info, A>, s: Seq<A>) -> bool {
    &&& *c.cp_amm_program == s[0]
    &&& *c.pool_authority == s[1]
    &&& *c.pool == s[2]
    &&& *c.input_token_account == s[3]
    &&& *c.output_token_account == s[4]
    &&& *c.token_a_vault == s[5]
    &&& *c.token_b_vault == s[6]
    &&& *c.token_a_mint == s[7]
    &&& *c.token_b_mint == s[8]
    &&& *c.payer == s[9]
    &&& *c.token_a_program == s[10]
    &&& *c.token_b_program == s[11]
    &&& *c.referral_token_account == s[12]
    &&& *c.event_authority == s[13]
    &&& *c.program == s[14]
}

impl<'info, A> MeteoraDammV2SwapAccounts<'info, A> {
    pub const NUM_ACCOUNTS: usize = 15;

    pub fn try_from(accounts: &'info [A]) -> (r: Result<Self, SwapError>)
        ensures
            accounts@.len() < 15 ==> r == Err::<Self, SwapError>(SwapError::NotEnoughAccountKeys),
            accounts@.len() >= 15 ==> (r matches Ok(c) && meteora_damm_v2_accounts_laid_out(c, accounts@)),
    {
        if accounts.len() < 15 {
            return Err(SwapError::NotEnoughAccountKeys);
        }
        Ok(MeteoraDammV2SwapAccounts {
            cp_amm_program: &accounts[0],
            pool_authority: &accounts[1],
            pool: &accounts[2],
            input_token_account: &accounts[3],
            output_token_account: &accounts[4],
            token_a_vault: &accounts[5],
            token_b_vault: &accounts[6],
            token_a_mint: &accounts[7],
            token_b_mint: &accounts[8],
            payer: &accounts[9],
            token_a_program: &accounts[10],
            token_b_program: &accounts[11],
            referral_token_account: &accounts[12],
            event_authority: &accounts[13],
            program: &accounts[14],
        })
    }
}

/// The fourteen accounts of a Meteora DAMM v2 `swap2`, given the address held by the referral account; the program account is not passed on.
pub open spec fn meteora_damm_v2_metas<'info, A>(ctx: MeteoraDammV2SwapAccounts<'info, A>, referral_address: Seq<u8>) -> Seq<CpiAccount<'info, A>> {
    seq![
        readonly_meta(ctx.pool_authority),
        writable_meta(ctx.pool),
        writable_meta(ctx.input_token_account),
        writable_meta(ctx.output_token_account),
        writable_meta(ctx.token_a_vault),
        writable_meta(ctx.token_b_vault),
        readonly_meta(ctx.token_a_mint),
        readonly_meta(ctx.token_b_mint),
        readonly_signer_meta(ctx.payer),
        readonly_meta(ctx.token_a_program),
        readonly_meta(ctx.token_b_program),
        referral_meta(ctx.referral_token_account, referral_address),
        readonly_meta(ctx.event_authority),
        readonly_meta(ctx.program),
    ]
}

/// Discriminator, the two amounts little-endian, then the swap type.
pub open spec fn meteora_damm_v2_data(in_amount: u64, minimum_out_amount: u64, data: MeteoraDammV2SwapData) -> Seq<u8> {
    SWAP2_DISCRIMINATOR@ + spec_u64_to_le_bytes(in_amount) + spec_u64_to_le_bytes(minimum_out_amount) + seq![swap_type_byte(data.swap_type)]
}

impl MeteoraDammV2 {
    /// The Meteora DAMM v2 `swap2` instruction, given the address held by the referral account.
    pub fn instruction<'info, A>(ctx: &MeteoraDammV2SwapAccounts<'info, A>, in_amount: u64, minimum_out_amount: u64, data: &MeteoraDammV2SwapData, referral_address: &[u8; 32]) -> (ix: CpiInstruction<'info, A>)
        ensures
            ix.program == CpiProgram::<'info, A>::Id(METEORA_DAMM_V2_PROGRAM_ID),
            ix.accounts@ == meteora_damm_v2_metas(*ctx, referral_address@),
            ix.account_infos@ == infos_of(ix.accounts@),
            ix.data@ == meteora_damm_v2_data(in_amount, minimum_out_amount, *data),
    {
        let mut accounts: Vec<CpiAccount<'info, A>> = Vec::new();
        accounts.push(readonly(ctx.pool_authority));
        accounts.push(writable(ctx.pool));
        accounts.push(writable(ctx.input_token_account));
        accounts.push(writable(ctx.output_token_account));
        accounts.push(writable(ctx.token_a_vault));
        accounts.push(writable(ctx.token_b_vault));
        accounts.push(readonly(ctx.token_a_mint));
        accounts.push(readonly(ctx.token_b_mint));
        accounts.push(readonly_signer(ctx.payer));
        accounts.push(readonly(ctx.token_a_program));
        accounts.push(readonly(ctx.token_b_program));
        accounts.push(referral_account_meta(ctx.referral_token_account, referral_address));
        accounts.push(readonly(ctx.event_authority));
        accounts.push(readonly(ctx.program));
        let mut bytes: Vec<u8> = Vec::new();
        push_bytes(&mut bytes, &SWAP2_DISCRIMINATOR);
        push_u64_le(&mut bytes, in_amount);
        push_u64_le(&mut bytes, minimum_out_amount);
        bytes.push(match data.swap_type {
            SwapType::ExactIn => 0u8,
            SwapType::PartialFill => 1u8,
            SwapType::ExactOut => 2u8,
        });
        let ix = instruction(CpiProgram::Id(METEORA_DAMM_V2_PROGRAM_ID), accounts, bytes);
        assert(ix.accounts@ =~= meteora_damm_v2_metas(*ctx, referral_address@));
        assert(ix.data@ =~= meteora_damm_v2_data(in_amount, minimum_out_amount, *data));
        ix
    }

    /// Builds the swap instruction and invokes it with the given signer seeds.
    pub fn swap_signed(ctx: &MeteoraDammV2SwapAccounts<'_, AccountView>, in_amount: u64, minimum_out_amount: u64, data: &MeteoraDammV2SwapData, signer_seeds: &[Signer]) -> (r: Result<(), SwapError>)
        ensures
            r matches Err(e) ==> e is Runtime,
            exists|referral_address: [u8; 32]|
                #[trigger] address_read(ctx.referral_token_account, referral_address)
                && invoked_with(
                    CpiProgram::Id(METEORA_DAMM_V2_PROGRAM_ID),
                    meteora_damm_v2_metas(*ctx, referral_address@),
                    infos_of(meteora_damm_v2_metas(*ctx, referral_address@)),
                    meteora_damm_v2_data(in_amount, minimum_out_amount, *data),
                    signer_seeds,
                    r,
                ),
    {
        let referral_address = read_address(ctx.referral_token_account);
        let ix = Self::instruction(ctx, in_amount, minimum_out_amount, data, &referral_address);
        invoke(&ix, signer_seeds)
    }

    /// `swap_signed` without signer seeds.
    pub fn swap(ctx: &MeteoraDammV2SwapAccounts<'_, AccountView>, in_amount: u64, minimum_out_amount: u64, data: &MeteoraDammV2SwapData) -> (r: Result<(), SwapError>)
        ensures
            r matches Err(e) ==> e is Runtime,
            exists|referral_address: [u8; 32]|
                #[trigger] address_read(ctx.referral_token_account, referral_address)
                && invoked_with(
                    CpiProgram::Id(METEORA_DAMM_V2_PROGRAM_ID),
                    meteora_damm_v2_metas(*ctx, referral_address@),
                    infos_of(meteora_damm_v2_metas(*ctx, referral_address@)),
                    meteora_damm_v2_data(in_amount, minimum_out_amount, *data),
                    &[],
                    r,
                ),
    {
        Self::swap_signed(ctx, in_amount, minimum_out_amount, data, &[])
    }
}

/// The referral account is passed read-only when it is the program itself
/// (no referral), writable otherwise.
pub open spec fn referral_meta<'a, A>(account: &'a A, address: Seq<u8>) -> CpiAccount<'a, A> {
    if address == METEORA_DAMM_V2_PROGRAM_ID@ {
        readonly_meta(account)
    } else {
        writable_meta(account)
    }
}

/// The referral account with its role, given the address it holds.
pub fn referral_account_meta<'a, A>(account: &'a A, address: &[u8; 32]) -> (r: CpiAccount<'a, A>)
    ensures
        r == referral_meta(account, address@),
{
    if bytes32_eq(address, &METEORA_DAMM_V2_PROGRAM_ID) {
        readonly(account)
    } else {
        writable(account)
    }
}

/// The last byte of the instruction data reads back, as swap data, to the
/// swap type the instruction was built with.
pub proof fn lemma_meteora_damm_v2_swap_type_round_trip(in_amount: u64, minimum_out_amount: u64, data: MeteoraDammV2SwapData)
    ensures
        ({
            let bytes = meteora_damm_v2_data(in_amount, minimum_out_amount, data);
            swap_type_of_byte(bytes[bytes.len() - 1]) == Some(data.swap_type)
        }),
{
    vstd::bytes::lemma_auto_spec_u64_to_from_le_bytes();
}

} // verus!
