use vstd::prelude::*;
use vstd::bytes::spec_u64_to_le_bytes;
use solana_account_view::AccountView;
use solana_instruction_view::cpi::Signer;
use crate::bytes::{bytes32_eq, push_bytes, push_u64_le};
use crate::cpi::{
    AccountRole, CpiAccount, CpiInstruction, CpiProgram, infos_of, instruction, metas_with_role,
    push_all_with_role, readonly, readonly_meta, readonly_signer, readonly_signer_meta, writable,
    writable_meta,
};
use crate::error::SwapError;
use crate::runtime::{address_read, invoke, invoked_with, read_address};

verus! {

pub const METEORA_DLMM_PROGRAM_ID: [u8; 32] = [4, 233, 225, 47, 188, 132, 232, 38, 201, 50, 204, 233, 226, 100, 12, 206, 21, 89, 12, 28, 98, 115, 176, 146, 87, 8, 186, 59, 133, 32, 176, 188];

pub const SWAP2_DISCRIMINATOR: [u8; 8] = [65, 75, 63, 76, 235, 91, 91, 136];

/// Most accounts an instruction passes (sixteen named, the rest bin arrays).
pub const MAX_ACCOUNTS: usize = 32;

/// Longest instruction data: discriminator, two amounts, and eight bytes of
/// remaining-accounts info.
pub const MAX_IX_DATA: usize = 32;

pub struct MeteoraDlmm;

pub struct MeteoraDlmmSwapAccounts<'info, A> {
    pub meteora_dlmm_program: &'info A,
    pub lb_pair: &'info A,
    pub bin_array_bitmap_extension: &'info A,
    pub reserve_x: &'info A,
    pub reserve_y: &'info A,
    pub user_token_in: &'info A,
    pub user_token_out: &'info A,
    pub token_x_mint: &'info A,
    pub token_y_mint: &'info A,
    pub oracle: &'info A,
    pub host_fee_in: &'info A,
    pub user: &'info A,
    pub token_x_program: &'info A,
    pub token_y_program: &'info A,
    pub memo_program: &'info A,
    pub event_authority: &'info A,
    pub program: &'info A,
    pub remaining_accounts: &'info [A],
}

/// The borsh-encoded remaining-accounts info, the third argument of `swap2`.
pub struct MeteoraDlmmSwapData<'a> {
    pub remaining_accounts_info: &'a [u8],
}

impl<'a> MeteoraDlmmSwapData<'a> {
    /// All of `data` is the remaining-accounts info.
    pub fn try_from(data: &'a [u8]) -> (r: Result<Self, SwapError>)
        ensures
            r matches Ok(d) && d.remaining_accounts_info@ == data@,
    {
        Ok(MeteoraDlmmSwapData { remaining_accounts_info: data })
    }
}

/// `c` holds the accounts of `s`: seventeen in the order of its fields, then
/// the remaining ones.
pub open spec fn meteora_dlmm_accounts_laid_out<'info, A>(c: MeteoraDlmmSwapAccounts<'info, A>, s: Seq<A>) -> bool {
    &&& *c.meteora_dlmm_program == s[0]
    &&& *c.lb_pair == s[1]
    &&& *c.bin_array_bitmap_extension == s[2]
    &&& *c.reserve_x == s[3]
    &&& *c.reserve_y == s[4]
    &&& *c.user_token_in == s[5]
    &&& *c.user_token_out == s[6]
    &&& *c.token_x_mint == s[7]
    &&& *c.token_y_mint == s[8]
    &&& *c.oracle == s[9]
    &&& *c.host_fee_in == s[10]
    &&& *c.user == s[11]
    &&& *c.token_x_program == s[12]
    &&& *c.token_y_program == s[13]
    &&& *c.memo_program == s[14]
    &&& *c.event_authority == s[15]
    &&& *c.program == s[16]
    &&& c.remaining_accounts@ == s.subrange(17, s.len() as int)
}

impl<'info, A> MeteoraDlmmSwapAccounts<'info, A> {
    pub fn try_from(accounts: &'info [A]) -> (r: Result<Self, SwapError>)
        ensures
            accounts@.len() < 17 ==> r == Err::<Self, SwapError>(SwapError::NotEnoughAccountKeys),
            accounts@.len() >= 17 ==> (r matches Ok(c) && meteora_dlmm_accounts_laid_out(c, accounts@)),
    {
        if accounts.len() < 17 {
            return Err(SwapError::NotEnoughAccountKeys);
        }
        Ok(MeteoraDlmmSwapAccounts {
            meteora_dlmm_program: &accounts[0],
            lb_pair: &accounts[1],
            bin_array_bitmap_extension: &accounts[2],
            reserve_x: &accounts[3],
            reserve_y: &accounts[4],
            user_token_in: &accounts[5],
            user_token_out: &accounts[6],
            token_x_mint: &accounts[7],
            token_y_mint: &accounts[8],
            oracle: &accounts[9],
            host_fee_in: &accounts[10],
            user: &accounts[11],
            token_x_program: &accounts[12],
            token_y_program: &accounts[13],
            memo_program: &accounts[14],
            event_authority: &accounts[15],
            program: &accounts[16],
            remaining_accounts: &accounts[17..accounts.len()],
        })
    }
}

/// The sixteen named accounts (the host fee account, whose address is
/// `host_fee_in_address`, read-only where it is the program itself, which
/// stands for no host), then the remaining accounts as they came.
pub open spec fn meteora_dlmm_metas<'info, A>(ctx: MeteoraDlmmSwapAccounts<'info, A>, host_fee_in_address: Seq<u8>) -> Seq<CpiAccount<'info, A>> {
    seq![
        writable_meta(ctx.lb_pair),
        readonly_meta(ctx.bin_array_bitmap_extension),
        writable_meta(ctx.reserve_x),
        writable_meta(ctx.reserve_y),
        writable_meta(ctx.user_token_in),
        writable_meta(ctx.user_token_out),
        readonly_meta(ctx.token_x_mint),
        readonly_meta(ctx.token_y_mint),
        writable_meta(ctx.oracle),
        if host_fee_in_address == METEORA_DLMM_PROGRAM_ID@ { readonly_meta(ctx.host_fee_in) } else { writable_meta(ctx.host_fee_in) },
        readonly_signer_meta(ctx.user),
        readonly_meta(ctx.token_x_program),
        readonly_meta(ctx.token_y_program),
        readonly_meta(ctx.memo_program),
        readonly_meta(ctx.event_authority),
        readonly_meta(ctx.program),
    ] + metas_with_role(ctx.remaining_accounts@, AccountRole::AsPassed)
}

/// Discriminator, the two amounts, little-endian, then the remaining-accounts info.
pub open spec fn meteora_dlmm_data(in_amount: u64, minimum_out_amount: u64, info: Seq<u8>) -> Seq<u8> {
    SWAP2_DISCRIMINATOR@ + spec_u64_to_le_bytes(in_amount) + spec_u64_to_le_bytes(minimum_out_amount) + info
}

impl MeteoraDlmm {
    /// The Meteora DLMM `swap2` instruction, given the address of the host
    /// fee account; refused where the data would be longer than
    /// `MAX_IX_DATA`.
    pub fn instruction<'info, A>(ctx: &MeteoraDlmmSwapAccounts<'info, A>, in_amount: u64, minimum_out_amount: u64, data: &MeteoraDlmmSwapData, host_fee_in_address: &[u8; 32]) -> (r: Result<CpiInstruction<'info, A>, SwapError>)
        ensures
            24 + data.remaining_accounts_info@.len() > MAX_IX_DATA ==> r == Err::<CpiInstruction<'info, A>, SwapError>(SwapError::InvalidInstructionData),
            24 + data.remaining_accounts_info@.len() <= MAX_IX_DATA ==> (r matches Ok(ix) && {
                &&& ix.program == CpiProgram::<'info, A>::Id(METEORA_DLMM_PROGRAM_ID)
                &&& ix.accounts@ == meteora_dlmm_metas(*ctx, host_fee_in_address@)
                &&& ix.account_infos@ == infos_of(ix.accounts@)
                &&& ix.data@ == meteora_dlmm_data(in_amount, minimum_out_amount, data.remaining_accounts_info@)
            }),
    {
        let tail = data.remaining_accounts_info;
        if tail.len() > MAX_IX_DATA - 24 {
            return Err(SwapError::InvalidInstructionData);
        }
        let mut bytes: Vec<u8> = Vec::new();
        push_bytes(&mut bytes, &SWAP2_DISCRIMINATOR);
        push_u64_le(&mut bytes, in_amount);
        push_u64_le(&mut bytes, minimum_out_amount);
        push_bytes(&mut bytes, tail);
        let mut accounts: Vec<CpiAccount<'info, A>> = Vec::new();
        accounts.push(writable(ctx.lb_pair));
        accounts.push(readonly(ctx.bin_array_bitmap_extension));
        accounts.push(writable(ctx.reserve_x));
        accounts.push(writable(ctx.reserve_y));
        accounts.push(writable(ctx.user_token_in));
        accounts.push(writable(ctx.user_token_out));
        accounts.push(readonly(ctx.token_x_mint));
        accounts.push(readonly(ctx.token_y_mint));
        accounts.push(writable(ctx.oracle));
        accounts.push(if bytes32_eq(host_fee_in_address, &METEORA_DLMM_PROGRAM_ID) { readonly(ctx.host_fee_in) } else { writable(ctx.host_fee_in) });
        accounts.push(readonly_signer(ctx.user));
        accounts.push(readonly(ctx.token_x_program));
        accounts.push(readonly(ctx.token_y_program));
        accounts.push(readonly(ctx.memo_program));
        accounts.push(readonly(ctx.event_authority));
        accounts.push(readonly(ctx.program));
        push_all_with_role(&mut accounts, ctx.remaining_accounts, AccountRole::AsPassed);
        let ix = instruction(CpiProgram::Id(METEORA_DLMM_PROGRAM_ID), accounts, bytes);
        assert(ix.accounts@ =~= meteora_dlmm_metas(*ctx, host_fee_in_address@));
        assert(ix.data@ =~= meteora_dlmm_data(in_amount, minimum_out_amount, data.remaining_accounts_info@));
        Ok(ix)
    }

    /// Tells from its address whether the host fee account is the program,
    /// builds the instruction and invokes it with the given signer seeds. More
    /// than sixteen remaining accounts are not taken.
    pub fn swap_signed(ctx: &MeteoraDlmmSwapAccounts<'_, AccountView>, in_amount: u64, minimum_out_amount: u64, data: &MeteoraDlmmSwapData, signer_seeds: &[Signer]) -> (r: Result<(), SwapError>)
        requires
            24 + data.remaining_accounts_info@.len() <= MAX_IX_DATA ==> 16 + ctx.remaining_accounts@.len() <= MAX_ACCOUNTS,
        ensures
            24 + data.remaining_accounts_info@.len() > MAX_IX_DATA ==> r == Err::<(), SwapError>(SwapError::InvalidInstructionData),
            24 + data.remaining_accounts_info@.len() <= MAX_IX_DATA ==> (r matches Err(e) ==> e is Runtime),
            24 + data.remaining_accounts_info@.len() <= MAX_IX_DATA ==> exists|host: [u8; 32]|
                #[trigger] address_read(ctx.host_fee_in, host)
                && invoked_with(
                    CpiProgram::Id(METEORA_DLMM_PROGRAM_ID),
                    meteora_dlmm_metas(*ctx, host@),
                    infos_of(meteora_dlmm_metas(*ctx, host@)),
                    meteora_dlmm_data(in_amount, minimum_out_amount, data.remaining_accounts_info@),
                    signer_seeds,
                    r,
                ),
    {
        let host = read_address(ctx.host_fee_in);
        let ix = Self::instruction(ctx, in_amount, minimum_out_amount, data, &host)?;
        invoke(&ix, signer_seeds)
    }

    /// `swap_signed` without signer seeds.
    pub fn swap(ctx: &MeteoraDlmmSwapAccounts<'_, AccountView>, in_amount: u64, minimum_out_amount: u64, data: &MeteoraDlmmSwapData) -> (r: Result<(), SwapError>)
        requires
            24 + data.remaining_accounts_info@.len() <= MAX_IX_DATA ==> 16 + ctx.remaining_accounts@.len() <= MAX_ACCOUNTS,
        ensures
            24 + data.remaining_accounts_info@.len() > MAX_IX_DATA ==> r == Err::<(), SwapError>(SwapError::InvalidInstructionData),
            24 + data.remaining_accounts_info@.len() <= MAX_IX_DATA ==> (r matches Err(e) ==> e is Runtime),
            24 + data.remaining_accounts_info@.len() <= MAX_IX_DATA ==> exists|host: [u8; 32]|
                #[trigger] address_read(ctx.host_fee_in, host)
                && invoked_with(
                    CpiProgram::Id(METEORA_DLMM_PROGRAM_ID),
                    meteora_dlmm_metas(*ctx, host@),
                    infos_of(meteora_dlmm_metas(*ctx, host@)),
                    meteora_dlmm_data(in_amount, minimum_out_amount, data.remaining_accounts_info@),
                    &[],
                    r,
                ),
    {
        Self::swap_signed(ctx, in_amount, minimum_out_amount, data, &[])
    }
}

/// Whatever a DLMM swap within the data limit comes to is the result of
/// invoking the `swap2` instruction in which the host fee account is
/// read-only exactly where the address read for it is the program's.
pub proof fn lemma_meteora_dlmm_host_fee_role_follows_its_address(
    ctx: &MeteoraDlmmSwapAccounts<'_, AccountView>,
    in_amount: u64,
    minimum_out_amount: u64,
    data: &MeteoraDlmmSwapData,
    signer_seeds: &[Signer],
    r: Result<(), SwapError>,
)
    requires
        call_ensures(MeteoraDlmm::swap_signed, (ctx, in_amount, minimum_out_amount, data, signer_seeds), r),
        24 + data.remaining_accounts_info@.len() <= MAX_IX_DATA,
    ensures
        exists|host: [u8; 32]| #[trigger] address_read(ctx.host_fee_in, host)
            && meteora_dlmm_metas(*ctx, host@)[9] == (if host@ == METEORA_DLMM_PROGRAM_ID@ {
                readonly_meta(ctx.host_fee_in)
            } else {
                writable_meta(ctx.host_fee_in)
            })
            && invoked_with(
                CpiProgram::Id(METEORA_DLMM_PROGRAM_ID),
                meteora_dlmm_metas(*ctx, host@),
                infos_of(meteora_dlmm_metas(*ctx, host@)),
                meteora_dlmm_data(in_amount, minimum_out_amount, data.remaining_accounts_info@),
                signer_seeds,
                r,
            ),
{
}

} // verus!
