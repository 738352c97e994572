use vstd::prelude::*;
use vstd::bytes::{spec_u32_to_le_bytes, spec_u64_to_le_bytes};
use solana_account_view::AccountView;
use solana_instruction_view::cpi::Signer;
use crate::bytes::{push_bytes, push_u32_le, push_u64_le};
use crate::cpi::{
    CpiAccount, CpiInstruction, CpiProgram, SwapParameters, infos_of, instruction, readonly,
    readonly_meta, readonly_signer, readonly_signer_meta, writable, writable_meta,
};
use crate::error::SwapError;
use crate::runtime::{invoke, invoked_with, mint_unreadable, same_mint_read, same_token_mint};

verus! {

pub const HEAVEN_PROGRAM_ID: [u8; 32] = [241, 26, 68, 157, 70, 185, 133, 8, 130, 47, 66, 106, 4, 144, 19, 47, 68, 85, 0, 132, 31, 13, 147, 137, 166, 216, 139, 188, 116, 60, 127, 72];

pub const BUY_DISCRIMINATOR: [u8; 8] = [102, 6, 61, 18, 1, 218, 235, 234];
pub const SELL_DISCRIMINATOR: [u8; 8] = [51, 230, 133, 164, 1, 127, 131, 173];

/// Longest event that a swap passes on.
pub const MAX_EVENT_LEN: usize = 256;

pub struct Heaven;

/// The direction of a Heaven swap.
#[derive(Clone, Copy, Debug, PartialEq, Eq, Structural)]
pub enum SwapDirection {
    /// Paying in token B for token A.
    Buy,
    /// Paying in token A for token B.
    Sell,
}

/// The byte that encodes `x`: Buy is zero, Sell is one.
pub open spec fn swapdirection_byte(x: SwapDirection) -> u8 {
    match x {
        SwapDirection::Buy => 0u8,
        SwapDirection::Sell => 1u8,
    }
}

impl SwapDirection {
    /// The byte that encodes `self`.
    pub fn to_byte(self) -> (r: u8)
        ensures
            r == swapdirection_byte(self),
    {
        match self {
            SwapDirection::Buy => 0u8,
            SwapDirection::Sell => 1u8,
        }
    }

    /// The direction of a swap that pays in token A exactly when `flag` holds.
    pub fn for_flag(flag: bool) -> (r: Self)
        ensures
            r == (if flag { SwapDirection::Sell } else { SwapDirection::Buy }),
    {
        if flag { SwapDirection::Sell } else { SwapDirection::Buy }
    }
}

pub struct HeavenSwapRemaining<'info, A> {
    pub heaven_program: &'info A,
    pub token_a_owner: &'info A,
    pub token_b_owner: &'info A,
    pub ata_program: &'info A,
    pub system_program: &'info A,
    pub pool_state: &'info A,
    pub token_a_mint: &'info A,
    pub token_b_mint: &'info A,
    pub pool_token_a_account: &'info A,
    pub pool_token_b_account: &'info A,
    pub protocol_config: &'info A,
    pub ix_sysvar: &'info A,
    pub chainlink_id: &'info A,
    pub chainlink_sol_usd_feed: &'info A,
}

/// `c` holds the accounts of `s` in the order of its fields.
pub open spec fn heaven_remaining_laid_out<'info, A>(c: HeavenSwapRemaining<'info, A>, s: Seq<A>) -> bool {
    &&& *c.heaven_program == s[0]
    &&& *c.token_a_owner == s[1]
    &&& *c.token_b_owner == s[2]
    &&& *c.ata_program == s[3]
    &&& *c.system_program == s[4]
    &&& *c.pool_state == s[5]
    &&& *c.token_a_mint == s[6]
    &&& *c.token_b_mint == s[7]
    &&& *c.pool_token_a_account == s[8]
    &&& *c.pool_token_b_account == s[9]
    &&& *c.protocol_config == s[10]
    &&& *c.ix_sysvar == s[11]
    &&& *c.chainlink_id == s[12]
    &&& *c.chainlink_sol_usd_feed == s[13]
}

impl<'info, A> HeavenSwapRemaining<'info, A> {
    pub fn try_from(accounts: &'info [A]) -> (r: Result<Self, SwapError>)
        ensures
            accounts@.len() < 14 ==> r == Err::<Self, SwapError>(SwapError::NotEnoughAccountKeys),
            accounts@.len() >= 14 ==> (r matches Ok(c) && heaven_remaining_laid_out(c, accounts@)),
    {
        if accounts.len() < 14 {
            return Err(SwapError::NotEnoughAccountKeys);
        }
        Ok(HeavenSwapRemaining {
            heaven_program: &accounts[0],
            token_a_owner: &accounts[1],
            token_b_owner: &accounts[2],
            ata_program: &accounts[3],
            system_program: &accounts[4],
            pool_state: &accounts[5],
            token_a_mint: &accounts[6],
            token_b_mint: &accounts[7],
            pool_token_a_account: &accounts[8],
            pool_token_b_account: &accounts[9],
            protocol_config: &accounts[10],
            ix_sysvar: &accounts[11],
            chainlink_id: &accounts[12],
            chainlink_sol_usd_feed: &accounts[13],
        })
    }
}

/// The event bytes handed on to the program.
pub struct HeavenSwapExtra<'a> {
    pub event: &'a [u8],
}

impl<'a> HeavenSwapExtra<'a> {
    /// All of `data` is the event.
    pub fn try_from(data: &'a [u8]) -> (r: Result<Self, SwapError>)
        ensures
            r matches Ok(x) && x.event@ == data@,
    {
        Ok(HeavenSwapExtra { event: data })
    }
}

/// The sixteen accounts of a Heaven swap; the user's token A and token B accounts are the in and out accounts, in the order of the direction.
pub open spec fn heaven_metas<'info, A>(params: SwapParameters<'info, A>, remaining: HeavenSwapRemaining<'info, A>, is_a_in: bool) -> Seq<CpiAccount<'info, A>> {
    let user_token_a_account = if is_a_in { params.in_ata } else { params.out_ata };
    let user_token_b_account = if is_a_in { params.out_ata } else { params.in_ata };
    seq![
        readonly_meta(remaining.token_a_owner),
        readonly_meta(remaining.token_b_owner),
        readonly_meta(remaining.ata_program),
        readonly_meta(remaining.system_program),
        writable_meta(remaining.pool_state),
        readonly_signer_meta(params.user_wallet),
        readonly_meta(remaining.token_a_mint),
        readonly_meta(remaining.token_b_mint),
        writable_meta(user_token_a_account),
        writable_meta(user_token_b_account),
        writable_meta(remaining.pool_token_a_account),
        writable_meta(remaining.pool_token_b_account),
        writable_meta(remaining.protocol_config),
        readonly_meta(remaining.ix_sysvar),
        readonly_meta(remaining.chainlink_id),
        readonly_meta(remaining.chainlink_sol_usd_feed),
    ]
}

pub open spec fn heaven_discriminator(direction: SwapDirection) -> Seq<u8> {
    match direction {
        SwapDirection::Buy => BUY_DISCRIMINATOR@,
        SwapDirection::Sell => SELL_DISCRIMINATOR@,
    }
}

/// Discriminator of the direction, the two amounts, the length of the event as
/// four bytes, then the event, all little-endian.
pub open spec fn heaven_data(in_amount: u64, minimum_out_amount: u64, event: Seq<u8>, is_a_in: bool) -> Seq<u8> {
    heaven_discriminator(if is_a_in { SwapDirection::Sell } else { SwapDirection::Buy })
        + spec_u64_to_le_bytes(in_amount) + spec_u64_to_le_bytes(minimum_out_amount)
        + spec_u32_to_le_bytes(event.len() as u32) + event
}

impl Heaven {
    pub fn try_parse_remaining<'info, A>(remaining: &'info [A]) -> (r: Result<HeavenSwapRemaining<'info, A>, SwapError>)
        ensures
            remaining@.len() < 14 ==> r == Err::<HeavenSwapRemaining<'info, A>, SwapError>(SwapError::NotEnoughAccountKeys),
            remaining@.len() >= 14 ==> (r matches Ok(c) && heaven_remaining_laid_out(c, remaining@)),
    {
        HeavenSwapRemaining::try_from(remaining)
    }

    /// The Heaven swap instruction, for a swap that pays in token A exactly when
    /// `is_a_in` holds; refused where the event is longer than `MAX_EVENT_LEN`.
    pub fn instruction<'info, A>(params: &SwapParameters<'info, A>, remaining: &HeavenSwapRemaining<'info, A>, in_amount: u64, minimum_out_amount: u64, extra: &HeavenSwapExtra, is_a_in: bool) -> (r: Result<CpiInstruction<'info, A>, SwapError>)
        ensures
            extra.event@.len() > MAX_EVENT_LEN ==> r == Err::<CpiInstruction<'info, A>, SwapError>(SwapError::InvalidInstructionData),
            extra.event@.len() <= MAX_EVENT_LEN ==> (r matches Ok(ix) && {
                &&& ix.program == CpiProgram::<'info, A>::Id(HEAVEN_PROGRAM_ID)
                &&& ix.accounts@ == heaven_metas(*params, *remaining, is_a_in)
                &&& ix.account_infos@ == infos_of(ix.accounts@)
                &&& ix.data@ == heaven_data(in_amount, minimum_out_amount, extra.event@, is_a_in)
            }),
    {
        if extra.event.len() > MAX_EVENT_LEN {
            return Err(SwapError::InvalidInstructionData);
        }
        let (user_token_a_account, user_token_b_account) = if is_a_in { (params.in_ata, params.out_ata) } else { (params.out_ata, params.in_ata) };
        let mut accounts: Vec<CpiAccount<'info, A>> = Vec::new();
        accounts.push(readonly(remaining.token_a_owner));
        accounts.push(readonly(remaining.token_b_owner));
        accounts.push(readonly(remaining.ata_program));
        accounts.push(readonly(remaining.system_program));
        accounts.push(writable(remaining.pool_state));
        accounts.push(readonly_signer(params.user_wallet));
        accounts.push(readonly(remaining.token_a_mint));
        accounts.push(readonly(remaining.token_b_mint));
        accounts.push(writable(user_token_a_account));
        accounts.push(writable(user_token_b_account));
        accounts.push(writable(remaining.pool_token_a_account));
        accounts.push(writable(remaining.pool_token_b_account));
        accounts.push(writable(remaining.protocol_config));
        accounts.push(readonly(remaining.ix_sysvar));
        accounts.push(readonly(remaining.chainlink_id));
        accounts.push(readonly(remaining.chainlink_sol_usd_feed));
        let mut bytes: Vec<u8> = Vec::new();
        match SwapDirection::for_flag(is_a_in) {
            SwapDirection::Buy => push_bytes(&mut bytes, &BUY_DISCRIMINATOR),
            SwapDirection::Sell => push_bytes(&mut bytes, &SELL_DISCRIMINATOR),
        }
        push_u64_le(&mut bytes, in_amount);
        push_u64_le(&mut bytes, minimum_out_amount);
        push_u32_le(&mut bytes, extra.event.len() as u32);
        push_bytes(&mut bytes, extra.event);
        let ix = instruction(CpiProgram::Id(HEAVEN_PROGRAM_ID), accounts, bytes);
        assert(ix.accounts@ =~= heaven_metas(*params, *remaining, is_a_in));
        assert(ix.data@ =~= heaven_data(in_amount, minimum_out_amount, extra.event@, is_a_in));
        Ok(ix)
    }

    /// Refuses an event longer than `MAX_EVENT_LEN`, reads the direction from
    /// the mints of the in account and the pool's token A account, then
    /// invokes the swap.
    pub fn swap_with_parameters_signed(params: &SwapParameters<'_, AccountView>, remaining: &HeavenSwapRemaining<'_, AccountView>, in_amount: u64, minimum_out_amount: u64, extra: &HeavenSwapExtra, signer_seeds: &[Signer]) -> (r: Result<(), SwapError>)
        ensures
            extra.event@.len() > MAX_EVENT_LEN ==> r == Err::<(), SwapError>(SwapError::InvalidInstructionData),
            extra.event@.len() <= MAX_EVENT_LEN ==> (r matches Err(e) ==> (e is Runtime || e == SwapError::InvalidAccountData)),
            extra.event@.len() <= MAX_EVENT_LEN && r == Err::<(), SwapError>(SwapError::InvalidAccountData)
                ==> mint_unreadable(params.in_ata, remaining.pool_token_a_account),
            extra.event@.len() <= MAX_EVENT_LEN && r != Err::<(), SwapError>(SwapError::InvalidAccountData) ==> exists|is_a_in: bool|
                #[trigger] same_mint_read(params.in_ata, remaining.pool_token_a_account, is_a_in)
                && invoked_with(
                    CpiProgram::Id(HEAVEN_PROGRAM_ID),
                    heaven_metas(*params, *remaining, is_a_in),
                    infos_of(heaven_metas(*params, *remaining, is_a_in)),
                    heaven_data(in_amount, minimum_out_amount, extra.event@, is_a_in),
                    signer_seeds,
                    r,
                ),
    {
        if extra.event.len() > MAX_EVENT_LEN {
            return Err(SwapError::InvalidInstructionData);
        }
        let is_a_in = same_token_mint(params.in_ata, remaining.pool_token_a_account)?;
        let ix = Self::instruction(params, remaining, in_amount, minimum_out_amount, extra, is_a_in)?;
        invoke(&ix, signer_seeds)
    }
}

} // verus!
