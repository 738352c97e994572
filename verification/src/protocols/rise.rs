use vstd::prelude::*;
use vstd::bytes::{spec_u64_from_le_bytes, spec_u64_to_le_bytes};
use solana_account_view::AccountView;
use solana_instruction_view::cpi::Signer;
use crate::bytes::{push_bytes, push_u64_le, read_u64_le};
use crate::cpi::{
    CpiAccount, CpiInstruction, CpiProgram, infos_of, instruction, readonly, readonly_meta,
    writable, writable_meta, writable_signer, writable_signer_meta,
};
use crate::error::SwapError;
use crate::runtime::{invoke, invoked_with};

verus! {

pub const RISE_PROGRAM_ID: [u8; 32] = [6, 85, 73, 31, 86, 215, 248, 33, 182, 55, 113, 15, 215, 20, 129, 153, 50, 157, 113, 73, 155, 251, 89, 250, 60, 81, 167, 204, 2, 188, 247, 255];

pub const BUY_WITH_EXACT_CASH_IN_DISCRIMINATOR: [u8; 8] = [53, 248, 95, 20, 54, 162, 146, 247];
pub const SELL_WITH_EXACT_TOKEN_IN_DISCRIMINATOR: [u8; 8] = [27, 141, 98, 109, 197, 168, 104, 84];

pub const NUM_ACCOUNTS_BUY_WITH_EXACT_CASH_IN: usize = 23;
pub const NUM_ACCOUNTS_SELL_WITH_EXACT_TOKEN_IN: usize = 22;
pub const MAX_NUM_ACCOUNTS: usize = 23;
pub const BUY_DATA_LEN: usize = 88;
pub const SELL_DATA_LEN: usize = 24;
pub const MAX_DATA_LEN: usize = 88;

pub struct Rise;

#[derive(Clone, Copy, Debug, PartialEq, Eq, Structural)]
pub enum RiseSwapType {
    BuyWithExactCashIn,
    SellWithExactTokenIn,
}

/// A decimal as the program serializes it: sixteen bytes.
#[derive(Clone, Copy, Debug)]
pub struct DecimalSerialized(pub [u8; 16]);

/// The sixteen bytes of `s` from `off` on, as an array.
pub fn array16_at(s: &[u8], off: usize) -> (r: [u8; 16])
    requires
        off + 16 <= s@.len(),
    ensures
        r@ == s@.subrange(off as int, off + 16),
{
    let r = [
        s[off], s[off + 1], s[off + 2], s[off + 3], s[off + 4], s[off + 5], s[off + 6], s[off + 7],
        s[off + 8], s[off + 9], s[off + 10], s[off + 11], s[off + 12], s[off + 13], s[off + 14], s[off + 15],
    ];
    assert(r@ =~= s@.subrange(off as int, off + 16));
    r
}

impl DecimalSerialized {
    /// Exactly sixteen bytes.
    pub fn try_from(data: &[u8]) -> (r: Result<Self, SwapError>)
        ensures
            data@.len() != 16 ==> r == Err::<Self, SwapError>(SwapError::InvalidInstructionData),
            data@.len() == 16 ==> (r matches Ok(d) && d.0@ == data@),
    {
        if data.len() != 16 {
            return Err(SwapError::InvalidInstructionData);
        }
        Ok(DecimalSerialized(array16_at(data, 0)))
    }

    /// The sixteen bytes.
    pub fn to_bytes(&self) -> (r: [u8; 16])
        ensures
            r == self.0,
    {
        self.0
    }
}

pub enum RiseSwapData {
    BuyWithExactCashIn {
        new_shoulder_end: u64,
        floor_increase_ratio: DecimalSerialized,
        max_new_floor: DecimalSerialized,
        max_area_shrinkage_tolerance_units: u64,
        min_liq_ratio: DecimalSerialized,
    },
    SellWithExactTokenIn,
}

impl RiseSwapData {
    pub const DATA_LEN: usize = 64;

    /// Sixty-four bytes are a buy, anything else a sell. The fields of a buy
    /// follow one another: the shoulder end (eight bytes) at zero, the floor
    /// increase ratio (sixteen) at eight, the maximum new floor (sixteen) at
    /// twenty-four, the area shrinkage tolerance (eight) at forty and the
    /// minimum liquidity ratio (sixteen) at forty-eight.
    pub fn try_from(data: &[u8]) -> (r: Result<Self, SwapError>)
        ensures
            data@.len() != Self::DATA_LEN ==> r == Ok::<Self, SwapError>(RiseSwapData::SellWithExactTokenIn),
            data@.len() == Self::DATA_LEN ==> (r matches Ok(RiseSwapData::BuyWithExactCashIn {
                new_shoulder_end,
                floor_increase_ratio,
                max_new_floor,
                max_area_shrinkage_tolerance_units,
                min_liq_ratio,
            }) && {
                &&& new_shoulder_end == spec_u64_from_le_bytes(data@.subrange(0, 8))
                &&& floor_increase_ratio.0@ == data@.subrange(8, 24)
                &&& max_new_floor.0@ == data@.subrange(24, 40)
                &&& max_area_shrinkage_tolerance_units == spec_u64_from_le_bytes(data@.subrange(40, 48))
                &&& min_liq_ratio.0@ == data@.subrange(48, 64)
            }),
    {
        if data.len() == Self::DATA_LEN {
            let new_shoulder_end = read_u64_le(data, 0);
            let floor_increase_ratio = DecimalSerialized(array16_at(data, 8));
            let max_new_floor = DecimalSerialized(array16_at(data, 24));
            let max_area_shrinkage_tolerance_units = read_u64_le(data, 40);
            let min_liq_ratio = DecimalSerialized(array16_at(data, 48));
            Ok(RiseSwapData::BuyWithExactCashIn {
                new_shoulder_end,
                floor_increase_ratio,
                max_new_floor,
                max_area_shrinkage_tolerance_units,
                min_liq_ratio,
            })
        } else {
            Ok(RiseSwapData::SellWithExactTokenIn)
        }
    }
}

pub struct RiseSwapBaseAccounts<'info, A> {
    pub signer: &'info A,
    pub tenant: &'info A,
    pub market: &'info A,
    pub cash_escrow: &'info A,
    pub may_tenant: &'info A,
    pub may_market_group: &'info A,
    pub market_meta: &'info A,
    pub may_market: &'info A,
}

pub struct RiseSwapLegAccounts<'info, A> {
    pub mint_token: &'info A,
    pub mint_main: &'info A,
    pub token_dst: &'info A,
    pub main_src: &'info A,
    pub liq_vault_main: &'info A,
    pub rev_escrow_group: &'info A,
    pub rev_escrow_tenant: &'info A,
    pub token_program_main: &'info A,
    pub token_program: &'info A,
    pub mayflower_program: &'info A,
    pub may_log_account: &'info A,
    pub creator_escrow: &'info A,
    pub team_escrow: &'info A,
}

pub struct RiseSwapAccounts<'info, A> {
    pub rise_program: &'info A,
    pub base: RiseSwapBaseAccounts<'info, A>,
    pub tenant_seed: Option<&'info A>,
    pub leg: RiseSwapLegAccounts<'info, A>,
}

/// `c` holds the accounts of `s`: the program, the eight base accounts, the
/// tenant seed where there are twenty-three accounts, then the thirteen of
/// the leg.
pub open spec fn rise_accounts_laid_out<'info, A>(c: RiseSwapAccounts<'info, A>, s: Seq<A>) -> bool {
    let t: int = if s.len() == 23 { 10 } else { 9 };
    &&& *c.rise_program == s[0]
    &&& *c.base.signer == s[1]
    &&& *c.base.tenant == s[2]
    &&& *c.base.market == s[3]
    &&& *c.base.cash_escrow == s[4]
    &&& *c.base.may_tenant == s[5]
    &&& *c.base.may_market_group == s[6]
    &&& *c.base.market_meta == s[7]
    &&& *c.base.may_market == s[8]
    &&& (s.len() == 23 <==> c.tenant_seed is Some)
    &&& (c.tenant_seed matches Some(x) ==> *x == s[9])
    &&& *c.leg.mint_token == s[t + 0]
    &&& *c.leg.mint_main == s[t + 1]
    &&& *c.leg.token_dst == s[t + 2]
    &&& *c.leg.main_src == s[t + 3]
    &&& *c.leg.liq_vault_main == s[t + 4]
    &&& *c.leg.rev_escrow_group == s[t + 5]
    &&& *c.leg.rev_escrow_tenant == s[t + 6]
    &&& *c.leg.token_program_main == s[t + 7]
    &&& *c.leg.token_program == s[t + 8]
    &&& *c.leg.mayflower_program == s[t + 9]
    &&& *c.leg.may_log_account == s[t + 10]
    &&& *c.leg.creator_escrow == s[t + 11]
    &&& *c.leg.team_escrow == s[t + 12]
}

impl<'info, A> RiseSwapAccounts<'info, A> {
    pub const NUM_ACCOUNTS: usize = 23;

    /// Twenty-three accounts (with the tenant seed) or twenty-two.
    pub fn try_from(accounts: &'info [A]) -> (r: Result<Self, SwapError>)
        ensures
            accounts@.len() != 22 && accounts@.len() != 23 ==> r == Err::<Self, SwapError>(SwapError::NotEnoughAccountKeys),
            accounts@.len() == 22 || accounts@.len() == 23 ==> (r matches Ok(c) && rise_accounts_laid_out(c, accounts@)),
    {
        if accounts.len() != NUM_ACCOUNTS_BUY_WITH_EXACT_CASH_IN && accounts.len() != NUM_ACCOUNTS_SELL_WITH_EXACT_TOKEN_IN {
            return Err(SwapError::NotEnoughAccountKeys);
        }
        let (tenant_seed, t) = if accounts.len() == NUM_ACCOUNTS_BUY_WITH_EXACT_CASH_IN { (Some(&accounts[9]), 10usize) } else { (None, 9usize) };
        Ok(RiseSwapAccounts {
            rise_program: &accounts[0],
            base: RiseSwapBaseAccounts {
                signer: &accounts[1],
                tenant: &accounts[2],
                market: &accounts[3],
                cash_escrow: &accounts[4],
                may_tenant: &accounts[5],
                may_market_group: &accounts[6],
                market_meta: &accounts[7],
                may_market: &accounts[8],
            },
            tenant_seed,
            leg: RiseSwapLegAccounts {
                mint_token: &accounts[t + 0],
                mint_main: &accounts[t + 1],
                token_dst: &accounts[t + 2],
                main_src: &accounts[t + 3],
                liq_vault_main: &accounts[t + 4],
                rev_escrow_group: &accounts[t + 5],
                rev_escrow_tenant: &accounts[t + 6],
                token_program_main: &accounts[t + 7],
                token_program: &accounts[t + 8],
                mayflower_program: &accounts[t + 9],
                may_log_account: &accounts[t + 10],
                creator_escrow: &accounts[t + 11],
                team_escrow: &accounts[t + 12],
            },
        })
    }
}

/// The base accounts, the tenant seed where there is one, then the leg; the
/// program account is not passed on.
pub open spec fn rise_metas<'info, A>(ctx: RiseSwapAccounts<'info, A>) -> Seq<CpiAccount<'info, A>> {
    seq![
        writable_signer_meta(ctx.base.signer),
        writable_meta(ctx.base.tenant),
        writable_meta(ctx.base.market),
        writable_meta(ctx.base.cash_escrow),
        readonly_meta(ctx.base.may_tenant),
        writable_meta(ctx.base.may_market_group),
        writable_meta(ctx.base.market_meta),
        writable_meta(ctx.base.may_market),
    ] + match ctx.tenant_seed {
        Some(x) => seq![readonly_meta(x)],
        None => Seq::empty(),
    } + seq![
        writable_meta(ctx.leg.mint_token),
        readonly_meta(ctx.leg.mint_main),
        writable_meta(ctx.leg.token_dst),
        writable_meta(ctx.leg.main_src),
        writable_meta(ctx.leg.liq_vault_main),
        writable_meta(ctx.leg.rev_escrow_group),
        writable_meta(ctx.leg.rev_escrow_tenant),
        readonly_meta(ctx.leg.token_program_main),
        readonly_meta(ctx.leg.token_program),
        readonly_meta(ctx.leg.mayflower_program),
        writable_meta(ctx.leg.may_log_account),
        writable_meta(ctx.leg.creator_escrow),
        writable_meta(ctx.leg.team_escrow),
    ]
}

/// A buy: its discriminator, the two amounts, the shoulder end, the floor
/// increase ratio, the maximum new floor, the area shrinkage tolerance and the
/// minimum liquidity ratio. A sell: its discriminator and the two amounts.
pub open spec fn rise_data(in_amount: u64, minimum_out_amount: u64, data: RiseSwapData) -> Seq<u8> {
    match data {
        RiseSwapData::BuyWithExactCashIn {
            new_shoulder_end,
            floor_increase_ratio,
            max_new_floor,
            max_area_shrinkage_tolerance_units,
            min_liq_ratio,
        } => BUY_WITH_EXACT_CASH_IN_DISCRIMINATOR@ + spec_u64_to_le_bytes(in_amount) + spec_u64_to_le_bytes(minimum_out_amount)
            + spec_u64_to_le_bytes(new_shoulder_end) + floor_increase_ratio.0@ + max_new_floor.0@
            + spec_u64_to_le_bytes(max_area_shrinkage_tolerance_units) + min_liq_ratio.0@,
        RiseSwapData::SellWithExactTokenIn => SELL_WITH_EXACT_TOKEN_IN_DISCRIMINATOR@ + spec_u64_to_le_bytes(in_amount)
            + spec_u64_to_le_bytes(minimum_out_amount),
    }
}

impl Rise {
    /// The Rise buy or sell instruction.
    pub fn instruction<'info, A>(ctx: &RiseSwapAccounts<'info, A>, in_amount: u64, minimum_out_amount: u64, data: &RiseSwapData) -> (ix: CpiInstruction<'info, A>)
        ensures
            ix.program == CpiProgram::<'info, A>::Id(RISE_PROGRAM_ID),
            ix.accounts@ == rise_metas(*ctx),
            ix.account_infos@ == infos_of(ix.accounts@),
            ix.data@ == rise_data(in_amount, minimum_out_amount, *data),
    {
        let mut accounts: Vec<CpiAccount<'info, A>> = Vec::new();
        accounts.push(writable_signer(ctx.base.signer));
        accounts.push(writable(ctx.base.tenant));
        accounts.push(writable(ctx.base.market));
        accounts.push(writable(ctx.base.cash_escrow));
        accounts.push(readonly(ctx.base.may_tenant));
        accounts.push(writable(ctx.base.may_market_group));
        accounts.push(writable(ctx.base.market_meta));
        accounts.push(writable(ctx.base.may_market));
        match ctx.tenant_seed {
            Some(x) => accounts.push(readonly(x)),
            None => {},
        }
        accounts.push(writable(ctx.leg.mint_token));
        accounts.push(readonly(ctx.leg.mint_main));
        accounts.push(writable(ctx.leg.token_dst));
        accounts.push(writable(ctx.leg.main_src));
        accounts.push(writable(ctx.leg.liq_vault_main));
        accounts.push(writable(ctx.leg.rev_escrow_group));
        accounts.push(writable(ctx.leg.rev_escrow_tenant));
        accounts.push(readonly(ctx.leg.token_program_main));
        accounts.push(readonly(ctx.leg.token_program));
        accounts.push(readonly(ctx.leg.mayflower_program));
        accounts.push(writable(ctx.leg.may_log_account));
        accounts.push(writable(ctx.leg.creator_escrow));
        accounts.push(writable(ctx.leg.team_escrow));
        let mut bytes: Vec<u8> = Vec::new();
        match data {
            RiseSwapData::BuyWithExactCashIn {
                new_shoulder_end,
                floor_increase_ratio,
                max_new_floor,
                max_area_shrinkage_tolerance_units,
                min_liq_ratio,
            } => {
                push_bytes(&mut bytes, &BUY_WITH_EXACT_CASH_IN_DISCRIMINATOR);
                push_u64_le(&mut bytes, in_amount);
                push_u64_le(&mut bytes, minimum_out_amount);
                push_u64_le(&mut bytes, *new_shoulder_end);
                push_bytes(&mut bytes, &floor_increase_ratio.0);
                push_bytes(&mut bytes, &max_new_floor.0);
                push_u64_le(&mut bytes, *max_area_shrinkage_tolerance_units);
                push_bytes(&mut bytes, &min_liq_ratio.0);
            },
            RiseSwapData::SellWithExactTokenIn => {
                push_bytes(&mut bytes, &SELL_WITH_EXACT_TOKEN_IN_DISCRIMINATOR);
                push_u64_le(&mut bytes, in_amount);
                push_u64_le(&mut bytes, minimum_out_amount);
            },
        }
        let ix = instruction(CpiProgram::Id(RISE_PROGRAM_ID), accounts, bytes);
        assert(ix.accounts@ =~= rise_metas(*ctx));
        assert(ix.data@ =~= rise_data(in_amount, minimum_out_amount, *data));
        ix
    }

    /// Builds the instruction and invokes it with the given signer seeds.
    pub fn swap_signed(ctx: &RiseSwapAccounts<'_, AccountView>, in_amount: u64, minimum_out_amount: u64, data: &RiseSwapData, signer_seeds: &[Signer]) -> (r: Result<(), SwapError>)
        ensures
            r matches Err(e) ==> e is Runtime,
            invoked_with(
                    CpiProgram::Id(RISE_PROGRAM_ID),
                    rise_metas(*ctx),
                    infos_of(rise_metas(*ctx)),
                    rise_data(in_amount, minimum_out_amount, *data),
                    signer_seeds,
                    r,
                ),
    {
        let ix = Self::instruction(ctx, in_amount, minimum_out_amount, data);
        invoke(&ix, signer_seeds)
    }

    /// `swap_signed` without signer seeds.
    pub fn swap(ctx: &RiseSwapAccounts<'_, AccountView>, in_amount: u64, minimum_out_amount: u64, data: &RiseSwapData) -> (r: Result<(), SwapError>)
        ensures
            r matches Err(e) ==> e is Runtime,
            invoked_with(
                    CpiProgram::Id(RISE_PROGRAM_ID),
                    rise_metas(*ctx),
                    infos_of(rise_metas(*ctx)),
                    rise_data(in_amount, minimum_out_amount, *data),
                    &[],
                    r,
                ),
    {
        Self::swap_signed(ctx, in_amount, minimum_out_amount, data, &[])
    }
}

/// A buy's instruction data is `BUY_DATA_LEN` bytes long and a sell's
/// `SELL_DATA_LEN`.
pub proof fn lemma_rise_data_len(in_amount: u64, minimum_out_amount: u64, data: RiseSwapData)
    ensures
        rise_data(in_amount, minimum_out_amount, data).len() == if data is BuyWithExactCashIn { BUY_DATA_LEN } else { SELL_DATA_LEN },
{
    vstd::bytes::lemma_auto_spec_u64_to_from_le_bytes();
}

/// The buy fields that an instruction carries after its discriminator and
/// two amounts are the sixty-four bytes that `RiseSwapData::try_from` reads
/// back: each field at the offset from which it is parsed.
pub proof fn lemma_rise_buy_data_round_trip(in_amount: u64, minimum_out_amount: u64, data: RiseSwapData)
    requires
        data is BuyWithExactCashIn,
    ensures
        ({
            let tail = rise_data(in_amount, minimum_out_amount, data).subrange(24, 88);
            &&& tail.len() == RiseSwapData::DATA_LEN
            &&& data matches RiseSwapData::BuyWithExactCashIn {
                new_shoulder_end,
                floor_increase_ratio,
                max_new_floor,
                max_area_shrinkage_tolerance_units,
                min_liq_ratio,
            } && {
                &&& spec_u64_from_le_bytes(tail.subrange(0, 8)) == new_shoulder_end
                &&& tail.subrange(8, 24) == floor_increase_ratio.0@
                &&& tail.subrange(24, 40) == max_new_floor.0@
                &&& spec_u64_from_le_bytes(tail.subrange(40, 48)) == max_area_shrinkage_tolerance_units
                &&& tail.subrange(48, 64) == min_liq_ratio.0@
            }
        }),
{
    vstd::bytes::lemma_auto_spec_u64_to_from_le_bytes();
    match data {
        RiseSwapData::BuyWithExactCashIn {
            new_shoulder_end,
            floor_increase_ratio,
            max_new_floor,
            max_area_shrinkage_tolerance_units,
            min_liq_ratio,
        } => {
            let full = rise_data(in_amount, minimum_out_amount, data);
            let tail = full.subrange(24, 88);
            let a = spec_u64_to_le_bytes(new_shoulder_end);
            let t = spec_u64_to_le_bytes(max_area_shrinkage_tolerance_units);
            assert(full.len() == 88);
            assert(tail.subrange(0, 8) =~= a);
            assert(tail.subrange(8, 24) =~= floor_increase_ratio.0@);
            assert(tail.subrange(24, 40) =~= max_new_floor.0@);
            assert(tail.subrange(40, 48) =~= t);
            assert(tail.subrange(48, 64) =~= min_liq_ratio.0@);
        },
        RiseSwapData::SellWithExactTokenIn => {},
    }
}

} // verus!
