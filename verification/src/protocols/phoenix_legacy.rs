use vstd::prelude::*;
use vstd::bytes::{spec_u64_from_le_bytes, spec_u64_to_le_bytes};
use solana_account_view::AccountView;
use solana_instruction_view::cpi::Signer;
use crate::bytes::{push_u64_le, read_u64_le};
use crate::cpi::{
    CpiAccount, CpiInstruction, CpiProgram, infos_of, instruction, readonly, readonly_meta,
    readonly_signer, readonly_signer_meta, writable, writable_meta,
};
use crate::error::SwapError;
use crate::runtime::{invoke, invoked_with};

verus! {

pub const PHOENIX_LEGACY_PROGRAM_ID: [u8; 32] = [5, 208, 234, 79, 51, 115, 112, 19, 165, 99, 224, 147, 72, 237, 182, 244, 89, 61, 145, 252, 118, 65, 249, 36, 124, 36, 65, 168, 66, 161, 187, 235];

pub const SWAP_INSTRUCTION_DISCRIMINANT: u8 = 0;

/// Longest instruction data: the discriminant and a borsh immediate-or-cancel
/// order packet with every option set.
pub const MAX_DATA_LEN: usize = 89;

#[derive(Clone, Copy, Debug, PartialEq, Eq, Structural)]
pub enum Side {
    Bid,
    Ask,
}

pub open spec fn side_byte(s: Side) -> u8 {
    match s {
        Side::Bid => 0u8,
        Side::Ask => 1u8,
    }
}

#[derive(Clone, Copy, Debug, PartialEq, Eq, Structural)]
pub enum OrderPacketType {
    PostOnly,
    Limit,
    ImmediateOrCancel,
}

pub open spec fn order_packet_type_byte(t: OrderPacketType) -> u8 {
    match t {
        OrderPacketType::PostOnly => 0u8,
        OrderPacketType::Limit => 1u8,
        OrderPacketType::ImmediateOrCancel => 2u8,
    }
}

impl Side {
    /// The byte of `self`: zero for a bid, one for an ask.
    pub fn to_byte(self) -> (r: u8)
        ensures
            r == side_byte(self),
    {
        match self {
            Side::Bid => 0,
            Side::Ask => 1,
        }
    }
}

impl OrderPacketType {
    /// The byte of `self`, its place in the list from zero.
    pub fn to_byte(self) -> (r: u8)
        ensures
            r == order_packet_type_byte(self),
    {
        match self {
            OrderPacketType::PostOnly => 0,
            OrderPacketType::Limit => 1,
            OrderPacketType::ImmediateOrCancel => 2,
        }
    }
}

pub struct PhoenixLegacy;

/// The order fields a swap sends besides its two amounts. The in amount is the
/// number of base lots of an ask and of quote lots of a bid; the minimum out
/// amount is the least quote lots an ask fills and base lots a bid fills;
/// `max_counterpart_lots` caps the other asset.
#[derive(Clone, Copy, Debug, PartialEq, Eq, Structural)]
pub struct PhoenixLegacySwapData {
    pub side: Side,
    pub price_in_ticks: Option<u64>,
    pub max_counterpart_lots: u64,
    pub self_trade_behavior: u8,
    pub match_limit: Option<u64>,
    pub client_order_id: u128,
    pub use_only_deposited_funds: bool,
    pub last_valid_slot: Option<u64>,
    pub last_valid_unix_timestamp_in_seconds: Option<u64>,
}

/// The option at `off`: a tag byte, then eight bytes of value, read only
/// where the tag is not zero.
pub open spec fn opt_u64_at(data: Seq<u8>, off: int) -> Option<u64> {
    if data[off] == 0 {
        None
    } else {
        Some(spec_u64_from_le_bytes(data.subrange(off + 1, off + 9)))
    }
}

pub open spec fn u64_at(data: Seq<u8>, off: int) -> u64 {
    spec_u64_from_le_bytes(data.subrange(off, off + 8))
}

/// The swap data that sixty-three or more bytes encode: side, price option,
/// counterpart cap, self-trade behaviour, match-limit option, client order id
/// (low half, then high half), deposited-funds flag, slot option and
/// timestamp option; options take nine bytes each.
pub open spec fn phoenix_legacy_swap_data_of(data: Seq<u8>) -> Option<PhoenixLegacySwapData> {
    if data.len() < 63 || data[0] > 1 {
        None
    } else {
        Some(PhoenixLegacySwapData {
            side: if data[0] == 0 { Side::Bid } else { Side::Ask },
            price_in_ticks: opt_u64_at(data, 1),
            max_counterpart_lots: u64_at(data, 10),
            self_trade_behavior: data[18],
            match_limit: opt_u64_at(data, 19),
            client_order_id: (u64_at(data, 36) as int * 0x1_0000_0000_0000_0000 + u64_at(data, 28) as int) as u128,
            use_only_deposited_funds: data[44] != 0,
            last_valid_slot: opt_u64_at(data, 45),
            last_valid_unix_timestamp_in_seconds: opt_u64_at(data, 54),
        })
    }
}

/// Reads the option at `*off`: a tag byte, then eight little-endian bytes,
/// present where the tag is not zero. The offset moves past the tag once it
/// is read, and past the value once that is read too.
fn read_opt_u64(data: &[u8], off: &mut usize) -> (r: Result<Option<u64>, SwapError>)
    requires
        *old(off) + 9 <= usize::MAX,
    ensures
        *old(off) >= data@.len() ==> r == Err::<Option<u64>, SwapError>(SwapError::InvalidInstructionData)
            && *final(off) == *old(off),
        *old(off) < data@.len() < *old(off) + 9 ==> r == Err::<Option<u64>, SwapError>(SwapError::InvalidInstructionData)
            && *final(off) == *old(off) + 1,
        *old(off) + 9 <= data@.len() ==> r == Ok::<Option<u64>, SwapError>(opt_u64_at(data@, *old(off) as int))
            && *final(off) == *old(off) + 9,
{
    if *off >= data.len() {
        return Err(SwapError::InvalidInstructionData);
    }
    let tag = data[*off];
    *off = *off + 1;
    if data.len() - *off < 8 {
        return Err(SwapError::InvalidInstructionData);
    }
    let v = read_u64_le(data, *off);
    *off = *off + 8;
    Ok(if tag == 0 { None } else { Some(v) })
}

impl PhoenixLegacySwapData {
    pub const DATA_LEN: usize = 63;

    pub fn try_from(data: &[u8]) -> (r: Result<Self, SwapError>)
        ensures
            match phoenix_legacy_swap_data_of(data@) {
                Some(d) => r == Ok::<Self, SwapError>(d),
                None => r == Err::<Self, SwapError>(SwapError::InvalidInstructionData),
            },
    {
        if data.len() < Self::DATA_LEN {
            return Err(SwapError::InvalidInstructionData);
        }
        let mut off: usize = 0;
        let side = if data[off] == 0 {
            Side::Bid
        } else if data[off] == 1 {
            Side::Ask
        } else {
            return Err(SwapError::InvalidInstructionData);
        };
        off = off + 1;
        let price_in_ticks = read_opt_u64(data, &mut off)?;
        let max_counterpart_lots = read_u64_le(data, off);
        off = off + 8;
        let self_trade_behavior = data[off];
        off = off + 1;
        let match_limit = read_opt_u64(data, &mut off)?;
        let lo = read_u64_le(data, off);
        off = off + 8;
        let hi = read_u64_le(data, off);
        off = off + 8;
        let client_order_id = (hi as u128) * 0x1_0000_0000_0000_0000u128 + (lo as u128);
        let use_only_deposited_funds = data[off] != 0;
        off = off + 1;
        let last_valid_slot = read_opt_u64(data, &mut off)?;
        let last_valid_unix_timestamp_in_seconds = read_opt_u64(data, &mut off)?;
        Ok(PhoenixLegacySwapData {
            side,
            price_in_ticks,
            max_counterpart_lots,
            self_trade_behavior,
            match_limit,
            client_order_id,
            use_only_deposited_funds,
            last_valid_slot,
            last_valid_unix_timestamp_in_seconds,
        })
    }
}

pub struct PhoenixLegacySwapAccounts<'info, A> {
    pub phoenix_program: &'info A,
    pub log_authority: &'info A,
    pub market: &'info A,
    pub trader: &'info A,
    pub base_account: &'info A,
    pub quote_account: &'info A,
    pub base_vault: &'info A,
    pub quote_vault: &'info A,
    pub token_program: &'info A,
}

/// `c` holds the first nine accounts of `s` in the order of its fields.
pub open spec fn phoenix_legacy_accounts_laid_out<'info, A>(c: PhoenixLegacySwapAccounts<'info, A>, s: Seq<A>) -> bool {
    &&& *c.phoenix_program == s[0]
    &&& *c.log_authority == s[1]
    &&& *c.market == s[2]
    &&& *c.trader == s[3]
    &&& *c.base_account == s[4]
    &&& *c.quote_account == s[5]
    &&& *c.base_vault == s[6]
    &&& *c.quote_vault == s[7]
    &&& *c.token_program == s[8]
}

impl<'info, A> PhoenixLegacySwapAccounts<'info, A> {
    pub const NUM_ACCOUNTS: usize = 9;

    pub fn try_from(accounts: &'info [A]) -> (r: Result<Self, SwapError>)
        ensures
            accounts@.len() < Self::NUM_ACCOUNTS ==> r == Err::<Self, SwapError>(SwapError::NotEnoughAccountKeys),
            accounts@.len() >= Self::NUM_ACCOUNTS ==> (r matches Ok(c) && phoenix_legacy_accounts_laid_out(c, accounts@)),
    {
        if accounts.len() < Self::NUM_ACCOUNTS {
            return Err(SwapError::NotEnoughAccountKeys);
        }
        Ok(PhoenixLegacySwapAccounts {
            phoenix_program: &accounts[0],
            log_authority: &accounts[1],
            market: &accounts[2],
            trader: &accounts[3],
            base_account: &accounts[4],
            quote_account: &accounts[5],
            base_vault: &accounts[6],
            quote_vault: &accounts[7],
            token_program: &accounts[8],
        })
    }
}

/// The nine accounts of a Phoenix swap, the program first.
pub open spec fn phoenix_legacy_metas<'info, A>(ctx: PhoenixLegacySwapAccounts<'info, A>) -> Seq<CpiAccount<'info, A>> {
    seq![
        readonly_meta(ctx.phoenix_program),
        readonly_meta(ctx.log_authority),
        writable_meta(ctx.market),
        readonly_signer_meta(ctx.trader),
        writable_meta(ctx.base_account),
        writable_meta(ctx.quote_account),
        writable_meta(ctx.base_vault),
        writable_meta(ctx.quote_vault),
        readonly_meta(ctx.token_program),
    ]
}

/// A borsh option: a zero byte for none; a one byte and the value, little-endian, for some.
pub open spec fn borsh_opt_u64(v: Option<u64>) -> Seq<u8> {
    match v {
        None => seq![0u8],
        Some(x) => seq![1u8] + spec_u64_to_le_bytes(x),
    }
}

/// The discriminant, then an immediate-or-cancel order packet: side, price
/// option, base lots, quote lots, least base lots to fill, least quote lots to
/// fill, self-trade behaviour, match-limit option, client order id (low half,
/// then high half), deposited-funds flag, slot option and timestamp option.
/// An ask sells the in amount of base lots for at least the minimum out
/// amount of quote lots; a bid the other way round.
pub open spec fn phoenix_legacy_data(in_amount: u64, minimum_out_amount: u64, d: PhoenixLegacySwapData) -> Seq<u8> {
    let (num_base_lots, num_quote_lots, min_base_lots_to_fill, min_quote_lots_to_fill) = match d.side {
        Side::Ask => (in_amount, d.max_counterpart_lots, 0u64, minimum_out_amount),
        Side::Bid => (d.max_counterpart_lots, in_amount, minimum_out_amount, 0u64),
    };
    seq![SWAP_INSTRUCTION_DISCRIMINANT, order_packet_type_byte(OrderPacketType::ImmediateOrCancel), side_byte(d.side)]
        + borsh_opt_u64(d.price_in_ticks)
        + spec_u64_to_le_bytes(num_base_lots) + spec_u64_to_le_bytes(num_quote_lots)
        + spec_u64_to_le_bytes(min_base_lots_to_fill) + spec_u64_to_le_bytes(min_quote_lots_to_fill)
        + seq![d.self_trade_behavior]
        + borsh_opt_u64(d.match_limit)
        + spec_u64_to_le_bytes(d.client_order_id as u64) + spec_u64_to_le_bytes((d.client_order_id >> 64u128) as u64)
        + seq![if d.use_only_deposited_funds { 1u8 } else { 0u8 }]
        + borsh_opt_u64(d.last_valid_slot)
        + borsh_opt_u64(d.last_valid_unix_timestamp_in_seconds)
}

/// Appends `v` as a borsh option.
fn push_borsh_opt_u64(bytes: &mut Vec<u8>, v: Option<u64>)
    ensures
        final(bytes)@ == old(bytes)@ + borsh_opt_u64(v),
{
    match v {
        None => bytes.push(0u8),
        Some(x) => {
            bytes.push(1u8);
            push_u64_le(bytes, x);
        },
    }
}

impl PhoenixLegacy {
    /// The Phoenix swap instruction: an immediate-or-cancel order.
    pub fn instruction<'info, A>(ctx: &PhoenixLegacySwapAccounts<'info, A>, in_amount: u64, minimum_out_amount: u64, data: &PhoenixLegacySwapData) -> (ix: CpiInstruction<'info, A>)
        ensures
            ix.program == CpiProgram::<'info, A>::Id(PHOENIX_LEGACY_PROGRAM_ID),
            ix.accounts@ == phoenix_legacy_metas(*ctx),
            ix.account_infos@ == infos_of(ix.accounts@),
            ix.data@ == phoenix_legacy_data(in_amount, minimum_out_amount, *data),
    {
        let mut accounts: Vec<CpiAccount<'info, A>> = Vec::new();
        accounts.push(readonly(ctx.phoenix_program));
        accounts.push(readonly(ctx.log_authority));
        accounts.push(writable(ctx.market));
        accounts.push(readonly_signer(ctx.trader));
        accounts.push(writable(ctx.base_account));
        accounts.push(writable(ctx.quote_account));
        accounts.push(writable(ctx.base_vault));
        accounts.push(writable(ctx.quote_vault));
        accounts.push(readonly(ctx.token_program));
        let (num_base_lots, num_quote_lots, min_base_lots_to_fill, min_quote_lots_to_fill) = match data.side {
            Side::Ask => (in_amount, data.max_counterpart_lots, 0u64, minimum_out_amount),
            Side::Bid => (data.max_counterpart_lots, in_amount, minimum_out_amount, 0u64),
        };
        let cid = data.client_order_id;
        let mut bytes: Vec<u8> = Vec::new();
        bytes.push(SWAP_INSTRUCTION_DISCRIMINANT);
        bytes.push(OrderPacketType::ImmediateOrCancel.to_byte());
        bytes.push(data.side.to_byte());
        push_borsh_opt_u64(&mut bytes, data.price_in_ticks);
        push_u64_le(&mut bytes, num_base_lots);
        push_u64_le(&mut bytes, num_quote_lots);
        push_u64_le(&mut bytes, min_base_lots_to_fill);
        push_u64_le(&mut bytes, min_quote_lots_to_fill);
        bytes.push(data.self_trade_behavior);
        push_borsh_opt_u64(&mut bytes, data.match_limit);
        push_u64_le(&mut bytes, cid as u64);
        push_u64_le(&mut bytes, (cid >> 64u32) as u64);
        bytes.push(if data.use_only_deposited_funds { 1u8 } else { 0u8 });
        push_borsh_opt_u64(&mut bytes, data.last_valid_slot);
        push_borsh_opt_u64(&mut bytes, data.last_valid_unix_timestamp_in_seconds);
        let ix = instruction(CpiProgram::Id(PHOENIX_LEGACY_PROGRAM_ID), accounts, bytes);
        assert(ix.accounts@ =~= phoenix_legacy_metas(*ctx));
        assert(ix.data@ =~= phoenix_legacy_data(in_amount, minimum_out_amount, *data));
        ix
    }

    /// Builds the swap instruction and invokes it with the given signer seeds.
    pub fn swap_signed(ctx: &PhoenixLegacySwapAccounts<'_, AccountView>, in_amount: u64, minimum_out_amount: u64, data: &PhoenixLegacySwapData, signer_seeds: &[Signer]) -> (r: Result<(), SwapError>)
        ensures
            r matches Err(e) ==> e is Runtime,
            invoked_with(
                    CpiProgram::Id(PHOENIX_LEGACY_PROGRAM_ID),
                    phoenix_legacy_metas(*ctx),
                    infos_of(phoenix_legacy_metas(*ctx)),
                    phoenix_legacy_data(in_amount, minimum_out_amount, *data),
                    signer_seeds,
                    r,
                ),
    {
        let ix = Self::instruction(ctx, in_amount, minimum_out_amount, data);
        invoke(&ix, signer_seeds)
    }

    /// `swap_signed` without signer seeds.
    pub fn swap(ctx: &PhoenixLegacySwapAccounts<'_, AccountView>, in_amount: u64, minimum_out_amount: u64, data: &PhoenixLegacySwapData) -> (r: Result<(), SwapError>)
        ensures
            r matches Err(e) ==> e is Runtime,
            invoked_with(
                    CpiProgram::Id(PHOENIX_LEGACY_PROGRAM_ID),
                    phoenix_legacy_metas(*ctx),
                    infos_of(phoenix_legacy_metas(*ctx)),
                    phoenix_legacy_data(in_amount, minimum_out_amount, *data),
                    &[],
                    r,
                ),
    {
        Self::swap_signed(ctx, in_amount, minimum_out_amount, data, &[])
    }
}

/// The instruction data is never longer than `MAX_DATA_LEN`: fifty-seven bytes
/// plus eight for each option that is set.
pub proof fn lemma_phoenix_legacy_data_len(in_amount: u64, minimum_out_amount: u64, d: PhoenixLegacySwapData)
    ensures
        phoenix_legacy_data(in_amount, minimum_out_amount, d).len() == 53
            + borsh_opt_u64(d.price_in_ticks).len() + borsh_opt_u64(d.match_limit).len()
            + borsh_opt_u64(d.last_valid_slot).len() + borsh_opt_u64(d.last_valid_unix_timestamp_in_seconds).len(),
        phoenix_legacy_data(in_amount, minimum_out_amount, d).len() <= MAX_DATA_LEN,
{
    vstd::bytes::lemma_auto_spec_u64_to_from_le_bytes();
}

/// The client order id sent in two halves is the one the swap data holds.
pub proof fn lemma_phoenix_client_order_id_halves(client_order_id: u128)
    ensures
        (client_order_id >> 64u128) as u64 as int * 0x1_0000_0000_0000_0000 + client_order_id as u64 as int == client_order_id,
{
    assert((client_order_id >> 64u128) as u64 as int * 0x1_0000_0000_0000_0000 + client_order_id as u64 as int == client_order_id) by (bit_vector);
}

} // verus!
