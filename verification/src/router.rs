//! The instruction formats of the routing program and the decisions it takes
//! between the legs of a route.
use vstd::prelude::*;
use vstd::bytes::{spec_u16_from_le_bytes, spec_u64_from_le_bytes, u16_from_le_bytes};
use solana_account_view::AccountView;
use crate::bytes::{bytes32_eq, read_u64_le};
use crate::error::SwapError;
use crate::runtime::{data_read, read_data};

verus! {

/// Bytes of a swap leg header: protocol tag, remaining accounts, and the
/// length of the extra data (two bytes, little-endian).
pub const SWAP_LEG_HEADER_LEN: usize = 4;

/// Where an SPL token account keeps its amount.
pub const TOKEN_ACCOUNT_AMOUNT_OFFSET: usize = 64;
pub const TOKEN_ACCOUNT_AMOUNT_END: usize = 72;

/// The little-endian `u64` at `off`.
pub open spec fn le_u64_at(data: Seq<u8>, off: int) -> u64 {
    spec_u64_from_le_bytes(data.subrange(off, off + 8))
}

/// What the program is asked to do.
#[derive(Clone, Copy, Debug, PartialEq, Eq, Structural)]
pub enum ProgramInstruction {
    Deposit,
    Swap,
}

/// The instruction named by the first byte (zero a deposit, one a swap), and
/// the bytes after it.
pub fn parse_program_instruction(instruction_data: &[u8]) -> (r: Result<(ProgramInstruction, &[u8]), SwapError>)
    ensures
        instruction_data@.len() == 0 || instruction_data@[0] > 1
            ==> r == Err::<(ProgramInstruction, &[u8]), SwapError>(SwapError::InvalidInstructionData),
        instruction_data@.len() > 0 && instruction_data@[0] <= 1 ==> (r matches Ok((kind, rest)) && {
            &&& kind == (if instruction_data@[0] == 0 { ProgramInstruction::Deposit } else { ProgramInstruction::Swap })
            &&& rest@ == instruction_data@.subrange(1, instruction_data@.len() as int)
        }),
{
    if instruction_data.len() == 0 {
        return Err(SwapError::InvalidInstructionData);
    }
    let rest = &instruction_data[1..instruction_data.len()];
    if instruction_data[0] == 0 {
        Ok((ProgramInstruction::Deposit, rest))
    } else if instruction_data[0] == 1 {
        Ok((ProgramInstruction::Swap, rest))
    } else {
        Err(SwapError::InvalidInstructionData)
    }
}

/// A deposit's data: the amount.
#[derive(Clone, Copy, Debug, PartialEq, Eq, Structural)]
pub struct DepositInstructionData {
    pub amount: u64,
}

impl DepositInstructionData {
    /// The amount is the first eight bytes, little-endian.
    pub fn try_from(data: &[u8]) -> (r: Result<Self, SwapError>)
        ensures
            data@.len() < 8 ==> r == Err::<Self, SwapError>(SwapError::InvalidInstructionData),
            data@.len() >= 8 ==> r == Ok::<Self, SwapError>(DepositInstructionData { amount: le_u64_at(data@, 0) }),
    {
        if data.len() < 8 {
            return Err(SwapError::InvalidInstructionData);
        }
        Ok(DepositInstructionData { amount: read_u64_le(data, 0) })
    }
}

/// A swap's data: the two amounts, then the swap leg.
pub struct SwapInstructionData<'a> {
    pub in_amount: u64,
    pub minimum_out_amount: u64,
    pub extra_data: &'a [u8],
}

impl<'a> SwapInstructionData<'a> {
    /// The in amount and the minimum out amount (eight bytes each,
    /// little-endian), then the rest.
    pub fn try_from(data: &'a [u8]) -> (r: Result<Self, SwapError>)
        ensures
            data@.len() < 16 ==> r == Err::<Self, SwapError>(SwapError::InvalidInstructionData),
            data@.len() >= 16 ==> (r matches Ok(d) && {
                &&& d.in_amount == le_u64_at(data@, 0)
                &&& d.minimum_out_amount == le_u64_at(data@, 8)
                &&& d.extra_data@ == data@.subrange(16, data@.len() as int)
            }),
    {
        if data.len() < 16 {
            return Err(SwapError::InvalidInstructionData);
        }
        Ok(SwapInstructionData {
            in_amount: read_u64_le(data, 0),
            minimum_out_amount: read_u64_le(data, 8),
            extra_data: &data[16..data.len()],
        })
    }
}

/// A parameterised swap's data: the two amounts, then the protocol's extra data.
pub struct SwapWithParametersInstructionData<'a> {
    pub in_amount: u64,
    pub minimum_out_amount: u64,
    pub extra_data: &'a [u8],
}

impl<'a> SwapWithParametersInstructionData<'a> {
    /// The in amount and the minimum out amount (eight bytes each,
    /// little-endian), then the rest.
    pub fn try_from(data: &'a [u8]) -> (r: Result<Self, SwapError>)
        ensures
            data@.len() < 16 ==> r == Err::<Self, SwapError>(SwapError::InvalidInstructionData),
            data@.len() >= 16 ==> (r matches Ok(d) && {
                &&& d.in_amount == le_u64_at(data@, 0)
                &&& d.minimum_out_amount == le_u64_at(data@, 8)
                &&& d.extra_data@ == data@.subrange(16, data@.len() as int)
            }),
    {
        if data.len() < 16 {
            return Err(SwapError::InvalidInstructionData);
        }
        Ok(SwapWithParametersInstructionData {
            in_amount: read_u64_le(data, 0),
            minimum_out_amount: read_u64_le(data, 8),
            extra_data: &data[16..data.len()],
        })
    }
}

/// A route's data: the first in amount, the least final out amount, the
/// number of legs, then the legs.
pub struct RouteInstructionData<'a> {
    pub initial_in_amount: u64,
    pub minimum_final_out_amount: u64,
    pub num_legs: usize,
    pub extra_data: &'a [u8],
}

impl<'a> RouteInstructionData<'a> {
    /// The two amounts (eight bytes each, little-endian), the number of legs
    /// (one byte), then the legs.
    pub fn try_from(data: &'a [u8]) -> (r: Result<Self, SwapError>)
        ensures
            data@.len() < 17 ==> r == Err::<Self, SwapError>(SwapError::InvalidInstructionData),
            data@.len() >= 17 ==> (r matches Ok(d) && {
                &&& d.initial_in_amount == le_u64_at(data@, 0)
                &&& d.minimum_final_out_amount == le_u64_at(data@, 8)
                &&& d.num_legs == data@[16]
                &&& d.extra_data@ == data@.subrange(17, data@.len() as int)
            }),
    {
        if data.len() < 17 {
            return Err(SwapError::InvalidInstructionData);
        }
        Ok(RouteInstructionData {
            initial_in_amount: read_u64_le(data, 0),
            minimum_final_out_amount: read_u64_le(data, 8),
            num_legs: data[16] as usize,
            extra_data: &data[17..data.len()],
        })
    }
}

/// The header of a swap leg. The protocol tag is the raw byte; which protocol
/// it names is decided by the dispatcher that takes the leg.
#[derive(Clone, Copy, Debug, PartialEq, Eq, Structural)]
pub struct SwapLegHeader {
    pub protocol_tag: u8,
    pub remaining_accounts_len: usize,
    pub extra_data_len: usize,
}

/// The first `count` bytes and the rest; an error where there are fewer.
pub fn split_data_checked(data: &[u8], count: usize) -> (r: Result<(&[u8], &[u8]), SwapError>)
    ensures
        count > data@.len() ==> r == Err::<(&[u8], &[u8]), SwapError>(SwapError::InvalidInstructionData),
        count <= data@.len() ==> (r matches Ok((head, tail)) && {
            &&& head@ == data@.subrange(0, count as int)
            &&& tail@ == data@.subrange(count as int, data@.len() as int)
            &&& head@ + tail@ == data@
        }),
{
    if count > data.len() {
        return Err(SwapError::InvalidInstructionData);
    }
    let head = &data[0..count];
    let tail = &data[count..data.len()];
    assert(head@ + tail@ =~= data@);
    Ok((head, tail))
}

/// The header at the start of a leg: tag byte, remaining-accounts count byte,
/// extra-data length (two bytes, little-endian); and the bytes after it.
pub fn parse_swap_leg_header(data: &[u8]) -> (r: Result<(SwapLegHeader, &[u8]), SwapError>)
    ensures
        data@.len() < SWAP_LEG_HEADER_LEN ==> r == Err::<(SwapLegHeader, &[u8]), SwapError>(SwapError::InvalidInstructionData),
        data@.len() >= SWAP_LEG_HEADER_LEN ==> (r matches Ok((header, rest)) && {
            &&& header.protocol_tag == data@[0]
            &&& header.remaining_accounts_len == data@[1]
            &&& header.extra_data_len == spec_u16_from_le_bytes(data@.subrange(2, 4))
            &&& rest@ == data@.subrange(4, data@.len() as int)
        }),
{
    let (header_bytes, remaining_data) = split_data_checked(data, SWAP_LEG_HEADER_LEN)?;
    let extra_data_len = u16_from_le_bytes(&header_bytes[2..4]);
    assert(header_bytes@.subrange(2, 4) =~= data@.subrange(2, 4));
    Ok((
        SwapLegHeader {
            protocol_tag: header_bytes[0],
            remaining_accounts_len: header_bytes[1] as usize,
            extra_data_len: extra_data_len as usize,
        },
        remaining_data,
    ))
}

/// A leg's header, its extra data (as long as the header says) and the bytes
/// of the legs after it.
pub fn parse_swap_leg(data: &[u8]) -> (r: Result<(SwapLegHeader, &[u8], &[u8]), SwapError>)
    ensures
        r is Err <==> (data@.len() < SWAP_LEG_HEADER_LEN
            || data@.len() < SWAP_LEG_HEADER_LEN + spec_u16_from_le_bytes(data@.subrange(2, 4))),
        r matches Err(e) ==> e == SwapError::InvalidInstructionData,
        r matches Ok((header, extra, rest)) ==> {
            let end = SWAP_LEG_HEADER_LEN + header.extra_data_len;
            &&& header.protocol_tag == data@[0]
            &&& header.remaining_accounts_len == data@[1]
            &&& header.extra_data_len == spec_u16_from_le_bytes(data@.subrange(2, 4))
            &&& extra@ == data@.subrange(4, end)
            &&& rest@ == data@.subrange(end, data@.len() as int)
        },
{
    let (header, data_after) = parse_swap_leg_header(data)?;
    let (extra, rest) = split_data_checked(data_after, header.extra_data_len)?;
    assert(extra@ =~= data@.subrange(4, 4 + header.extra_data_len));
    assert(rest@ =~= data@.subrange(4 + header.extra_data_len, data@.len() as int));
    Ok((header, extra, rest))
}

/// A swap instruction carries exactly one leg: once the leg has taken its
/// accounts and its bytes, nothing may be left of either.
pub fn check_single_leg_exhausted<A>(remaining_accounts: &[A], remaining_data: &[u8]) -> (r: Result<(), SwapError>)
    ensures
        r == (if remaining_accounts@.len() == 0 && remaining_data@.len() == 0 {
            Ok::<(), SwapError>(())
        } else {
            Err::<(), SwapError>(SwapError::InvalidInstructionData)
        }),
{
    if remaining_accounts.len() != 0 || remaining_data.len() != 0 {
        return Err(SwapError::InvalidInstructionData);
    }
    Ok(())
}

/// The amount an SPL token account's data holds; an error where the data is
/// too short.
pub fn token_account_amount_of(data: &[u8]) -> (r: Result<u64, SwapError>)
    ensures
        data@.len() < TOKEN_ACCOUNT_AMOUNT_END ==> r == Err::<u64, SwapError>(SwapError::InvalidAccountData),
        data@.len() >= TOKEN_ACCOUNT_AMOUNT_END ==> r == Ok::<u64, SwapError>(le_u64_at(data@, TOKEN_ACCOUNT_AMOUNT_OFFSET as int)),
{
    if data.len() < TOKEN_ACCOUNT_AMOUNT_END {
        return Err(SwapError::InvalidAccountData);
    }
    Ok(read_u64_le(data, TOKEN_ACCOUNT_AMOUNT_OFFSET))
}

/// The amount a token account holds; an error where its data cannot be read
/// or is too short.
pub fn read_token_account_amount(account: &AccountView) -> (r: Result<u64, SwapError>)
    ensures
        r matches Err(e) ==> e == SwapError::InvalidAccountData,
        r matches Ok(amount) ==> exists|data: Vec<u8>| #[trigger] data_read(account, Some(data))
            && data@.len() >= TOKEN_ACCOUNT_AMOUNT_END && amount == le_u64_at(data@, TOKEN_ACCOUNT_AMOUNT_OFFSET as int),
        r is Err ==> exists|data: Option<Vec<u8>>| #[trigger] data_read(account, data)
            && (data matches Some(d) ==> d@.len() < TOKEN_ACCOUNT_AMOUNT_END),
{
    let read = read_data(account);
    proof {
        assert(data_read(account, read));
    }
    match read {
        Some(data) => token_account_amount_of(data.as_slice()),
        None => Err(SwapError::InvalidAccountData),
    }
}

/// Where a route stands between two legs.
#[derive(Clone, Copy)]
pub struct RouteState {
    /// Legs done so far.
    pub leg_index: usize,
    pub num_legs: usize,
    /// The in amount of the next leg: what the previous leg paid out.
    pub carried_in_amount: u64,
    pub minimum_final_out_amount: u64,
    /// The address of the account the previous leg paid into.
    pub previous_output: Option<[u8; 32]>,
}

/// The amounts of the next leg of `s`, which pays from `input_address`; an
/// error where it does not pay from the account the previous leg paid into.
pub open spec fn route_begin(s: RouteState, input_address: Seq<u8>) -> Result<RouteLeg, SwapError> {
    if s.previous_output matches Some(p) && p@ != input_address {
        Err(SwapError::InvalidAccountData)
    } else {
        Ok(RouteLeg {
            in_amount: s.carried_in_amount,
            minimum_out_amount: if s.leg_index + 1 == s.num_legs { s.minimum_final_out_amount } else { 0 },
        })
    }
}

/// `s` after a leg that paid into `output_address` and took its amount from
/// `output_before` to `output_after`; an error where the amount went down.
pub open spec fn route_finish(s: RouteState, output_address: [u8; 32], output_before: u64, output_after: u64) -> Result<RouteState, SwapError> {
    if output_after < output_before {
        Err(SwapError::InvalidAccountData)
    } else {
        Ok(RouteState {
            leg_index: (s.leg_index + 1) as usize,
            num_legs: s.num_legs,
            carried_in_amount: (output_after - output_before) as u64,
            minimum_final_out_amount: s.minimum_final_out_amount,
            previous_output: Some(output_address),
        })
    }
}

/// What a leg is to be run with.
#[derive(Clone, Copy, Debug, PartialEq, Eq, Structural)]
pub struct RouteLeg {
    pub in_amount: u64,
    pub minimum_out_amount: u64,
}

impl RouteState {
    pub open spec fn wf(&self) -> bool {
        self.leg_index <= self.num_legs
    }

    /// A route before its first leg; an error for a route of no legs.
    pub fn start(data: &RouteInstructionData) -> (r: Result<RouteState, SwapError>)
        ensures
            data.num_legs == 0 ==> r == Err::<RouteState, SwapError>(SwapError::InvalidInstructionData),
            data.num_legs > 0 ==> (r matches Ok(s) && {
                &&& s.wf()
                &&& s.leg_index == 0
                &&& s.num_legs == data.num_legs
                &&& s.carried_in_amount == data.initial_in_amount
                &&& s.minimum_final_out_amount == data.minimum_final_out_amount
                &&& s.previous_output is None
            }),
    {
        if data.num_legs == 0 {
            return Err(SwapError::InvalidInstructionData);
        }
        Ok(RouteState {
            leg_index: 0,
            num_legs: data.num_legs,
            carried_in_amount: data.initial_in_amount,
            minimum_final_out_amount: data.minimum_final_out_amount,
            previous_output: None,
        })
    }

    /// Whether every leg is done.
    pub fn is_done(&self) -> (r: bool)
        ensures
            r == (self.leg_index >= self.num_legs),
    {
        self.leg_index >= self.num_legs
    }

    /// The amounts of the next leg, which pays from `input_address`: the
    /// carried amount in, and the least final out amount on the last leg only
    /// (zero before). An error where the leg does not pay from the account
    /// the previous leg paid into.
    pub fn begin_leg(&self, input_address: &[u8; 32]) -> (r: Result<RouteLeg, SwapError>)
        requires
            self.wf(),
            self.leg_index < self.num_legs,
        ensures
            r == route_begin(*self, input_address@),
            (self.previous_output matches Some(p) && p@ != input_address@)
                ==> r == Err::<RouteLeg, SwapError>(SwapError::InvalidAccountData),
            !(self.previous_output matches Some(p) && p@ != input_address@) ==> r == Ok::<RouteLeg, SwapError>(RouteLeg {
                in_amount: self.carried_in_amount,
                minimum_out_amount: if self.leg_index + 1 == self.num_legs { self.minimum_final_out_amount } else { 0 },
            }),
    {
        match &self.previous_output {
            Some(previous) => {
                if !bytes32_eq(previous, input_address) {
                    return Err(SwapError::InvalidAccountData);
                }
            },
            None => {},
        }
        let minimum_out_amount = if self.leg_index + 1 == self.num_legs { self.minimum_final_out_amount } else { 0 };
        Ok(RouteLeg { in_amount: self.carried_in_amount, minimum_out_amount })
    }

    /// Records a leg that paid into `output_address`, whose amount went from
    /// `output_before` to `output_after`: the increase is the next in amount.
    /// An error, with the state unchanged, where the amount went down.
    pub fn finish_leg(&mut self, output_address: [u8; 32], output_before: u64, output_after: u64) -> (r: Result<(), SwapError>)
        requires
            old(self).wf(),
            old(self).leg_index < old(self).num_legs,
        ensures
            r is Ok <==> route_finish(*old(self), output_address, output_before, output_after) is Ok,
            route_finish(*old(self), output_address, output_before, output_after) matches Ok(s) ==> *final(self) == s,
            output_after < output_before ==> r == Err::<(), SwapError>(SwapError::InvalidAccountData) && *final(self) == *old(self),
            output_after >= output_before ==> r is Ok && {
                &&& final(self).wf()
                &&& final(self).leg_index == old(self).leg_index + 1
                &&& final(self).num_legs == old(self).num_legs
                &&& final(self).carried_in_amount == output_after - output_before
                &&& final(self).minimum_final_out_amount == old(self).minimum_final_out_amount
                &&& final(self).previous_output == Some(output_address)
            },
    {
        let delta = match output_after.checked_sub(output_before) {
            Some(d) => d,
            None => return Err(SwapError::InvalidAccountData),
        };
        self.carried_in_amount = delta;
        self.previous_output = Some(output_address);
        self.leg_index = self.leg_index + 1;
        Ok(())
    }
}

/// Between two legs of a route the amount is carried over exactly: after a
/// leg that paid `output_after - output_before` into an account, the next leg
/// is run with that amount in, and only if it pays from that same account;
/// and only the last leg is held to the least final out amount.
pub proof fn lemma_route_carries_output(s: RouteState, output_address: [u8; 32], output_before: u64, output_after: u64, input_address: [u8; 32])
    requires
        s.wf(),
        s.leg_index < s.num_legs,
        output_before <= output_after,
    ensures
        route_finish(s, output_address, output_before, output_after) matches Ok(next) && {
            &&& next.leg_index == s.leg_index + 1
            &&& (next.leg_index < next.num_legs ==> {
                &&& (input_address@ == output_address@) == (route_begin(next, input_address@) is Ok)
                &&& route_begin(next, input_address@) matches Ok(leg) ==> {
                    &&& leg.in_amount == output_after - output_before
                    &&& leg.minimum_out_amount == (if next.leg_index + 1 == next.num_legs { s.minimum_final_out_amount } else { 0 })
                }
            })
        },
{
}

} // verus!
