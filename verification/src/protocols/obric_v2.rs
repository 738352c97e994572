use vstd::prelude::*;
use vstd::bytes::spec_u64_to_le_bytes;
use solana_account_view::AccountView;
use solana_instruction_view::cpi::Signer;
use crate::bytes::{push_bytes, push_u64_le};
use crate::cpi::{
    CpiAccount, CpiInstruction, CpiProgram, infos_of, instruction, readonly, readonly_meta,
    writable, writable_meta, writable_signer, writable_signer_meta,
};
use crate::error::SwapError;
use crate::runtime::{invoke, invoked_with};

verus! {

pub const OBRIC_V2_PROGRAM_ID: [u8; 32] = [11, 240, 33, 91, 170, 159, 148, 24, 247, 111, 15, 60, 221, 210, 13, 72, 178, 63, 199, 181, 10, 107, 134, 153, 153, 75, 211, 55, 106, 94, 15, 12];

pub const SWAP2_DISCRIMINATOR: [u8; 8] = [65, 75, 63, 76, 235, 91, 91, 136];

pub struct ObricV2;

#[derive(Clone, Copy, Debug, PartialEq, Eq)]
pub struct ObricV2SwapData {
    pub x_to_y: u8,
}

impl ObricV2SwapData {
    pub const DATA_LEN: usize = 1;

    /// The direction byte is the first byte, handed on as it is.
    pub fn try_from(data: &[u8]) -> (r: Result<Self, SwapError>)
        ensures
            data@.len() < Self::DATA_LEN ==> r == Err::<Self, SwapError>(SwapError::InvalidInstructionData),
            data@.len() >= Self::DATA_LEN ==> (r matches Ok(d) && d.x_to_y == data@[0]),
    {
        if data.len() < Self::DATA_LEN {
            return Err(SwapError::InvalidInstructionData);
        }
        Ok(ObricV2SwapData { x_to_y: data[0] })
    }
}

pub struct ObricV2SwapAccounts<'info, A> {
    pub obric_v2_program: &'info A,
    pub market: &'info A,
    pub second_ref_oracle: &'info A,
    pub third_ref_oracle: &'info A,
    pub reserve_x: &'info A,
    pub reserve_y: &'info A,
    pub user_ta_x: &'info A,
    pub user_ta_y: &'info A,
    pub ref_oracle: &'info A,
    pub x_price_feed: &'info A,
    pub y_price_feed: &'info A,
    pub user: &'info A,
    pub token_program: &'info A,
}

/// `c` holds the accounts of `s` in the order of its fields.
pub open spec fn obric_v2_accounts_laid_out<'info, A>(c: ObricV2SwapAccounts<'info, A>, s: Seq<A>) -> bool {
    &&& *c.obric_v2_program == s[0]
    &&& *c.market == s[1]
    &&& *c.second_ref_oracle == s[2]
    &&& *c.third_ref_oracle == s[3]
    &&& *c.reserve_x == s[4]
    &&& *c.reserve_y == s[5]
    &&& *c.user_ta_x == s[6]
    &&& *c.user_ta_y == s[7]
    &&& *c.ref_oracle == s[8]
    &&& *c.x_price_feed == s[9]
    &&& *c.y_price_feed == s[10]
    &&& *c.user == s[11]
    &&& *c.token_program == s[12]
}

impl<'info, A> ObricV2SwapAccounts<'info, A> {
    pub const NUM_ACCOUNTS: usize = 13;

    pub fn try_from(accounts: &'info [A]) -> (r: Result<Self, SwapError>)
        ensures
            accounts@.len() < 13 ==> r == Err::<Self, SwapError>(SwapError::NotEnoughAccountKeys),
            accounts@.len() >= 13 ==> (r matches Ok(c) && obric_v2_accounts_laid_out(c, accounts@)),
    {
        if accounts.len() < 13 {
            return Err(SwapError::NotEnoughAccountKeys);
        }
        Ok(ObricV2SwapAccounts {
            obric_v2_program: &accounts[0],
            market: &accounts[1],
            second_ref_oracle: &accounts[2],
            third_ref_oracle: &accounts[3],
            reserve_x: &accounts[4],
            reserve_y: &accounts[5],
            user_ta_x: &accounts[6],
            user_ta_y: &accounts[7],
            ref_oracle: &accounts[8],
            x_price_feed: &accounts[9],
            y_price_feed: &accounts[10],
            user: &accounts[11],
            token_program: &accounts[12],
        })
    }
}

/// The twelve accounts of an Obric v2 `swap2`; the program account is not passed on.
pub open spec fn obric_v2_metas<'info, A>(ctx: ObricV2SwapAccounts<'info, A>) -> Seq<CpiAccount<'info, A>> {
    seq![
        writable_meta(ctx.market),
        readonly_meta(ctx.second_ref_oracle),
        readonly_meta(ctx.third_ref_oracle),
        writable_meta(ctx.reserve_x),
        writable_meta(ctx.reserve_y),
        writable_meta(ctx.user_ta_x),
        writable_meta(ctx.user_ta_y),
        writable_meta(ctx.ref_oracle),
        readonly_meta(ctx.x_price_feed),
        readonly_meta(ctx.y_price_feed),
        writable_signer_meta(ctx.user),
        readonly_meta(ctx.token_program),
    ]
}

/// Discriminator, the direction byte, then the two amounts, little-endian.
pub open spec fn obric_v2_data(in_amount: u64, minimum_out_amount: u64, data: ObricV2SwapData) -> Seq<u8> {
    SWAP2_DISCRIMINATOR@ + seq![data.x_to_y] + spec_u64_to_le_bytes(in_amount) + spec_u64_to_le_bytes(minimum_out_amount)
}

impl ObricV2 {
    /// The Obric v2 `swap2` instruction.
    pub fn instruction<'info, A>(ctx: &ObricV2SwapAccounts<'info, A>, in_amount: u64, minimum_out_amount: u64, data: &ObricV2SwapData) -> (ix: CpiInstruction<'info, A>)
        ensures
            ix.program == CpiProgram::<'info, A>::Id(OBRIC_V2_PROGRAM_ID),
            ix.accounts@ == obric_v2_metas(*ctx),
            ix.account_infos@ == infos_of(ix.accounts@),
            ix.data@ == obric_v2_data(in_amount, minimum_out_amount, *data),
    {
        let mut accounts: Vec<CpiAccount<'info, A>> = Vec::new();
        accounts.push(writable(ctx.market));
        accounts.push(readonly(ctx.second_ref_oracle));
        accounts.push(readonly(ctx.third_ref_oracle));
        accounts.push(writable(ctx.reserve_x));
        accounts.push(writable(ctx.reserve_y));
        accounts.push(writable(ctx.user_ta_x));
        accounts.push(writable(ctx.user_ta_y));
        accounts.push(writable(ctx.ref_oracle));
        accounts.push(readonly(ctx.x_price_feed));
        accounts.push(readonly(ctx.y_price_feed));
        accounts.push(writable_signer(ctx.user));
        accounts.push(readonly(ctx.token_program));
        let mut bytes: Vec<u8> = Vec::new();
        push_bytes(&mut bytes, &SWAP2_DISCRIMINATOR);
        bytes.push(data.x_to_y);
        push_u64_le(&mut bytes, in_amount);
        push_u64_le(&mut bytes, minimum_out_amount);
        let ix = instruction(CpiProgram::Id(OBRIC_V2_PROGRAM_ID), accounts, bytes);
        assert(ix.accounts@ =~= obric_v2_metas(*ctx));
        assert(ix.data@ =~= obric_v2_data(in_amount, minimum_out_amount, *data));
        ix
    }

    /// Builds the swap instruction and invokes it with the given signer seeds.
    pub fn swap_signed(ctx: &ObricV2SwapAccounts<'_, AccountView>, in_amount: u64, minimum_out_amount: u64, data: &ObricV2SwapData, signer_seeds: &[Signer]) -> (r: Result<(), SwapError>)
        ensures
            r matches Err(e) ==> e is Runtime,
            invoked_with(
                    CpiProgram::Id(OBRIC_V2_PROGRAM_ID),
                    obric_v2_metas(*ctx),
                    infos_of(obric_v2_metas(*ctx)),
                    obric_v2_data(in_amount, minimum_out_amount, *data),
                    signer_seeds,
                    r,
                ),
    {
        let ix = Self::instruction(ctx, in_amount, minimum_out_amount, data);
        invoke(&ix, signer_seeds)
    }

    /// `swap_signed` without signer seeds.
    pub fn swap(ctx: &ObricV2SwapAccounts<'_, AccountView>, in_amount: u64, minimum_out_amount: u64, data: &ObricV2SwapData) -> (r: Result<(), SwapError>)
        ensures
            r matches Err(e) ==> e is Runtime,
            invoked_with(
                    CpiProgram::Id(OBRIC_V2_PROGRAM_ID),
                    obric_v2_metas(*ctx),
                    infos_of(obric_v2_metas(*ctx)),
                    obric_v2_data(in_amount, minimum_out_amount, *data),
                    &[],
                    r,
                ),
    {
        Self::swap_signed(ctx, in_amount, minimum_out_amount, data, &[])
    }
}

} // verus!
