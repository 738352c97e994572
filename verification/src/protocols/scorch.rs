use vstd::prelude::*;
use vstd::bytes::spec_u64_to_le_bytes;
use solana_account_view::AccountView;
use solana_instruction_view::cpi::Signer;
use crate::bytes::{push_bytes, push_u64_le};
use crate::cpi::{
    CpiAccount, CpiInstruction, CpiProgram, infos_of, instruction, readonly, readonly_meta,
    writable, writable_meta, writable_signer, writable_signer_meta,
};
use crate::error::SwapError;
use crate::runtime::{invoke, invoked_with};

verus! {

pub const SCORCH_PROGRAM_ID: [u8; 32] = [6, 116, 220, 237, 191, 135, 164, 147, 161, 64, 124, 253, 156, 147, 189, 9, 74, 95, 139, 180, 252, 12, 158, 60, 214, 52, 190, 181, 5, 131, 195, 93];

pub const SWAP_DISCRIMINATOR: u8 = 2;

pub struct Scorch;

/// Seventeen bytes handed on to the Scorch program as they are.
#[derive(Clone, Copy, Debug, PartialEq, Eq)]
pub struct ScorchSwapData(pub [u8; 17]);

impl ScorchSwapData {
    pub const DATA_LEN: usize = 17;

    /// The first seventeen bytes of `data`.
    pub fn try_from(data: &[u8]) -> (r: Result<Self, SwapError>)
        ensures
            data@.len() < Self::DATA_LEN ==> r == Err::<Self, SwapError>(SwapError::InvalidInstructionData),
            data@.len() >= Self::DATA_LEN ==> (r matches Ok(d) && d.0@ == data@.subrange(0, 17)),
    {
        if data.len() < Self::DATA_LEN {
            return Err(SwapError::InvalidInstructionData);
        }
        let out = [
            data[0], data[1], data[2], data[3], data[4], data[5], data[6], data[7], data[8],
            data[9], data[10], data[11], data[12], data[13], data[14], data[15], data[16],
        ];
        assert(out@ =~= data@.subrange(0, 17));
        Ok(ScorchSwapData(out))
    }
}

pub struct ScorchSwapAccounts<'info, A> {
    pub scorch_program: &'info A,
    pub market: &'info A,
    pub payer: &'info A,
    pub user_ata_a: &'info A,
    pub user_ata_b: &'info A,
    pub market_ta_a: &'info A,
    pub market_ta_b: &'info A,
    pub mint_a: &'info A,
    pub mint_b: &'info A,
    pub token_program_a: &'info A,
    pub token_program_b: &'info A,
    pub memo_program: &'info A,
    pub oracle_program: &'info A,
    pub acc1: &'info A,
    pub state_a: &'info A,
    pub state_b: &'info A,
    pub state_c: &'info A,
    pub sysvar_instructions: &'info A,
}

/// `c` holds the accounts of `s` in the order of its fields.
pub open spec fn scorch_accounts_laid_out<'info, A>(c: ScorchSwapAccounts<'info, A>, s: Seq<A>) -> bool {
    &&& *c.scorch_program == s[0]
    &&& *c.market == s[1]
    &&& *c.payer == s[2]
    &&& *c.user_ata_a == s[3]
    &&& *c.user_ata_b == s[4]
    &&& *c.market_ta_a == s[5]
    &&& *c.market_ta_b == s[6]
    &&& *c.mint_a == s[7]
    &&& *c.mint_b == s[8]
    &&& *c.token_program_a == s[9]
    &&& *c.token_program_b == s[10]
    &&& *c.memo_program == s[11]
    &&& *c.oracle_program == s[12]
    &&& *c.acc1 == s[13]
    &&& *c.state_a == s[14]
    &&& *c.state_b == s[15]
    &&& *c.state_c == s[16]
    &&& *c.sysvar_instructions == s[17]
}

impl<'info, A> ScorchSwapAccounts<'info, A> {
    pub const NUM_ACCOUNTS: usize = 18;

    pub fn try_from(accounts: &'info [A]) -> (r: Result<Self, SwapError>)
        ensures
            accounts@.len() != 18 ==> r == Err::<Self, SwapError>(SwapError::NotEnoughAccountKeys),
            accounts@.len() == 18 ==> (r matches Ok(c) && scorch_accounts_laid_out(c, accounts@)),
    {
        if accounts.len() != 18 {
            return Err(SwapError::NotEnoughAccountKeys);
        }
        Ok(ScorchSwapAccounts {
            scorch_program: &accounts[0],
            market: &accounts[1],
            payer: &accounts[2],
            user_ata_a: &accounts[3],
            user_ata_b: &accounts[4],
            market_ta_a: &accounts[5],
            market_ta_b: &accounts[6],
            mint_a: &accounts[7],
            mint_b: &accounts[8],
            token_program_a: &accounts[9],
            token_program_b: &accounts[10],
            memo_program: &accounts[11],
            oracle_program: &accounts[12],
            acc1: &accounts[13],
            state_a: &accounts[14],
            state_b: &accounts[15],
            state_c: &accounts[16],
            sysvar_instructions: &accounts[17],
        })
    }
}

/// The seventeen accounts of a Scorch swap; the program account is not passed on.
pub open spec fn scorch_metas<'info, A>(ctx: ScorchSwapAccounts<'info, A>) -> Seq<CpiAccount<'info, A>> {
    seq![
        writable_meta(ctx.market),
        writable_signer_meta(ctx.payer),
        writable_meta(ctx.user_ata_a),
        writable_meta(ctx.user_ata_b),
        writable_meta(ctx.market_ta_a),
        writable_meta(ctx.market_ta_b),
        readonly_meta(ctx.mint_a),
        readonly_meta(ctx.mint_b),
        readonly_meta(ctx.token_program_a),
        readonly_meta(ctx.token_program_b),
        readonly_meta(ctx.memo_program),
        readonly_meta(ctx.oracle_program),
        readonly_meta(ctx.acc1),
        writable_meta(ctx.state_a),
        writable_meta(ctx.state_b),
        writable_meta(ctx.state_c),
        readonly_meta(ctx.sysvar_instructions),
    ]
}

/// Discriminator, the seventeen opaque data bytes, then the two amounts, little-endian.
pub open spec fn scorch_data(in_amount: u64, minimum_out_amount: u64, data: ScorchSwapData) -> Seq<u8> {
    seq![SWAP_DISCRIMINATOR] + data.0@ + spec_u64_to_le_bytes(in_amount) + spec_u64_to_le_bytes(minimum_out_amount)
}

impl Scorch {
    /// The Scorch swap instruction.
    pub fn instruction<'info, A>(ctx: &ScorchSwapAccounts<'info, A>, in_amount: u64, minimum_out_amount: u64, data: &ScorchSwapData) -> (ix: CpiInstruction<'info, A>)
        ensures
            ix.program == CpiProgram::<'info, A>::Id(SCORCH_PROGRAM_ID),
            ix.accounts@ == scorch_metas(*ctx),
            ix.account_infos@ == infos_of(ix.accounts@),
            ix.data@ == scorch_data(in_amount, minimum_out_amount, *data),
    {
        let mut accounts: Vec<CpiAccount<'info, A>> = Vec::new();
        accounts.push(writable(ctx.market));
        accounts.push(writable_signer(ctx.payer));
        accounts.push(writable(ctx.user_ata_a));
        accounts.push(writable(ctx.user_ata_b));
        accounts.push(writable(ctx.market_ta_a));
        accounts.push(writable(ctx.market_ta_b));
        accounts.push(readonly(ctx.mint_a));
        accounts.push(readonly(ctx.mint_b));
        accounts.push(readonly(ctx.token_program_a));
        accounts.push(readonly(ctx.token_program_b));
        accounts.push(readonly(ctx.memo_program));
        accounts.push(readonly(ctx.oracle_program));
        accounts.push(readonly(ctx.acc1));
        accounts.push(writable(ctx.state_a));
        accounts.push(writable(ctx.state_b));
        accounts.push(writable(ctx.state_c));
        accounts.push(readonly(ctx.sysvar_instructions));
        let mut bytes: Vec<u8> = Vec::new();
        bytes.push(SWAP_DISCRIMINATOR);
        push_bytes(&mut bytes, &data.0);
        push_u64_le(&mut bytes, in_amount);
        push_u64_le(&mut bytes, minimum_out_amount);
        let ix = instruction(CpiProgram::Id(SCORCH_PROGRAM_ID), accounts, bytes);
        assert(ix.accounts@ =~= scorch_metas(*ctx));
        assert(ix.data@ =~= scorch_data(in_amount, minimum_out_amount, *data));
        ix
    }

    /// Builds the swap instruction and invokes it with the given signer seeds.
    pub fn swap_signed(ctx: &ScorchSwapAccounts<'_, AccountView>, in_amount: u64, minimum_out_amount: u64, data: &ScorchSwapData, signer_seeds: &[Signer]) -> (r: Result<(), SwapError>)
        ensures
            r matches Err(e) ==> e is Runtime,
            invoked_with(
                    CpiProgram::Id(SCORCH_PROGRAM_ID),
                    scorch_metas(*ctx),
                    infos_of(scorch_metas(*ctx)),
                    scorch_data(in_amount, minimum_out_amount, *data),
                    signer_seeds,
                    r,
                ),
    {
        let ix = Self::instruction(ctx, in_amount, minimum_out_amount, data);
        invoke(&ix, signer_seeds)
    }

    /// `swap_signed` without signer seeds.
    pub fn swap(ctx: &ScorchSwapAccounts<'_, AccountView>, in_amount: u64, minimum_out_amount: u64, data: &ScorchSwapData) -> (r: Result<(), SwapError>)
        ensures
            r matches Err(e) ==> e is Runtime,
            invoked_with(
                    CpiProgram::Id(SCORCH_PROGRAM_ID),
                    scorch_metas(*ctx),
                    infos_of(scorch_metas(*ctx)),
                    scorch_data(in_amount, minimum_out_amount, *data),
                    &[],
                    r,
                ),
    {
        Self::swap_signed(ctx, in_amount, minimum_out_amount, data, &[])
    }
}

} // verus!
