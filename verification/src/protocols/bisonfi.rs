use vstd::prelude::*;
use vstd::bytes::spec_u64_to_le_bytes;
use solana_account_view::AccountView;
use solana_instruction_view::cpi::Signer;
use crate::bytes::push_u64_le;
use crate::cpi::{
    CpiAccount, CpiInstruction, CpiProgram, infos_of, instruction, readonly, readonly_meta,
    writable, writable_meta, writable_signer, writable_signer_meta,
};
use crate::error::SwapError;
use crate::runtime::{invoke, invoked_with};

verus! {

pub const BISONFI_PROGRAM_ID: [u8; 32] = [159, 50, 218, 156, 31, 108, 18, 80, 192, 155, 115, 57, 35, 236, 195, 103, 13, 40, 99, 231, 212, 106, 156, 28, 244, 125, 253, 187, 208, 213, 254, 87];

pub const SWAP2_DISCRIMINATOR: u8 = 7;

pub struct Bisonfi;

#[derive(Clone, Copy, Debug, PartialEq, Eq)]
pub struct BisonfiSwapData {
    pub b_to_a: bool,
    pub exact_out: bool,
}

impl BisonfiSwapData {
    pub const DATA_LEN: usize = 2;

    /// Each flag is set unless its byte is zero.
    pub fn try_from(data: &[u8]) -> (r: Result<Self, SwapError>)
        ensures
            data@.len() < Self::DATA_LEN ==> r == Err::<Self, SwapError>(SwapError::InvalidInstructionData),
            data@.len() >= Self::DATA_LEN ==> (r matches Ok(d) && d.b_to_a == (data@[0] != 0) && d.exact_out == (data@[1] != 0)),
    {
        if data.len() < Self::DATA_LEN {
            return Err(SwapError::InvalidInstructionData);
        }
        Ok(BisonfiSwapData { b_to_a: data[0] != 0, exact_out: data[1] != 0 })
    }
}

pub struct BisonfiSwapAccounts<'info, A> {
    pub bisonfi_program: &'info A,
    pub user: &'info A,
    pub market: &'info A,
    pub market_ta_a: &'info A,
    pub market_ta_b: &'info A,
    pub user_ata_a: &'info A,
    pub user_ata_b: &'info A,
    pub token_prog_a: &'info A,
    pub token_prog_b: &'info A,
    pub logger: &'info A,
}

/// `c` holds the accounts of `s` in the order of its fields.
pub open spec fn bisonfi_accounts_laid_out<'info, A>(c: BisonfiSwapAccounts<'info, A>, s: Seq<A>) -> bool {
    &&& *c.bisonfi_program == s[0]
    &&& *c.user == s[1]
    &&& *c.market == s[2]
    &&& *c.market_ta_a == s[3]
    &&& *c.market_ta_b == s[4]
    &&& *c.user_ata_a == s[5]
    &&& *c.user_ata_b == s[6]
    &&& *c.token_prog_a == s[7]
    &&& *c.token_prog_b == s[8]
    &&& *c.logger == s[9]
}

impl<'info, A> BisonfiSwapAccounts<'info, A> {
    pub const NUM_ACCOUNTS: usize = 10;

    pub fn try_from(accounts: &'info [A]) -> (r: Result<Self, SwapError>)
        ensures
            accounts@.len() != 10 ==> r == Err::<Self, SwapError>(SwapError::NotEnoughAccountKeys),
            accounts@.len() == 10 ==> (r matches Ok(c) && bisonfi_accounts_laid_out(c, accounts@)),
    {
        if accounts.len() != 10 {
            return Err(SwapError::NotEnoughAccountKeys);
        }
        Ok(BisonfiSwapAccounts {
            bisonfi_program: &accounts[0],
            user: &accounts[1],
            market: &accounts[2],
            market_ta_a: &accounts[3],
            market_ta_b: &accounts[4],
            user_ata_a: &accounts[5],
            user_ata_b: &accounts[6],
            token_prog_a: &accounts[7],
            token_prog_b: &accounts[8],
            logger: &accounts[9],
        })
    }
}

/// The nine accounts of a Bisonfi swap; the program account is not passed on.
pub open spec fn bisonfi_metas<'info, A>(ctx: BisonfiSwapAccounts<'info, A>) -> Seq<CpiAccount<'info, A>> {
    seq![
        writable_signer_meta(ctx.user),
        writable_meta(ctx.market),
        writable_meta(ctx.market_ta_a),
        writable_meta(ctx.market_ta_b),
        writable_meta(ctx.user_ata_a),
        writable_meta(ctx.user_ata_b),
        readonly_meta(ctx.token_prog_a),
        readonly_meta(ctx.token_prog_b),
        readonly_meta(ctx.logger),
    ]
}

/// Discriminator, the two amounts little-endian, then direction and exact-out flags.
pub open spec fn bisonfi_data(in_amount: u64, minimum_out_amount: u64, data: BisonfiSwapData) -> Seq<u8> {
    seq![SWAP2_DISCRIMINATOR] + spec_u64_to_le_bytes(in_amount) + spec_u64_to_le_bytes(minimum_out_amount) + seq![if data.b_to_a { 1u8 } else { 0u8 }, if data.exact_out { 1u8 } else { 0u8 }]
}

impl Bisonfi {
    /// The Bisonfi `swap2` instruction.
    pub fn instruction<'info, A>(ctx: &BisonfiSwapAccounts<'info, A>, in_amount: u64, minimum_out_amount: u64, data: &BisonfiSwapData) -> (ix: CpiInstruction<'info, A>)
        ensures
            ix.program == CpiProgram::<'info, A>::Id(BISONFI_PROGRAM_ID),
            ix.accounts@ == bisonfi_metas(*ctx),
            ix.account_infos@ == infos_of(ix.accounts@),
            ix.data@ == bisonfi_data(in_amount, minimum_out_amount, *data),
    {
        let mut accounts: Vec<CpiAccount<'info, A>> = Vec::new();
        accounts.push(writable_signer(ctx.user));
        accounts.push(writable(ctx.market));
        accounts.push(writable(ctx.market_ta_a));
        accounts.push(writable(ctx.market_ta_b));
        accounts.push(writable(ctx.user_ata_a));
        accounts.push(writable(ctx.user_ata_b));
        accounts.push(readonly(ctx.token_prog_a));
        accounts.push(readonly(ctx.token_prog_b));
        accounts.push(readonly(ctx.logger));
        let mut bytes: Vec<u8> = Vec::new();
        bytes.push(SWAP2_DISCRIMINATOR);
        push_u64_le(&mut bytes, in_amount);
        push_u64_le(&mut bytes, minimum_out_amount);
        bytes.push(if data.b_to_a { 1u8 } else { 0u8 });
        bytes.push(if data.exact_out { 1u8 } else { 0u8 });
        let ix = instruction(CpiProgram::Id(BISONFI_PROGRAM_ID), accounts, bytes);
        assert(ix.accounts@ =~= bisonfi_metas(*ctx));
        assert(ix.data@ =~= bisonfi_data(in_amount, minimum_out_amount, *data));
        ix
    }

    /// Builds the swap instruction and invokes it with the given signer seeds.
    pub fn swap_signed(ctx: &BisonfiSwapAccounts<'_, AccountView>, in_amount: u64, minimum_out_amount: u64, data: &BisonfiSwapData, signer_seeds: &[Signer]) -> (r: Result<(), SwapError>)
        ensures
            r matches Err(e) ==> e is Runtime,
            invoked_with(
                    CpiProgram::Id(BISONFI_PROGRAM_ID),
                    bisonfi_metas(*ctx),
                    infos_of(bisonfi_metas(*ctx)),
                    bisonfi_data(in_amount, minimum_out_amount, *data),
                    signer_seeds,
                    r,
                ),
    {
        let ix = Self::instruction(ctx, in_amount, minimum_out_amount, data);
        invoke(&ix, signer_seeds)
    }

    /// `swap_signed` without signer seeds.
    pub fn swap(ctx: &BisonfiSwapAccounts<'_, AccountView>, in_amount: u64, minimum_out_amount: u64, data: &BisonfiSwapData) -> (r: Result<(), SwapError>)
        ensures
            r matches Err(e) ==> e is Runtime,
            invoked_with(
                    CpiProgram::Id(BISONFI_PROGRAM_ID),
                    bisonfi_metas(*ctx),
                    infos_of(bisonfi_metas(*ctx)),
                    bisonfi_data(in_amount, minimum_out_amount, *data),
                    &[],
                    r,
                ),
    {
        Self::swap_signed(ctx, in_amount, minimum_out_amount, data, &[])
    }
}

} // verus!
