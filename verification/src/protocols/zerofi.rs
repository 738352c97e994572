use vstd::prelude::*;
use vstd::bytes::spec_u64_to_le_bytes;
use solana_account_view::AccountView;
use solana_instruction_view::cpi::Signer;
use crate::bytes::push_u64_le;
use crate::cpi::{
    CpiAccount, CpiInstruction, CpiProgram, infos_of, instruction, readonly, readonly_meta,
    writable, writable_meta,
};
use crate::error::SwapError;
use crate::runtime::{invoke, invoked_with};

verus! {

pub const ZEROFI_PROGRAM_ID: [u8; 32] = [8, 65, 196, 198, 238, 55, 111, 23, 202, 75, 3, 26, 148, 248, 184, 42, 106, 178, 174, 145, 174, 25, 224, 140, 116, 54, 106, 121, 117, 145, 8, 151];

pub const SWAP_DISCRIMINATOR: u8 = 6;

pub struct Zerofi;

pub struct ZerofiSwapAccounts<'info, A> {
    pub zerofi_program: &'info A,
    pub market: &'info A,
    pub cfg_in: &'info A,
    pub ta_in: &'info A,
    pub cfg_out: &'info A,
    pub ta_out: &'info A,
    pub usr_ta_in: &'info A,
    pub usr_ta_out: &'info A,
    pub token_program: &'info A,
    pub sysvar_instructions: &'info A,
}

/// `c` holds the accounts of `s` in the order of its fields.
pub open spec fn zerofi_accounts_laid_out<'info, A>(c: ZerofiSwapAccounts<'info, A>, s: Seq<A>) -> bool {
    &&& *c.zerofi_program == s[0]
    &&& *c.market == s[1]
    &&& *c.cfg_in == s[2]
    &&& *c.ta_in == s[3]
    &&& *c.cfg_out == s[4]
    &&& *c.ta_out == s[5]
    &&& *c.usr_ta_in == s[6]
    &&& *c.usr_ta_out == s[7]
    &&& *c.token_program == s[8]
    &&& *c.sysvar_instructions == s[9]
}

impl<'info, A> ZerofiSwapAccounts<'info, A> {
    pub const NUM_ACCOUNTS: usize = 10;

    pub fn try_from(accounts: &'info [A]) -> (r: Result<Self, SwapError>)
        ensures
            accounts@.len() != 10 ==> r == Err::<Self, SwapError>(SwapError::NotEnoughAccountKeys),
            accounts@.len() == 10 ==> (r matches Ok(c) && zerofi_accounts_laid_out(c, accounts@)),
    {
        if accounts.len() != 10 {
            return Err(SwapError::NotEnoughAccountKeys);
        }
        Ok(ZerofiSwapAccounts {
            zerofi_program: &accounts[0],
            market: &accounts[1],
            cfg_in: &accounts[2],
            ta_in: &accounts[3],
            cfg_out: &accounts[4],
            ta_out: &accounts[5],
            usr_ta_in: &accounts[6],
            usr_ta_out: &accounts[7],
            token_program: &accounts[8],
            sysvar_instructions: &accounts[9],
        })
    }
}

/// The nine accounts of a ZeroFi swap; the program account is not passed on.
pub open spec fn zerofi_metas<'info, A>(ctx: ZerofiSwapAccounts<'info, A>) -> Seq<CpiAccount<'info, A>> {
    seq![
        writable_meta(ctx.market),
        writable_meta(ctx.cfg_in),
        writable_meta(ctx.ta_in),
        writable_meta(ctx.cfg_out),
        writable_meta(ctx.ta_out),
        writable_meta(ctx.usr_ta_in),
        writable_meta(ctx.usr_ta_out),
        readonly_meta(ctx.token_program),
        readonly_meta(ctx.sysvar_instructions),
    ]
}

/// Discriminator, then the two amounts, little-endian.
pub open spec fn zerofi_data(in_amount: u64, minimum_out_amount: u64) -> Seq<u8> {
    seq![SWAP_DISCRIMINATOR] + spec_u64_to_le_bytes(in_amount) + spec_u64_to_le_bytes(minimum_out_amount)
}

impl Zerofi {
    /// The ZeroFi swap instruction.
    pub fn instruction<'info, A>(ctx: &ZerofiSwapAccounts<'info, A>, in_amount: u64, minimum_out_amount: u64, _data: &()) -> (ix: CpiInstruction<'info, A>)
        ensures
            ix.program == CpiProgram::<'info, A>::Id(ZEROFI_PROGRAM_ID),
            ix.accounts@ == zerofi_metas(*ctx),
            ix.account_infos@ == infos_of(ix.accounts@),
            ix.data@ == zerofi_data(in_amount, minimum_out_amount),
    {
        let mut accounts: Vec<CpiAccount<'info, A>> = Vec::new();
        accounts.push(writable(ctx.market));
        accounts.push(writable(ctx.cfg_in));
        accounts.push(writable(ctx.ta_in));
        accounts.push(writable(ctx.cfg_out));
        accounts.push(writable(ctx.ta_out));
        accounts.push(writable(ctx.usr_ta_in));
        accounts.push(writable(ctx.usr_ta_out));
        accounts.push(readonly(ctx.token_program));
        accounts.push(readonly(ctx.sysvar_instructions));
        let mut bytes: Vec<u8> = Vec::new();
        bytes.push(SWAP_DISCRIMINATOR);
        push_u64_le(&mut bytes, in_amount);
        push_u64_le(&mut bytes, minimum_out_amount);
        let ix = instruction(CpiProgram::Id(ZEROFI_PROGRAM_ID), accounts, bytes);
        assert(ix.accounts@ =~= zerofi_metas(*ctx));
        assert(ix.data@ =~= zerofi_data(in_amount, minimum_out_amount));
        ix
    }

    /// Builds the swap instruction and invokes it with the given signer seeds.
    pub fn swap_signed(ctx: &ZerofiSwapAccounts<'_, AccountView>, in_amount: u64, minimum_out_amount: u64, _data: &(), signer_seeds: &[Signer]) -> (r: Result<(), SwapError>)
        ensures
            r matches Err(e) ==> e is Runtime,
            invoked_with(
                    CpiProgram::Id(ZEROFI_PROGRAM_ID),
                    zerofi_metas(*ctx),
                    infos_of(zerofi_metas(*ctx)),
                    zerofi_data(in_amount, minimum_out_amount),
                    signer_seeds,
                    r,
                ),
    {
        let ix = Self::instruction(ctx, in_amount, minimum_out_amount, _data);
        invoke(&ix, signer_seeds)
    }

    /// `swap_signed` without signer seeds.
    pub fn swap(ctx: &ZerofiSwapAccounts<'_, AccountView>, in_amount: u64, minimum_out_amount: u64, _data: &()) -> (r: Result<(), SwapError>)
        ensures
            r matches Err(e) ==> e is Runtime,
            invoked_with(
                    CpiProgram::Id(ZEROFI_PROGRAM_ID),
                    zerofi_metas(*ctx),
                    infos_of(zerofi_metas(*ctx)),
                    zerofi_data(in_amount, minimum_out_amount),
                    &[],
                    r,
                ),
    {
        Self::swap_signed(ctx, in_amount, minimum_out_amount, _data, &[])
    }
}

} // verus!
