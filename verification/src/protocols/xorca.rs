use vstd::prelude::*;
use vstd::bytes::spec_u64_to_le_bytes;
use solana_account_view::AccountView;
use solana_instruction_view::cpi::Signer;
use crate::bytes::push_u64_le;
use crate::cpi::{
    CpiAccount, CpiInstruction, CpiProgram, infos_of, instruction, readonly, readonly_meta,
    writable, writable_meta, writable_signer, writable_signer_meta,
};
use crate::error::SwapError;
use crate::runtime::{invoke, invoked_with};

verus! {

pub const XORCA_PROGRAM_ID: [u8; 32] = [6, 161, 213, 231, 202, 153, 236, 11, 142, 237, 45, 175, 6, 185, 136, 146, 174, 5, 252, 203, 17, 42, 46, 175, 27, 111, 174, 120, 94, 118, 162, 60];

pub const STAKE_DISCRIMINATOR: u8 = 0;

pub struct Xorca;

pub struct XorcaSwapAccounts<'info, A> {
    pub xorca_program: &'info A,
    pub staker: &'info A,
    pub vault: &'info A,
    pub staker_orca_ata: &'info A,
    pub staker_xorca_ata: &'info A,
    pub xorca_mint: &'info A,
    pub state: &'info A,
    pub orca_mint: &'info A,
    pub token_program: &'info A,
}

/// `c` holds the accounts of `s` in the order of its fields.
pub open spec fn xorca_accounts_laid_out<'info, A>(c: XorcaSwapAccounts<'info, A>, s: Seq<A>) -> bool {
    &&& *c.xorca_program == s[0]
    &&& *c.staker == s[1]
    &&& *c.vault == s[2]
    &&& *c.staker_orca_ata == s[3]
    &&& *c.staker_xorca_ata == s[4]
    &&& *c.xorca_mint == s[5]
    &&& *c.state == s[6]
    &&& *c.orca_mint == s[7]
    &&& *c.token_program == s[8]
}

impl<'info, A> XorcaSwapAccounts<'info, A> {
    pub const NUM_ACCOUNTS: usize = 9;

    pub fn try_from(accounts: &'info [A]) -> (r: Result<Self, SwapError>)
        ensures
            accounts@.len() != 9 ==> r == Err::<Self, SwapError>(SwapError::NotEnoughAccountKeys),
            accounts@.len() == 9 ==> (r matches Ok(c) && xorca_accounts_laid_out(c, accounts@)),
    {
        if accounts.len() != 9 {
            return Err(SwapError::NotEnoughAccountKeys);
        }
        Ok(XorcaSwapAccounts {
            xorca_program: &accounts[0],
            staker: &accounts[1],
            vault: &accounts[2],
            staker_orca_ata: &accounts[3],
            staker_xorca_ata: &accounts[4],
            xorca_mint: &accounts[5],
            state: &accounts[6],
            orca_mint: &accounts[7],
            token_program: &accounts[8],
        })
    }
}

/// The eight accounts of an xORCA stake; the program account is not passed on.
pub open spec fn xorca_metas<'info, A>(ctx: XorcaSwapAccounts<'info, A>) -> Seq<CpiAccount<'info, A>> {
    seq![
        writable_signer_meta(ctx.staker),
        writable_meta(ctx.vault),
        writable_meta(ctx.staker_orca_ata),
        writable_meta(ctx.staker_xorca_ata),
        writable_meta(ctx.xorca_mint),
        readonly_meta(ctx.state),
        readonly_meta(ctx.orca_mint),
        readonly_meta(ctx.token_program),
    ]
}

/// Discriminator, then the amount in, little-endian.
pub open spec fn xorca_data(in_amount: u64, minimum_out_amount: u64) -> Seq<u8> {
    seq![STAKE_DISCRIMINATOR] + spec_u64_to_le_bytes(in_amount)
}

impl Xorca {
    /// The xORCA `stake` instruction.
    pub fn instruction<'info, A>(ctx: &XorcaSwapAccounts<'info, A>, in_amount: u64, minimum_out_amount: u64, _data: &()) -> (ix: CpiInstruction<'info, A>)
        ensures
            ix.program == CpiProgram::<'info, A>::Id(XORCA_PROGRAM_ID),
            ix.accounts@ == xorca_metas(*ctx),
            ix.account_infos@ == infos_of(ix.accounts@),
            ix.data@ == xorca_data(in_amount, minimum_out_amount),
    {
        let mut accounts: Vec<CpiAccount<'info, A>> = Vec::new();
        accounts.push(writable_signer(ctx.staker));
        accounts.push(writable(ctx.vault));
        accounts.push(writable(ctx.staker_orca_ata));
        accounts.push(writable(ctx.staker_xorca_ata));
        accounts.push(writable(ctx.xorca_mint));
        accounts.push(readonly(ctx.state));
        accounts.push(readonly(ctx.orca_mint));
        accounts.push(readonly(ctx.token_program));
        let mut bytes: Vec<u8> = Vec::new();
        bytes.push(STAKE_DISCRIMINATOR);
        push_u64_le(&mut bytes, in_amount);
        let ix = instruction(CpiProgram::Id(XORCA_PROGRAM_ID), accounts, bytes);
        assert(ix.accounts@ =~= xorca_metas(*ctx));
        assert(ix.data@ =~= xorca_data(in_amount, minimum_out_amount));
        ix
    }

    /// Builds the swap instruction and invokes it with the given signer seeds.
    pub fn swap_signed(ctx: &XorcaSwapAccounts<'_, AccountView>, in_amount: u64, minimum_out_amount: u64, _data: &(), signer_seeds: &[Signer]) -> (r: Result<(), SwapError>)
        ensures
            r matches Err(e) ==> e is Runtime,
            invoked_with(
                    CpiProgram::Id(XORCA_PROGRAM_ID),
                    xorca_metas(*ctx),
                    infos_of(xorca_metas(*ctx)),
                    xorca_data(in_amount, minimum_out_amount),
                    signer_seeds,
                    r,
                ),
    {
        let ix = Self::instruction(ctx, in_amount, minimum_out_amount, _data);
        invoke(&ix, signer_seeds)
    }

    /// `swap_signed` without signer seeds.
    pub fn swap(ctx: &XorcaSwapAccounts<'_, AccountView>, in_amount: u64, minimum_out_amount: u64, _data: &()) -> (r: Result<(), SwapError>)
        ensures
            r matches Err(e) ==> e is Runtime,
            invoked_with(
                    CpiProgram::Id(XORCA_PROGRAM_ID),
                    xorca_metas(*ctx),
                    infos_of(xorca_metas(*ctx)),
                    xorca_data(in_amount, minimum_out_amount),
                    &[],
                    r,
                ),
    {
        Self::swap_signed(ctx, in_amount, minimum_out_amount, _data, &[])
    }
}

} // verus!
