use vstd::prelude::*;
use vstd::bytes::spec_u64_to_le_bytes;
use solana_account_view::AccountView;
use solana_instruction_view::cpi::Signer;
use crate::bytes::push_u64_le;
use crate::cpi::{
    CpiAccount, CpiInstruction, CpiProgram, infos_of, instruction, readonly, readonly_meta,
    writable, writable_meta, writable_signer, writable_signer_meta,
};
use crate::error::SwapError;
use crate::runtime::{invoke, invoked_with};

verus! {

pub const TESSERA_V_PROGRAM_ID: [u8; 32] = [6, 211, 237, 196, 229, 115, 173, 175, 243, 229, 115, 137, 139, 84, 91, 30, 232, 210, 141, 5, 142, 217, 78, 136, 224, 188, 179, 50, 87, 27, 234, 10];

pub const SWAP_DISCRIMINATOR: u8 = 16;

pub struct TesseraV;

#[derive(Clone, Copy, Debug, PartialEq, Eq)]
pub struct TesseraVSwapData {
    pub is_a_to_b: bool,
}

impl TesseraVSwapData {
    pub const DATA_LEN: usize = 1;

    /// From a to b unless the first byte is zero.
    pub fn try_from(data: &[u8]) -> (r: Result<Self, SwapError>)
        ensures
            data@.len() < Self::DATA_LEN ==> r == Err::<Self, SwapError>(SwapError::InvalidInstructionData),
            data@.len() >= Self::DATA_LEN ==> (r matches Ok(d) && d.is_a_to_b == (data@[0] != 0)),
    {
        if data.len() < Self::DATA_LEN {
            return Err(SwapError::InvalidInstructionData);
        }
        Ok(TesseraVSwapData { is_a_to_b: data[0] != 0 })
    }
}

pub struct TesseraVSwapAccounts<'info, A> {
    pub tessera_v_program: &'info A,
    pub global_state: &'info A,
    pub market: &'info A,
    pub user: &'info A,
    pub vault_a: &'info A,
    pub vault_b: &'info A,
    pub user_ata_a: &'info A,
    pub user_ata_b: &'info A,
    pub mint_a: &'info A,
    pub mint_b: &'info A,
    pub token_program_a: &'info A,
    pub token_program_b: &'info A,
    pub sysvar_instructions: &'info A,
}

/// `c` holds the accounts of `s` in the order of its fields.
pub open spec fn tessera_v_accounts_laid_out<'info, A>(c: TesseraVSwapAccounts<'info, A>, s: Seq<A>) -> bool {
    &&& *c.tessera_v_program == s[0]
    &&& *c.global_state == s[1]
    &&& *c.market == s[2]
    &&& *c.user == s[3]
    &&& *c.vault_a == s[4]
    &&& *c.vault_b == s[5]
    &&& *c.user_ata_a == s[6]
    &&& *c.user_ata_b == s[7]
    &&& *c.mint_a == s[8]
    &&& *c.mint_b == s[9]
    &&& *c.token_program_a == s[10]
    &&& *c.token_program_b == s[11]
    &&& *c.sysvar_instructions == s[12]
}

impl<'info, A> TesseraVSwapAccounts<'info, A> {
    pub const NUM_ACCOUNTS: usize = 13;

    pub fn try_from(accounts: &'info [A]) -> (r: Result<Self, SwapError>)
        ensures
            accounts@.len() != 13 ==> r == Err::<Self, SwapError>(SwapError::NotEnoughAccountKeys),
            accounts@.len() == 13 ==> (r matches Ok(c) && tessera_v_accounts_laid_out(c, accounts@)),
    {
        if accounts.len() != 13 {
            return Err(SwapError::NotEnoughAccountKeys);
        }
        Ok(TesseraVSwapAccounts {
            tessera_v_program: &accounts[0],
            global_state: &accounts[1],
            market: &accounts[2],
            user: &accounts[3],
            vault_a: &accounts[4],
            vault_b: &accounts[5],
            user_ata_a: &accounts[6],
            user_ata_b: &accounts[7],
            mint_a: &accounts[8],
            mint_b: &accounts[9],
            token_program_a: &accounts[10],
            token_program_b: &accounts[11],
            sysvar_instructions: &accounts[12],
        })
    }
}

/// The twelve accounts of a Tessera V swap; the program account is not passed on.
pub open spec fn tessera_v_metas<'info, A>(ctx: TesseraVSwapAccounts<'info, A>) -> Seq<CpiAccount<'info, A>> {
    seq![
        readonly_meta(ctx.global_state),
        writable_meta(ctx.market),
        writable_signer_meta(ctx.user),
        writable_meta(ctx.vault_a),
        writable_meta(ctx.vault_b),
        writable_meta(ctx.user_ata_a),
        writable_meta(ctx.user_ata_b),
        readonly_meta(ctx.mint_a),
        readonly_meta(ctx.mint_b),
        readonly_meta(ctx.token_program_a),
        readonly_meta(ctx.token_program_b),
        readonly_meta(ctx.sysvar_instructions),
    ]
}

/// Discriminator, direction, then the two amounts, little-endian.
pub open spec fn tessera_v_data(in_amount: u64, minimum_out_amount: u64, data: TesseraVSwapData) -> Seq<u8> {
    seq![SWAP_DISCRIMINATOR, if data.is_a_to_b { 1u8 } else { 0u8 }] + spec_u64_to_le_bytes(in_amount) + spec_u64_to_le_bytes(minimum_out_amount)
}

impl TesseraV {
    /// The Tessera V swap instruction.
    pub fn instruction<'info, A>(ctx: &TesseraVSwapAccounts<'info, A>, in_amount: u64, minimum_out_amount: u64, data: &TesseraVSwapData) -> (ix: CpiInstruction<'info, A>)
        ensures
            ix.program == CpiProgram::<'info, A>::Id(TESSERA_V_PROGRAM_ID),
            ix.accounts@ == tessera_v_metas(*ctx),
            ix.account_infos@ == infos_of(ix.accounts@),
            ix.data@ == tessera_v_data(in_amount, minimum_out_amount, *data),
    {
        let mut accounts: Vec<CpiAccount<'info, A>> = Vec::new();
        accounts.push(readonly(ctx.global_state));
        accounts.push(writable(ctx.market));
        accounts.push(writable_signer(ctx.user));
        accounts.push(writable(ctx.vault_a));
        accounts.push(writable(ctx.vault_b));
        accounts.push(writable(ctx.user_ata_a));
        accounts.push(writable(ctx.user_ata_b));
        accounts.push(readonly(ctx.mint_a));
        accounts.push(readonly(ctx.mint_b));
        accounts.push(readonly(ctx.token_program_a));
        accounts.push(readonly(ctx.token_program_b));
        accounts.push(readonly(ctx.sysvar_instructions));
        let mut bytes: Vec<u8> = Vec::new();
        bytes.push(SWAP_DISCRIMINATOR);
        bytes.push(if data.is_a_to_b { 1u8 } else { 0u8 });
        push_u64_le(&mut bytes, in_amount);
        push_u64_le(&mut bytes, minimum_out_amount);
        let ix = instruction(CpiProgram::Id(TESSERA_V_PROGRAM_ID), accounts, bytes);
        assert(ix.accounts@ =~= tessera_v_metas(*ctx));
        assert(ix.data@ =~= tessera_v_data(in_amount, minimum_out_amount, *data));
        ix
    }

    /// Builds the swap instruction and invokes it with the given signer seeds.
    pub fn swap_signed(ctx: &TesseraVSwapAccounts<'_, AccountView>, in_amount: u64, minimum_out_amount: u64, data: &TesseraVSwapData, signer_seeds: &[Signer]) -> (r: Result<(), SwapError>)
        ensures
            r matches Err(e) ==> e is Runtime,
            invoked_with(
                    CpiProgram::Id(TESSERA_V_PROGRAM_ID),
                    tessera_v_metas(*ctx),
                    infos_of(tessera_v_metas(*ctx)),
                    tessera_v_data(in_amount, minimum_out_amount, *data),
                    signer_seeds,
                    r,
                ),
    {
        let ix = Self::instruction(ctx, in_amount, minimum_out_amount, data);
        invoke(&ix, signer_seeds)
    }

    /// `swap_signed` without signer seeds.
    pub fn swap(ctx: &TesseraVSwapAccounts<'_, AccountView>, in_amount: u64, minimum_out_amount: u64, data: &TesseraVSwapData) -> (r: Result<(), SwapError>)
        ensures
            r matches Err(e) ==> e is Runtime,
            invoked_with(
                    CpiProgram::Id(TESSERA_V_PROGRAM_ID),
                    tessera_v_metas(*ctx),
                    infos_of(tessera_v_metas(*ctx)),
                    tessera_v_data(in_amount, minimum_out_amount, *data),
                    &[],
                    r,
                ),
    {
        Self::swap_signed(ctx, in_amount, minimum_out_amount, data, &[])
    }
}

} // verus!
