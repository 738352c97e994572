use vstd::prelude::*;
use vstd::bytes::spec_u64_to_le_bytes;
use solana_account_view::AccountView;
use solana_instruction_view::cpi::Signer;
use crate::bytes::{push_bytes, push_u64_le};
use crate::cpi::{
    CpiAccount, CpiInstruction, CpiProgram, infos_of, instruction, readonly, readonly_meta,
    writable, writable_meta, writable_signer, writable_signer_meta,
};
use crate::error::SwapError;
use crate::runtime::{invoke, invoked_with};

verus! {

pub const OXEDIUM_PROGRAM_ID: [u8; 32] = [11, 232, 108, 176, 29, 79, 127, 164, 134, 230, 69, 230, 158, 182, 100, 252, 19, 238, 136, 38, 170, 253, 75, 138, 106, 153, 132, 165, 112, 247, 234, 61];

/// Anchor discriminator of the `swap` instruction.
pub const SWAP_DISCRIMINATOR: [u8; 8] = [248, 198, 158, 145, 225, 117, 135, 200];

pub struct Oxedium;

pub struct OxediumSwapAccounts<'info, A> {
    pub oxedium_program: &'info A,
    pub signer: &'info A,
    pub token_mint_in: &'info A,
    pub token_mint_out: &'info A,
    pub pyth_price_in: &'info A,
    pub pyth_price_out: &'info A,
    pub signer_ata_in: &'info A,
    pub signer_ata_out: &'info A,
    pub vault_pda_in: &'info A,
    pub vault_pda_out: &'info A,
    pub vault_ata_in: &'info A,
    pub vault_ata_out: &'info A,
    pub oxe_global_pda: &'info A,
    pub associated_token_program: &'info A,
    pub token_program: &'info A,
    pub system_program: &'info A,
}

/// `c` holds the accounts of `s` in the order of its fields.
pub open spec fn oxedium_accounts_laid_out<'info, A>(c: OxediumSwapAccounts<'info, A>, s: Seq<A>) -> bool {
    &&& *c.oxedium_program == s[0]
    &&& *c.signer == s[1]
    &&& *c.token_mint_in == s[2]
    &&& *c.token_mint_out == s[3]
    &&& *c.pyth_price_in == s[4]
    &&& *c.pyth_price_out == s[5]
    &&& *c.signer_ata_in == s[6]
    &&& *c.signer_ata_out == s[7]
    &&& *c.vault_pda_in == s[8]
    &&& *c.vault_pda_out == s[9]
    &&& *c.vault_ata_in == s[10]
    &&& *c.vault_ata_out == s[11]
    &&& *c.oxe_global_pda == s[12]
    &&& *c.associated_token_program == s[13]
    &&& *c.token_program == s[14]
    &&& *c.system_program == s[15]
}

impl<'info, A> OxediumSwapAccounts<'info, A> {
    pub const NUM_ACCOUNTS: usize = 16;

    pub fn try_from(accounts: &'info [A]) -> (r: Result<Self, SwapError>)
        ensures
            accounts@.len() < 16 ==> r == Err::<Self, SwapError>(SwapError::NotEnoughAccountKeys),
            accounts@.len() >= 16 ==> (r matches Ok(c) && oxedium_accounts_laid_out(c, accounts@)),
    {
        if accounts.len() < 16 {
            return Err(SwapError::NotEnoughAccountKeys);
        }
        Ok(OxediumSwapAccounts {
            oxedium_program: &accounts[0],
            signer: &accounts[1],
            token_mint_in: &accounts[2],
            token_mint_out: &accounts[3],
            pyth_price_in: &accounts[4],
            pyth_price_out: &accounts[5],
            signer_ata_in: &accounts[6],
            signer_ata_out: &accounts[7],
            vault_pda_in: &accounts[8],
            vault_pda_out: &accounts[9],
            vault_ata_in: &accounts[10],
            vault_ata_out: &accounts[11],
            oxe_global_pda: &accounts[12],
            associated_token_program: &accounts[13],
            token_program: &accounts[14],
            system_program: &accounts[15],
        })
    }
}

/// The fifteen accounts of an Oxedium swap; the program account is not passed on.
pub open spec fn oxedium_metas<'info, A>(ctx: OxediumSwapAccounts<'info, A>) -> Seq<CpiAccount<'info, A>> {
    seq![
        writable_signer_meta(ctx.signer),
        readonly_meta(ctx.token_mint_in),
        readonly_meta(ctx.token_mint_out),
        readonly_meta(ctx.pyth_price_in),
        readonly_meta(ctx.pyth_price_out),
        writable_meta(ctx.signer_ata_in),
        writable_meta(ctx.signer_ata_out),
        writable_meta(ctx.vault_pda_in),
        writable_meta(ctx.vault_pda_out),
        writable_meta(ctx.vault_ata_in),
        writable_meta(ctx.vault_ata_out),
        readonly_meta(ctx.oxe_global_pda),
        readonly_meta(ctx.associated_token_program),
        readonly_meta(ctx.token_program),
        readonly_meta(ctx.system_program),
    ]
}

/// Discriminator, then the two amounts, little-endian.
pub open spec fn oxedium_data(in_amount: u64, minimum_out_amount: u64) -> Seq<u8> {
    SWAP_DISCRIMINATOR@ + spec_u64_to_le_bytes(in_amount) + spec_u64_to_le_bytes(minimum_out_amount)
}

impl Oxedium {
    /// The Oxedium swap instruction.
    pub fn instruction<'info, A>(ctx: &OxediumSwapAccounts<'info, A>, in_amount: u64, minimum_out_amount: u64, _data: &()) -> (ix: CpiInstruction<'info, A>)
        ensures
            ix.program == CpiProgram::<'info, A>::Id(OXEDIUM_PROGRAM_ID),
            ix.accounts@ == oxedium_metas(*ctx),
            ix.account_infos@ == infos_of(ix.accounts@),
            ix.data@ == oxedium_data(in_amount, minimum_out_amount),
    {
        let mut accounts: Vec<CpiAccount<'info, A>> = Vec::new();
        accounts.push(writable_signer(ctx.signer));
        accounts.push(readonly(ctx.token_mint_in));
        accounts.push(readonly(ctx.token_mint_out));
        accounts.push(readonly(ctx.pyth_price_in));
        accounts.push(readonly(ctx.pyth_price_out));
        accounts.push(writable(ctx.signer_ata_in));
        accounts.push(writable(ctx.signer_ata_out));
        accounts.push(writable(ctx.vault_pda_in));
        accounts.push(writable(ctx.vault_pda_out));
        accounts.push(writable(ctx.vault_ata_in));
        accounts.push(writable(ctx.vault_ata_out));
        accounts.push(readonly(ctx.oxe_global_pda));
        accounts.push(readonly(ctx.associated_token_program));
        accounts.push(readonly(ctx.token_program));
        accounts.push(readonly(ctx.system_program));
        let mut bytes: Vec<u8> = Vec::new();
        push_bytes(&mut bytes, &SWAP_DISCRIMINATOR);
        push_u64_le(&mut bytes, in_amount);
        push_u64_le(&mut bytes, minimum_out_amount);
        let ix = instruction(CpiProgram::Id(OXEDIUM_PROGRAM_ID), accounts, bytes);
        assert(ix.accounts@ =~= oxedium_metas(*ctx));
        assert(ix.data@ =~= oxedium_data(in_amount, minimum_out_amount));
        ix
    }

    /// Builds the swap instruction and invokes it with the given signer seeds.
    pub fn swap_signed(ctx: &OxediumSwapAccounts<'_, AccountView>, in_amount: u64, minimum_out_amount: u64, _data: &(), signer_seeds: &[Signer]) -> (r: Result<(), SwapError>)
        ensures
            r matches Err(e) ==> e is Runtime,
            invoked_with(
                    CpiProgram::Id(OXEDIUM_PROGRAM_ID),
                    oxedium_metas(*ctx),
                    infos_of(oxedium_metas(*ctx)),
                    oxedium_data(in_amount, minimum_out_amount),
                    signer_seeds,
                    r,
                ),
    {
        let ix = Self::instruction(ctx, in_amount, minimum_out_amount, _data);
        invoke(&ix, signer_seeds)
    }

    /// `swap_signed` without signer seeds.
    pub fn swap(ctx: &OxediumSwapAccounts<'_, AccountView>, in_amount: u64, minimum_out_amount: u64, _data: &()) -> (r: Result<(), SwapError>)
        ensures
            r matches Err(e) ==> e is Runtime,
            invoked_with(
                    CpiProgram::Id(OXEDIUM_PROGRAM_ID),
                    oxedium_metas(*ctx),
                    infos_of(oxedium_metas(*ctx)),
                    oxedium_data(in_amount, minimum_out_amount),
                    &[],
                    r,
                ),
    {
        Self::swap_signed(ctx, in_amount, minimum_out_amount, _data, &[])
    }
}

} // verus!
