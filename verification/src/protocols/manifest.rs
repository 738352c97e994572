use vstd::prelude::*;
use vstd::bytes::spec_u64_to_le_bytes;
use solana_account_view::AccountView;
use solana_instruction_view::cpi::Signer;
use crate::bytes::push_u64_le;
use crate::cpi::{
    CpiAccount, CpiInstruction, CpiProgram, SwapParameters, infos_of, instruction, readonly,
    readonly_meta, readonly_signer, readonly_signer_meta, writable, writable_meta,
    writable_signer, writable_signer_meta,
};
use crate::error::SwapError;
use crate::runtime::{invoke, invoked_with, mint_unreadable, same_mint_read, same_token_mint};

verus! {

pub const MANIFEST_PROGRAM_ID: [u8; 32] = [5, 55, 164, 119, 56, 218, 37, 169, 136, 249, 100, 217, 155, 164, 58, 136, 207, 17, 135, 57, 91, 106, 207, 20, 131, 245, 112, 34, 141, 128, 2, 178];

pub const SWAP_DISCRIMINATOR: u8 = 13;

pub struct Manifest;

pub struct ManifestSwapRemaining<'info, A> {
    pub manifest_program: &'info A,
    pub owner: &'info A,
    pub market: &'info A,
    pub system_program: &'info A,
    pub base_vault: &'info A,
    pub quote_vault: &'info A,
    pub token_program_base: &'info A,
    pub token_program_quote: &'info A,
    pub base_mint: &'info A,
    pub quote_mint: &'info A,
    pub global: &'info A,
    pub global_vault: &'info A,
}

/// `c` holds the accounts of `s` in the order of its fields.
pub open spec fn manifest_remaining_laid_out<'info, A>(c: ManifestSwapRemaining<'info, A>, s: Seq<A>) -> bool {
    &&& *c.manifest_program == s[0]
    &&& *c.owner == s[1]
    &&& *c.market == s[2]
    &&& *c.system_program == s[3]
    &&& *c.base_vault == s[4]
    &&& *c.quote_vault == s[5]
    &&& *c.token_program_base == s[6]
    &&& *c.token_program_quote == s[7]
    &&& *c.base_mint == s[8]
    &&& *c.quote_mint == s[9]
    &&& *c.global == s[10]
    &&& *c.global_vault == s[11]
}

impl<'info, A> ManifestSwapRemaining<'info, A> {
    pub fn try_from(accounts: &'info [A]) -> (r: Result<Self, SwapError>)
        ensures
            accounts@.len() < 12 ==> r == Err::<Self, SwapError>(SwapError::NotEnoughAccountKeys),
            accounts@.len() >= 12 ==> (r matches Ok(c) && manifest_remaining_laid_out(c, accounts@)),
    {
        if accounts.len() < 12 {
            return Err(SwapError::NotEnoughAccountKeys);
        }
        Ok(ManifestSwapRemaining {
            manifest_program: &accounts[0],
            owner: &accounts[1],
            market: &accounts[2],
            system_program: &accounts[3],
            base_vault: &accounts[4],
            quote_vault: &accounts[5],
            token_program_base: &accounts[6],
            token_program_quote: &accounts[7],
            base_mint: &accounts[8],
            quote_mint: &accounts[9],
            global: &accounts[10],
            global_vault: &accounts[11],
        })
    }
}

/// Whether the in amount is exact (else the out amount is).
#[derive(Clone, Copy, Debug, PartialEq, Eq, Structural)]
pub struct ManifestSwapExtra {
    pub is_exact_in: bool,
}

impl ManifestSwapExtra {
    /// The flag is set unless the first byte is zero.
    pub fn try_from(data: &[u8]) -> (r: Result<Self, SwapError>)
        ensures
            data@.len() == 0 ==> r == Err::<Self, SwapError>(SwapError::InvalidInstructionData),
            data@.len() > 0 ==> r == Ok::<Self, SwapError>(ManifestSwapExtra { is_exact_in: data@[0] != 0 }),
    {
        if data.len() == 0 {
            return Err(SwapError::InvalidInstructionData);
        }
        Ok(ManifestSwapExtra { is_exact_in: data[0] != 0 })
    }
}

/// The fourteen accounts of a Manifest swap; the trader's base and quote accounts are the in and out accounts, in the order of the side.
pub open spec fn manifest_metas<'info, A>(params: SwapParameters<'info, A>, remaining: ManifestSwapRemaining<'info, A>, is_base_in: bool) -> Seq<CpiAccount<'info, A>> {
    let trader_base = if is_base_in { params.in_ata } else { params.out_ata };
    let trader_quote = if is_base_in { params.out_ata } else { params.in_ata };
    seq![
        writable_signer_meta(params.user_wallet),
        readonly_signer_meta(remaining.owner),
        writable_meta(remaining.market),
        readonly_meta(remaining.system_program),
        writable_meta(trader_base),
        writable_meta(trader_quote),
        writable_meta(remaining.base_vault),
        writable_meta(remaining.quote_vault),
        readonly_meta(remaining.token_program_base),
        readonly_meta(remaining.base_mint),
        readonly_meta(remaining.token_program_quote),
        readonly_meta(remaining.quote_mint),
        writable_meta(remaining.global),
        writable_meta(remaining.global_vault),
    ]
}

/// Discriminator, the two amounts, little-endian, then the base-in and exact-in flags.
pub open spec fn manifest_data(in_amount: u64, minimum_out_amount: u64, extra: ManifestSwapExtra, is_base_in: bool) -> Seq<u8> {
    seq![SWAP_DISCRIMINATOR] + spec_u64_to_le_bytes(in_amount) + spec_u64_to_le_bytes(minimum_out_amount) + seq![if is_base_in { 1u8 } else { 0u8 }, if extra.is_exact_in { 1u8 } else { 0u8 }]
}

impl Manifest {
    pub fn try_parse_remaining<'info, A>(remaining: &'info [A]) -> (r: Result<ManifestSwapRemaining<'info, A>, SwapError>)
        ensures
            remaining@.len() < 12 ==> r == Err::<ManifestSwapRemaining<'info, A>, SwapError>(SwapError::NotEnoughAccountKeys),
            remaining@.len() >= 12 ==> (r matches Ok(c) && manifest_remaining_laid_out(c, remaining@)),
    {
        ManifestSwapRemaining::try_from(remaining)
    }

    /// The Manifest swap instruction, for a swap that pays in the base token exactly when `is_base_in` holds.
    pub fn instruction<'info, A>(params: &SwapParameters<'info, A>, remaining: &ManifestSwapRemaining<'info, A>, in_amount: u64, minimum_out_amount: u64, extra: &ManifestSwapExtra, is_base_in: bool) -> (r: CpiInstruction<'info, A>)
        ensures
            r.program == CpiProgram::<'info, A>::Id(MANIFEST_PROGRAM_ID),
            r.accounts@ == manifest_metas(*params, *remaining, is_base_in),
            r.account_infos@ == infos_of(r.accounts@),
            r.data@ == manifest_data(in_amount, minimum_out_amount, *extra, is_base_in),
    {
        let (trader_base, trader_quote) = if is_base_in { (params.in_ata, params.out_ata) } else { (params.out_ata, params.in_ata) };
        let mut accounts: Vec<CpiAccount<'info, A>> = Vec::new();
        accounts.push(writable_signer(params.user_wallet));
        accounts.push(readonly_signer(remaining.owner));
        accounts.push(writable(remaining.market));
        accounts.push(readonly(remaining.system_program));
        accounts.push(writable(trader_base));
        accounts.push(writable(trader_quote));
        accounts.push(writable(remaining.base_vault));
        accounts.push(writable(remaining.quote_vault));
        accounts.push(readonly(remaining.token_program_base));
        accounts.push(readonly(remaining.base_mint));
        accounts.push(readonly(remaining.token_program_quote));
        accounts.push(readonly(remaining.quote_mint));
        accounts.push(writable(remaining.global));
        accounts.push(writable(remaining.global_vault));
        let mut bytes: Vec<u8> = Vec::new();
        bytes.push(SWAP_DISCRIMINATOR);
        push_u64_le(&mut bytes, in_amount);
        push_u64_le(&mut bytes, minimum_out_amount);
        bytes.push(if is_base_in { 1u8 } else { 0u8 });
        bytes.push(if extra.is_exact_in { 1u8 } else { 0u8 });
        let ix = instruction(CpiProgram::Id(MANIFEST_PROGRAM_ID), accounts, bytes);
        assert(ix.accounts@ =~= manifest_metas(*params, *remaining, is_base_in));
        assert(ix.data@ =~= manifest_data(in_amount, minimum_out_amount, *extra, is_base_in));
        ix
    }

    /// Reads the side from the mints of the in account and the base vault, then invokes the swap.
    pub fn swap_with_parameters_signed(params: &SwapParameters<'_, AccountView>, remaining: &ManifestSwapRemaining<'_, AccountView>, in_amount: u64, minimum_out_amount: u64, extra: &ManifestSwapExtra, signer_seeds: &[Signer]) -> (r: Result<(), SwapError>)
        ensures
            r matches Err(e) ==> e is Runtime || e == SwapError::InvalidAccountData,
            r == Err::<(), SwapError>(SwapError::InvalidAccountData) ==> mint_unreadable(params.in_ata, remaining.base_vault),
            r != Err::<(), SwapError>(SwapError::InvalidAccountData) ==> exists|is_base_in: bool|
                #[trigger] same_mint_read(params.in_ata, remaining.base_vault, is_base_in)
                && invoked_with(
                    CpiProgram::Id(MANIFEST_PROGRAM_ID),
                    manifest_metas(*params, *remaining, is_base_in),
                    infos_of(manifest_metas(*params, *remaining, is_base_in)),
                    manifest_data(in_amount, minimum_out_amount, *extra, is_base_in),
                    signer_seeds,
                    r,
                ),
    {
        let is_base_in = same_token_mint(params.in_ata, remaining.base_vault)?;
        let ix = Self::instruction(params, remaining, in_amount, minimum_out_amount, extra, is_base_in);
        invoke(&ix, signer_seeds)
    }
}

} // verus!
