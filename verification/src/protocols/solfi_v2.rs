use vstd::prelude::*;
use vstd::bytes::spec_u64_to_le_bytes;
use solana_account_view::AccountView;
use solana_instruction_view::cpi::Signer;
use crate::bytes::push_u64_le;
use crate::cpi::{
    CpiAccount, CpiInstruction, CpiProgram, SwapParameters, infos_of, instruction, readonly,
    readonly_meta, writable, writable_meta, writable_signer, writable_signer_meta,
};
use crate::error::SwapError;
use crate::runtime::{invoke, invoked_with, mint_unreadable, same_mint_read, same_token_mint};

verus! {

pub const SOLFI_V2_PROGRAM_ID: [u8; 32] = [6, 135, 52, 55, 180, 251, 201, 244, 4, 55, 221, 60, 230, 63, 156, 254, 140, 36, 132, 3, 85, 147, 161, 39, 129, 186, 42, 151, 190, 52, 22, 150];

pub const SWAP_DISCRIMINATOR: u8 = 7;

pub struct SolFiV2;

pub struct SolFiV2SwapRemaining<'info, A> {
    pub solfi_v2_program: &'info A,
    pub market_account: &'info A,
    pub oracle_account: &'info A,
    pub config_account: &'info A,
    pub base_vault: &'info A,
    pub quote_vault: &'info A,
    pub base_mint: &'info A,
    pub quote_mint: &'info A,
    pub base_token_program: &'info A,
    pub quote_token_program: &'info A,
    pub instructions_sysvar: &'info A,
}

/// `c` holds the accounts of `s` in the order of its fields.
pub open spec fn solfi_v2_remaining_laid_out<'info, A>(c: SolFiV2SwapRemaining<'info, A>, s: Seq<A>) -> bool {
    &&& *c.solfi_v2_program == s[0]
    &&& *c.market_account == s[1]
    &&& *c.oracle_account == s[2]
    &&& *c.config_account == s[3]
    &&& *c.base_vault == s[4]
    &&& *c.quote_vault == s[5]
    &&& *c.base_mint == s[6]
    &&& *c.quote_mint == s[7]
    &&& *c.base_token_program == s[8]
    &&& *c.quote_token_program == s[9]
    &&& *c.instructions_sysvar == s[10]
}

impl<'info, A> SolFiV2SwapRemaining<'info, A> {
    pub fn try_from(accounts: &'info [A]) -> (r: Result<Self, SwapError>)
        ensures
            accounts@.len() < 11 ==> r == Err::<Self, SwapError>(SwapError::NotEnoughAccountKeys),
            accounts@.len() >= 11 ==> (r matches Ok(c) && solfi_v2_remaining_laid_out(c, accounts@)),
    {
        if accounts.len() < 11 {
            return Err(SwapError::NotEnoughAccountKeys);
        }
        Ok(SolFiV2SwapRemaining {
            solfi_v2_program: &accounts[0],
            market_account: &accounts[1],
            oracle_account: &accounts[2],
            config_account: &accounts[3],
            base_vault: &accounts[4],
            quote_vault: &accounts[5],
            base_mint: &accounts[6],
            quote_mint: &accounts[7],
            base_token_program: &accounts[8],
            quote_token_program: &accounts[9],
            instructions_sysvar: &accounts[10],
        })
    }
}

/// The thirteen accounts of a SolFi V2 swap; the user's base and quote accounts are the in and out accounts, in the order of the side.
pub open spec fn solfi_v2_metas<'info, A>(params: SwapParameters<'info, A>, remaining: SolFiV2SwapRemaining<'info, A>, is_base_in: bool) -> Seq<CpiAccount<'info, A>> {
    let user_base_ata = if is_base_in { params.in_ata } else { params.out_ata };
    let user_quote_ata = if is_base_in { params.out_ata } else { params.in_ata };
    seq![
        writable_signer_meta(params.user_wallet),
        writable_meta(remaining.market_account),
        readonly_meta(remaining.oracle_account),
        readonly_meta(remaining.config_account),
        writable_meta(remaining.base_vault),
        writable_meta(remaining.quote_vault),
        writable_meta(user_base_ata),
        writable_meta(user_quote_ata),
        readonly_meta(remaining.base_mint),
        readonly_meta(remaining.quote_mint),
        readonly_meta(remaining.base_token_program),
        readonly_meta(remaining.quote_token_program),
        readonly_meta(remaining.instructions_sysvar),
    ]
}

/// Discriminator, the two amounts, little-endian, then whether quote is swapped for base.
pub open spec fn solfi_v2_data(in_amount: u64, minimum_out_amount: u64, is_base_in: bool) -> Seq<u8> {
    seq![SWAP_DISCRIMINATOR] + spec_u64_to_le_bytes(in_amount) + spec_u64_to_le_bytes(minimum_out_amount) + seq![if is_base_in { 0u8 } else { 1u8 }]
}

impl SolFiV2 {
    pub fn try_parse_remaining<'info, A>(remaining: &'info [A]) -> (r: Result<SolFiV2SwapRemaining<'info, A>, SwapError>)
        ensures
            remaining@.len() < 11 ==> r == Err::<SolFiV2SwapRemaining<'info, A>, SwapError>(SwapError::NotEnoughAccountKeys),
            remaining@.len() >= 11 ==> (r matches Ok(c) && solfi_v2_remaining_laid_out(c, remaining@)),
    {
        SolFiV2SwapRemaining::try_from(remaining)
    }

    /// The SolFi V2 swap instruction, for a swap that pays in the base token exactly when `is_base_in` holds.
    pub fn instruction<'info, A>(params: &SwapParameters<'info, A>, remaining: &SolFiV2SwapRemaining<'info, A>, in_amount: u64, minimum_out_amount: u64, _extra: &(), is_base_in: bool) -> (r: CpiInstruction<'info, A>)
        ensures
            r.program == CpiProgram::<'info, A>::Id(SOLFI_V2_PROGRAM_ID),
            r.accounts@ == solfi_v2_metas(*params, *remaining, is_base_in),
            r.account_infos@ == infos_of(r.accounts@),
            r.data@ == solfi_v2_data(in_amount, minimum_out_amount, is_base_in),
    {
        let (user_base_ata, user_quote_ata) = if is_base_in { (params.in_ata, params.out_ata) } else { (params.out_ata, params.in_ata) };
        let mut accounts: Vec<CpiAccount<'info, A>> = Vec::new();
        accounts.push(writable_signer(params.user_wallet));
        accounts.push(writable(remaining.market_account));
        accounts.push(readonly(remaining.oracle_account));
        accounts.push(readonly(remaining.config_account));
        accounts.push(writable(remaining.base_vault));
        accounts.push(writable(remaining.quote_vault));
        accounts.push(writable(user_base_ata));
        accounts.push(writable(user_quote_ata));
        accounts.push(readonly(remaining.base_mint));
        accounts.push(readonly(remaining.quote_mint));
        accounts.push(readonly(remaining.base_token_program));
        accounts.push(readonly(remaining.quote_token_program));
        accounts.push(readonly(remaining.instructions_sysvar));
        let mut bytes: Vec<u8> = Vec::new();
        bytes.push(SWAP_DISCRIMINATOR);
        push_u64_le(&mut bytes, in_amount);
        push_u64_le(&mut bytes, minimum_out_amount);
        bytes.push(if is_base_in { 0u8 } else { 1u8 });
        let ix = instruction(CpiProgram::Id(SOLFI_V2_PROGRAM_ID), accounts, bytes);
        assert(ix.accounts@ =~= solfi_v2_metas(*params, *remaining, is_base_in));
        assert(ix.data@ =~= solfi_v2_data(in_amount, minimum_out_amount, is_base_in));
        ix
    }

    /// Reads the side from the mints of the in account and the base vault, then invokes the swap.
    pub fn swap_with_parameters_signed(params: &SwapParameters<'_, AccountView>, remaining: &SolFiV2SwapRemaining<'_, AccountView>, in_amount: u64, minimum_out_amount: u64, _extra: &(), signer_seeds: &[Signer]) -> (r: Result<(), SwapError>)
        ensures
            r matches Err(e) ==> e is Runtime || e == SwapError::InvalidAccountData,
            r == Err::<(), SwapError>(SwapError::InvalidAccountData) ==> mint_unreadable(params.in_ata, remaining.base_vault),
            r != Err::<(), SwapError>(SwapError::InvalidAccountData) ==> exists|is_base_in: bool|
                #[trigger] same_mint_read(params.in_ata, remaining.base_vault, is_base_in)
                && invoked_with(
                    CpiProgram::Id(SOLFI_V2_PROGRAM_ID),
                    solfi_v2_metas(*params, *remaining, is_base_in),
                    infos_of(solfi_v2_metas(*params, *remaining, is_base_in)),
                    solfi_v2_data(in_amount, minimum_out_amount, is_base_in),
                    signer_seeds,
                    r,
                ),
    {
        let is_base_in = same_token_mint(params.in_ata, remaining.base_vault)?;
        let ix = Self::instruction(params, remaining, in_amount, minimum_out_amount, _extra, is_base_in);
        invoke(&ix, signer_seeds)
    }
}

} // verus!
