use vstd::prelude::*;
use vstd::bytes::spec_u64_to_le_bytes;
use solana_account_view::AccountView;
use solana_instruction_view::cpi::Signer;
use crate::bytes::{push_bytes, push_u64_le};
use crate::cpi::{
    CpiAccount, CpiInstruction, CpiProgram, SwapParameters, infos_of, instruction, readonly,
    readonly_meta, readonly_signer, readonly_signer_meta, writable, writable_meta,
};
use crate::error::SwapError;
use crate::runtime::{invoke, invoked_with};

verus! {

pub const GAMMA_PROGRAM_ID: [u8; 32] = [225, 68, 137, 200, 52, 189, 161, 142, 149, 88, 17, 200, 228, 150, 169, 73, 168, 58, 185, 237, 163, 118, 225, 69, 128, 243, 127, 213, 180, 89, 49, 98];

pub const SWAP_DISCRIMINATOR: [u8; 8] = [239, 82, 192, 187, 160, 26, 223, 223];

pub struct Gamma;

pub struct GammaSwapRemaining<'info, A> {
    pub gamma_program: &'info A,
    pub authority: &'info A,
    pub amm_config: &'info A,
    pub pool_state: &'info A,
    pub input_vault: &'info A,
    pub output_vault: &'info A,
    pub input_token_program: &'info A,
    pub output_token_program: &'info A,
    pub input_token_mint: &'info A,
    pub output_token_mint: &'info A,
    pub observation_state: &'info A,
}

/// `c` holds the accounts of `s` in the order of its fields.
pub open spec fn gamma_remaining_laid_out<'info, A>(c: GammaSwapRemaining<'info, A>, s: Seq<A>) -> bool {
    &&& *c.gamma_program == s[0]
    &&& *c.authority == s[1]
    &&& *c.amm_config == s[2]
    &&& *c.pool_state == s[3]
    &&& *c.input_vault == s[4]
    &&& *c.output_vault == s[5]
    &&& *c.input_token_program == s[6]
    &&& *c.output_token_program == s[7]
    &&& *c.input_token_mint == s[8]
    &&& *c.output_token_mint == s[9]
    &&& *c.observation_state == s[10]
}

impl<'info, A> GammaSwapRemaining<'info, A> {
    pub fn try_from(accounts: &'info [A]) -> (r: Result<Self, SwapError>)
        ensures
            accounts@.len() < 11 ==> r == Err::<Self, SwapError>(SwapError::NotEnoughAccountKeys),
            accounts@.len() >= 11 ==> (r matches Ok(c) && gamma_remaining_laid_out(c, accounts@)),
    {
        if accounts.len() < 11 {
            return Err(SwapError::NotEnoughAccountKeys);
        }
        Ok(GammaSwapRemaining {
            gamma_program: &accounts[0],
            authority: &accounts[1],
            amm_config: &accounts[2],
            pool_state: &accounts[3],
            input_vault: &accounts[4],
            output_vault: &accounts[5],
            input_token_program: &accounts[6],
            output_token_program: &accounts[7],
            input_token_mint: &accounts[8],
            output_token_mint: &accounts[9],
            observation_state: &accounts[10],
        })
    }
}

/// The thirteen accounts of a Gamma swap.
pub open spec fn gamma_metas<'info, A>(params: SwapParameters<'info, A>, remaining: GammaSwapRemaining<'info, A>) -> Seq<CpiAccount<'info, A>> {
    seq![
        readonly_signer_meta(params.user_wallet),
        readonly_meta(remaining.authority),
        readonly_meta(remaining.amm_config),
        writable_meta(remaining.pool_state),
        writable_meta(params.in_ata),
        writable_meta(params.out_ata),
        writable_meta(remaining.input_vault),
        writable_meta(remaining.output_vault),
        readonly_meta(remaining.input_token_program),
        readonly_meta(remaining.output_token_program),
        readonly_meta(remaining.input_token_mint),
        readonly_meta(remaining.output_token_mint),
        writable_meta(remaining.observation_state),
    ]
}

/// Discriminator, then the two amounts, little-endian.
pub open spec fn gamma_data(in_amount: u64, minimum_out_amount: u64) -> Seq<u8> {
    SWAP_DISCRIMINATOR@ + spec_u64_to_le_bytes(in_amount) + spec_u64_to_le_bytes(minimum_out_amount)
}

impl Gamma {
    pub fn try_parse_remaining<'info, A>(remaining: &'info [A]) -> (r: Result<GammaSwapRemaining<'info, A>, SwapError>)
        ensures
            remaining@.len() < 11 ==> r == Err::<GammaSwapRemaining<'info, A>, SwapError>(SwapError::NotEnoughAccountKeys),
            remaining@.len() >= 11 ==> (r matches Ok(c) && gamma_remaining_laid_out(c, remaining@)),
    {
        GammaSwapRemaining::try_from(remaining)
    }

    /// The Gamma swap instruction.
    pub fn instruction<'info, A>(params: &SwapParameters<'info, A>, remaining: &GammaSwapRemaining<'info, A>, in_amount: u64, minimum_out_amount: u64, _extra: &()) -> (r: CpiInstruction<'info, A>)
        ensures
            r.program == CpiProgram::<'info, A>::Id(GAMMA_PROGRAM_ID),
            r.accounts@ == gamma_metas(*params, *remaining),
            r.account_infos@ == infos_of(r.accounts@),
            r.data@ == gamma_data(in_amount, minimum_out_amount),
    {
        let mut accounts: Vec<CpiAccount<'info, A>> = Vec::new();
        accounts.push(readonly_signer(params.user_wallet));
        accounts.push(readonly(remaining.authority));
        accounts.push(readonly(remaining.amm_config));
        accounts.push(writable(remaining.pool_state));
        accounts.push(writable(params.in_ata));
        accounts.push(writable(params.out_ata));
        accounts.push(writable(remaining.input_vault));
        accounts.push(writable(remaining.output_vault));
        accounts.push(readonly(remaining.input_token_program));
        accounts.push(readonly(remaining.output_token_program));
        accounts.push(readonly(remaining.input_token_mint));
        accounts.push(readonly(remaining.output_token_mint));
        accounts.push(writable(remaining.observation_state));
        let mut bytes: Vec<u8> = Vec::new();
        push_bytes(&mut bytes, &SWAP_DISCRIMINATOR);
        push_u64_le(&mut bytes, in_amount);
        push_u64_le(&mut bytes, minimum_out_amount);
        let ix = instruction(CpiProgram::Id(GAMMA_PROGRAM_ID), accounts, bytes);
        assert(ix.accounts@ =~= gamma_metas(*params, *remaining));
        assert(ix.data@ =~= gamma_data(in_amount, minimum_out_amount));
        ix
    }

    /// Builds the swap instruction and invokes it with the given signer seeds.
    pub fn swap_with_parameters_signed(params: &SwapParameters<'_, AccountView>, remaining: &GammaSwapRemaining<'_, AccountView>, in_amount: u64, minimum_out_amount: u64, _extra: &(), signer_seeds: &[Signer]) -> (r: Result<(), SwapError>)
        ensures
            r matches Err(e) ==> e is Runtime,
            invoked_with(
                CpiProgram::Id(GAMMA_PROGRAM_ID),
                gamma_metas(*params, *remaining),
                infos_of(gamma_metas(*params, *remaining)),
                gamma_data(in_amount, minimum_out_amount),
                signer_seeds,
                r,
            ),
    {
        let ix = Self::instruction(params, remaining, in_amount, minimum_out_amount, _extra);
        invoke(&ix, signer_seeds)
    }
}

} // verus!
