use vstd::prelude::*;
use vstd::bytes::spec_u64_to_le_bytes;
use solana_account_view::AccountView;
use solana_instruction_view::cpi::Signer;
use crate::bytes::{push_bytes, push_u64_le};
use crate::cpi::{
    CpiAccount, CpiInstruction, CpiProgram, SwapParameters, infos_of, instruction, readonly,
    readonly_meta, writable, writable_meta, writable_signer, writable_signer_meta,
};
use crate::error::SwapError;
use crate::runtime::{invoke, invoked_with};

verus! {

pub const PERENA_PROGRAM_ID: [u8; 32] = [5, 128, 30, 210, 87, 131, 139, 203, 251, 104, 119, 72, 174, 77, 226, 246, 165, 202, 252, 173, 198, 18, 19, 188, 228, 254, 70, 176, 40, 238, 138, 130];

pub const SWAP_DISCRIMINATOR: [u8; 8] = [104, 104, 131, 86, 161, 189, 180, 216];

pub struct Perena;

pub struct PerenaSwapRemaining<'info, A> {
    pub perena_program: &'info A,
    pub pool: &'info A,
    pub in_vault: &'info A,
    pub out_vault: &'info A,
    pub numeraire_config: &'info A,
    pub token_program: &'info A,
    pub token_2022_program: &'info A,
    pub mint_in: &'info A,
    pub mint_out: &'info A,
}

/// `c` holds the accounts of `s` in the order of its fields.
pub open spec fn perena_remaining_laid_out<'info, A>(c: PerenaSwapRemaining<'info, A>, s: Seq<A>) -> bool {
    &&& *c.perena_program == s[0]
    &&& *c.pool == s[1]
    &&& *c.in_vault == s[2]
    &&& *c.out_vault == s[3]
    &&& *c.numeraire_config == s[4]
    &&& *c.token_program == s[5]
    &&& *c.token_2022_program == s[6]
    &&& *c.mint_in == s[7]
    &&& *c.mint_out == s[8]
}

impl<'info, A> PerenaSwapRemaining<'info, A> {
    pub fn try_from(accounts: &'info [A]) -> (r: Result<Self, SwapError>)
        ensures
            accounts@.len() < 9 ==> r == Err::<Self, SwapError>(SwapError::NotEnoughAccountKeys),
            accounts@.len() >= 9 ==> (r matches Ok(c) && perena_remaining_laid_out(c, accounts@)),
    {
        if accounts.len() < 9 {
            return Err(SwapError::NotEnoughAccountKeys);
        }
        Ok(PerenaSwapRemaining {
            perena_program: &accounts[0],
            pool: &accounts[1],
            in_vault: &accounts[2],
            out_vault: &accounts[3],
            numeraire_config: &accounts[4],
            token_program: &accounts[5],
            token_2022_program: &accounts[6],
            mint_in: &accounts[7],
            mint_out: &accounts[8],
        })
    }
}

/// The pool indices of the tokens paid in and out.
#[derive(Clone, Copy, Debug, PartialEq, Eq, Structural)]
pub struct PerenaSwapExtra {
    pub in_index: u8,
    pub out_index: u8,
}

impl PerenaSwapExtra {
    /// The two indices are the first two bytes.
    pub fn try_from(data: &[u8]) -> (r: Result<Self, SwapError>)
        ensures
            data@.len() < 2 ==> r == Err::<Self, SwapError>(SwapError::InvalidInstructionData),
            data@.len() >= 2 ==> r == Ok::<Self, SwapError>(PerenaSwapExtra { in_index: data@[0], out_index: data@[1] }),
    {
        if data.len() < 2 {
            return Err(SwapError::InvalidInstructionData);
        }
        Ok(PerenaSwapExtra { in_index: data[0], out_index: data[1] })
    }
}

/// The eleven accounts of a Perena swap.
pub open spec fn perena_metas<'info, A>(params: SwapParameters<'info, A>, remaining: PerenaSwapRemaining<'info, A>) -> Seq<CpiAccount<'info, A>> {
    seq![
        writable_meta(remaining.pool),
        writable_meta(remaining.mint_in),
        writable_meta(remaining.mint_out),
        writable_meta(params.in_ata),
        writable_meta(params.out_ata),
        writable_meta(remaining.in_vault),
        writable_meta(remaining.out_vault),
        readonly_meta(remaining.numeraire_config),
        writable_signer_meta(params.user_wallet),
        readonly_meta(remaining.token_program),
        readonly_meta(remaining.token_2022_program),
    ]
}

/// Discriminator, the two pool indices, then the two amounts, little-endian.
pub open spec fn perena_data(in_amount: u64, minimum_out_amount: u64, extra: PerenaSwapExtra) -> Seq<u8> {
    SWAP_DISCRIMINATOR@ + seq![extra.in_index, extra.out_index] + spec_u64_to_le_bytes(in_amount) + spec_u64_to_le_bytes(minimum_out_amount)
}

impl Perena {
    pub fn try_parse_remaining<'info, A>(remaining: &'info [A]) -> (r: Result<PerenaSwapRemaining<'info, A>, SwapError>)
        ensures
            remaining@.len() < 9 ==> r == Err::<PerenaSwapRemaining<'info, A>, SwapError>(SwapError::NotEnoughAccountKeys),
            remaining@.len() >= 9 ==> (r matches Ok(c) && perena_remaining_laid_out(c, remaining@)),
    {
        PerenaSwapRemaining::try_from(remaining)
    }

    /// The Perena swap instruction.
    pub fn instruction<'info, A>(params: &SwapParameters<'info, A>, remaining: &PerenaSwapRemaining<'info, A>, in_amount: u64, minimum_out_amount: u64, extra: &PerenaSwapExtra) -> (r: CpiInstruction<'info, A>)
        ensures
            r.program == CpiProgram::<'info, A>::Id(PERENA_PROGRAM_ID),
            r.accounts@ == perena_metas(*params, *remaining),
            r.account_infos@ == infos_of(r.accounts@),
            r.data@ == perena_data(in_amount, minimum_out_amount, *extra),
    {
        let mut accounts: Vec<CpiAccount<'info, A>> = Vec::new();
        accounts.push(writable(remaining.pool));
        accounts.push(writable(remaining.mint_in));
        accounts.push(writable(remaining.mint_out));
        accounts.push(writable(params.in_ata));
        accounts.push(writable(params.out_ata));
        accounts.push(writable(remaining.in_vault));
        accounts.push(writable(remaining.out_vault));
        accounts.push(readonly(remaining.numeraire_config));
        accounts.push(writable_signer(params.user_wallet));
        accounts.push(readonly(remaining.token_program));
        accounts.push(readonly(remaining.token_2022_program));
        let mut bytes: Vec<u8> = Vec::new();
        push_bytes(&mut bytes, &SWAP_DISCRIMINATOR);
        bytes.push(extra.in_index);
        bytes.push(extra.out_index);
        push_u64_le(&mut bytes, in_amount);
        push_u64_le(&mut bytes, minimum_out_amount);
        let ix = instruction(CpiProgram::Id(PERENA_PROGRAM_ID), accounts, bytes);
        assert(ix.accounts@ =~= perena_metas(*params, *remaining));
        assert(ix.data@ =~= perena_data(in_amount, minimum_out_amount, *extra));
        ix
    }

    /// Builds the swap instruction and invokes it with the given signer seeds.
    pub fn swap_with_parameters_signed(params: &SwapParameters<'_, AccountView>, remaining: &PerenaSwapRemaining<'_, AccountView>, in_amount: u64, minimum_out_amount: u64, extra: &PerenaSwapExtra, signer_seeds: &[Signer]) -> (r: Result<(), SwapError>)
        ensures
            r matches Err(e) ==> e is Runtime,
            invoked_with(
                CpiProgram::Id(PERENA_PROGRAM_ID),
                perena_metas(*params, *remaining),
                infos_of(perena_metas(*params, *remaining)),
                perena_data(in_amount, minimum_out_amount, *extra),
                signer_seeds,
                r,
            ),
    {
        let ix = Self::instruction(params, remaining, in_amount, minimum_out_amount, extra);
        invoke(&ix, signer_seeds)
    }
}

} // verus!
