use vstd::prelude::*;
use vstd::bytes::spec_u64_to_le_bytes;
use solana_account_view::AccountView;
use solana_instruction_view::cpi::Signer;
use crate::bytes::{push_bytes, push_u64_le};
use crate::cpi::{
    CpiAccount, CpiInstruction, CpiProgram, SwapParameters, infos_of, instruction, readonly,
    readonly_meta, readonly_signer, readonly_signer_meta, writable, writable_meta,
};
use crate::error::SwapError;
use crate::runtime::{invoke, invoked_with, mint_unreadable, same_mint_read, same_token_mint};

verus! {

pub const FUTARCHY_PROGRAM_ID: [u8; 32] = [215, 11, 225, 117, 239, 90, 200, 156, 79, 12, 238, 230, 4, 174, 229, 152, 18, 91, 34, 223, 74, 202, 43, 145, 5, 197, 103, 227, 54, 18, 102, 120];

pub const SWAP_DISCRIMINATOR: [u8; 8] = [167, 97, 12, 231, 237, 78, 166, 251];

pub struct Futarchy;

/// The direction of a Futarchy swap.
#[derive(Clone, Copy, Debug, PartialEq, Eq, Structural)]
pub enum SwapType {
    /// Paying in the quote token.
    Buy,
    /// Paying in the base token.
    Sell,
}

/// The byte that encodes `x`: Buy is zero, Sell is one.
pub open spec fn swaptype_byte(x: SwapType) -> u8 {
    match x {
        SwapType::Buy => 0u8,
        SwapType::Sell => 1u8,
    }
}

impl SwapType {
    /// The byte that encodes `self`.
    pub fn to_byte(self) -> (r: u8)
        ensures
            r == swaptype_byte(self),
    {
        match self {
            SwapType::Buy => 0u8,
            SwapType::Sell => 1u8,
        }
    }

    /// The direction of a swap that pays in the base token exactly when `flag` holds.
    pub fn for_flag(flag: bool) -> (r: Self)
        ensures
            r == (if flag { SwapType::Sell } else { SwapType::Buy }),
    {
        if flag { SwapType::Sell } else { SwapType::Buy }
    }
}

pub struct FutarchySwapRemaining<'info, A> {
    pub futarchy_program: &'info A,
    pub dao: &'info A,
    pub amm_base_vault: &'info A,
    pub amm_quote_vault: &'info A,
    pub token_program: &'info A,
    pub event_authority: &'info A,
    pub program: &'info A,
}

/// `c` holds the accounts of `s` in the order of its fields.
pub open spec fn futarchy_remaining_laid_out<'info, A>(c: FutarchySwapRemaining<'info, A>, s: Seq<A>) -> bool {
    &&& *c.futarchy_program == s[0]
    &&& *c.dao == s[1]
    &&& *c.amm_base_vault == s[2]
    &&& *c.amm_quote_vault == s[3]
    &&& *c.token_program == s[4]
    &&& *c.event_authority == s[5]
    &&& *c.program == s[6]
}

impl<'info, A> FutarchySwapRemaining<'info, A> {
    pub fn try_from(accounts: &'info [A]) -> (r: Result<Self, SwapError>)
        ensures
            accounts@.len() < 7 ==> r == Err::<Self, SwapError>(SwapError::NotEnoughAccountKeys),
            accounts@.len() >= 7 ==> (r matches Ok(c) && futarchy_remaining_laid_out(c, accounts@)),
    {
        if accounts.len() < 7 {
            return Err(SwapError::NotEnoughAccountKeys);
        }
        Ok(FutarchySwapRemaining {
            futarchy_program: &accounts[0],
            dao: &accounts[1],
            amm_base_vault: &accounts[2],
            amm_quote_vault: &accounts[3],
            token_program: &accounts[4],
            event_authority: &accounts[5],
            program: &accounts[6],
        })
    }
}

/// The nine accounts of a Futarchy swap; the user's base and quote accounts are the in and out accounts, in the order of the direction.
pub open spec fn futarchy_metas<'info, A>(params: SwapParameters<'info, A>, remaining: FutarchySwapRemaining<'info, A>, is_base_in: bool) -> Seq<CpiAccount<'info, A>> {
    let user_base_account = if is_base_in { params.in_ata } else { params.out_ata };
    let user_quote_account = if is_base_in { params.out_ata } else { params.in_ata };
    seq![
        writable_meta(remaining.dao),
        writable_meta(user_base_account),
        writable_meta(user_quote_account),
        writable_meta(remaining.amm_base_vault),
        writable_meta(remaining.amm_quote_vault),
        readonly_signer_meta(params.user_wallet),
        readonly_meta(remaining.token_program),
        readonly_meta(remaining.event_authority),
        readonly_meta(remaining.program),
    ]
}

/// Discriminator, the in amount, the byte of the direction, then the minimum out amount.
pub open spec fn futarchy_data(in_amount: u64, minimum_out_amount: u64, is_base_in: bool) -> Seq<u8> {
    SWAP_DISCRIMINATOR@ + spec_u64_to_le_bytes(in_amount) + seq![swaptype_byte(if is_base_in { SwapType::Sell } else { SwapType::Buy })] + spec_u64_to_le_bytes(minimum_out_amount)
}

impl Futarchy {
    pub fn try_parse_remaining<'info, A>(remaining: &'info [A]) -> (r: Result<FutarchySwapRemaining<'info, A>, SwapError>)
        ensures
            remaining@.len() < 7 ==> r == Err::<FutarchySwapRemaining<'info, A>, SwapError>(SwapError::NotEnoughAccountKeys),
            remaining@.len() >= 7 ==> (r matches Ok(c) && futarchy_remaining_laid_out(c, remaining@)),
    {
        FutarchySwapRemaining::try_from(remaining)
    }

    /// The Futarchy swap instruction, for a swap that pays in the base token exactly when `is_base_in` holds.
    pub fn instruction<'info, A>(params: &SwapParameters<'info, A>, remaining: &FutarchySwapRemaining<'info, A>, in_amount: u64, minimum_out_amount: u64, _extra: &(), is_base_in: bool) -> (r: CpiInstruction<'info, A>)
        ensures
            r.program == CpiProgram::<'info, A>::Id(FUTARCHY_PROGRAM_ID),
            r.accounts@ == futarchy_metas(*params, *remaining, is_base_in),
            r.account_infos@ == infos_of(r.accounts@),
            r.data@ == futarchy_data(in_amount, minimum_out_amount, is_base_in),
    {
        let (user_base_account, user_quote_account) = if is_base_in { (params.in_ata, params.out_ata) } else { (params.out_ata, params.in_ata) };
        let mut accounts: Vec<CpiAccount<'info, A>> = Vec::new();
        accounts.push(writable(remaining.dao));
        accounts.push(writable(user_base_account));
        accounts.push(writable(user_quote_account));
        accounts.push(writable(remaining.amm_base_vault));
        accounts.push(writable(remaining.amm_quote_vault));
        accounts.push(readonly_signer(params.user_wallet));
        accounts.push(readonly(remaining.token_program));
        accounts.push(readonly(remaining.event_authority));
        accounts.push(readonly(remaining.program));
        let mut bytes: Vec<u8> = Vec::new();
        push_bytes(&mut bytes, &SWAP_DISCRIMINATOR);
        push_u64_le(&mut bytes, in_amount);
        bytes.push(SwapType::for_flag(is_base_in).to_byte());
        push_u64_le(&mut bytes, minimum_out_amount);
        let ix = instruction(CpiProgram::Id(FUTARCHY_PROGRAM_ID), accounts, bytes);
        assert(ix.accounts@ =~= futarchy_metas(*params, *remaining, is_base_in));
        assert(ix.data@ =~= futarchy_data(in_amount, minimum_out_amount, is_base_in));
        ix
    }

    /// Reads the direction from the mints of the in account and the base vault, then invokes the swap.
    pub fn swap_with_parameters_signed(params: &SwapParameters<'_, AccountView>, remaining: &FutarchySwapRemaining<'_, AccountView>, in_amount: u64, minimum_out_amount: u64, _extra: &(), signer_seeds: &[Signer]) -> (r: Result<(), SwapError>)
        ensures
            r matches Err(e) ==> e is Runtime || e == SwapError::InvalidAccountData,
            r == Err::<(), SwapError>(SwapError::InvalidAccountData) ==> mint_unreadable(params.in_ata, remaining.amm_base_vault),
            r != Err::<(), SwapError>(SwapError::InvalidAccountData) ==> exists|is_base_in: bool|
                #[trigger] same_mint_read(params.in_ata, remaining.amm_base_vault, is_base_in)
                && invoked_with(
                    CpiProgram::Id(FUTARCHY_PROGRAM_ID),
                    futarchy_metas(*params, *remaining, is_base_in),
                    infos_of(futarchy_metas(*params, *remaining, is_base_in)),
                    futarchy_data(in_amount, minimum_out_amount, is_base_in),
                    signer_seeds,
                    r,
                ),
    {
        let is_base_in = same_token_mint(params.in_ata, remaining.amm_base_vault)?;
        let ix = Self::instruction(params, remaining, in_amount, minimum_out_amount, _extra, is_base_in);
        invoke(&ix, signer_seeds)
    }
}

} // verus!
