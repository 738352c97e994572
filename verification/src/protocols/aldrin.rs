use vstd::prelude::*;
use vstd::bytes::spec_u64_to_le_bytes;
use solana_account_view::AccountView;
use solana_instruction_view::cpi::Signer;
use crate::bytes::{push_bytes, push_u64_le};
use crate::cpi::{
    CpiAccount, CpiInstruction, CpiProgram, SwapParameters, infos_of, instruction, readonly,
    readonly_meta, readonly_signer, readonly_signer_meta, writable, writable_meta,
};
use crate::error::SwapError;
use crate::runtime::{invoke, invoked_with, mint_unreadable, same_mint_read, same_token_mint};

verus! {

pub const ALDRIN_PROGRAM_ID: [u8; 32] = [138, 239, 125, 247, 227, 166, 116, 164, 62, 209, 129, 86, 34, 14, 3, 6, 250, 71, 135, 139, 147, 32, 126, 36, 149, 229, 158, 237, 187, 218, 76, 161];

pub const SWAP_DISCRIMINATOR: [u8; 8] = [248, 198, 158, 145, 225, 117, 135, 200];

pub struct Aldrin;

/// The side of an Aldrin order.
#[derive(Clone, Copy, Debug, PartialEq, Eq, Structural)]
pub enum Side {
    /// Buying the base token.
    Bid,
    /// Selling the base token.
    Ask,
}

/// The byte that encodes `x`: Bid is zero, Ask is one.
pub open spec fn side_byte(x: Side) -> u8 {
    match x {
        Side::Bid => 0u8,
        Side::Ask => 1u8,
    }
}

impl Side {
    /// The byte that encodes `self`.
    pub fn to_byte(self) -> (r: u8)
        ensures
            r == side_byte(self),
    {
        match self {
            Side::Bid => 0u8,
            Side::Ask => 1u8,
        }
    }

    /// The side of a swap that pays in the base token exactly when `flag` holds.
    pub fn for_flag(flag: bool) -> (r: Self)
        ensures
            r == (if flag { Side::Ask } else { Side::Bid }),
    {
        if flag { Side::Ask } else { Side::Bid }
    }
}

pub struct AldrinSwapRemaining<'info, A> {
    pub aldrin_program: &'info A,
    pub pool: &'info A,
    pub pool_signer: &'info A,
    pub pool_mint: &'info A,
    pub base_token_vault: &'info A,
    pub quote_token_vault: &'info A,
    pub fee_pool_token_account: &'info A,
    pub token_program: &'info A,
}

/// `c` holds the accounts of `s` in the order of its fields.
pub open spec fn aldrin_remaining_laid_out<'info, A>(c: AldrinSwapRemaining<'info, A>, s: Seq<A>) -> bool {
    &&& *c.aldrin_program == s[0]
    &&& *c.pool == s[1]
    &&& *c.pool_signer == s[2]
    &&& *c.pool_mint == s[3]
    &&& *c.base_token_vault == s[4]
    &&& *c.quote_token_vault == s[5]
    &&& *c.fee_pool_token_account == s[6]
    &&& *c.token_program == s[7]
}

impl<'info, A> AldrinSwapRemaining<'info, A> {
    pub fn try_from(accounts: &'info [A]) -> (r: Result<Self, SwapError>)
        ensures
            accounts@.len() < 8 ==> r == Err::<Self, SwapError>(SwapError::NotEnoughAccountKeys),
            accounts@.len() >= 8 ==> (r matches Ok(c) && aldrin_remaining_laid_out(c, accounts@)),
    {
        if accounts.len() < 8 {
            return Err(SwapError::NotEnoughAccountKeys);
        }
        Ok(AldrinSwapRemaining {
            aldrin_program: &accounts[0],
            pool: &accounts[1],
            pool_signer: &accounts[2],
            pool_mint: &accounts[3],
            base_token_vault: &accounts[4],
            quote_token_vault: &accounts[5],
            fee_pool_token_account: &accounts[6],
            token_program: &accounts[7],
        })
    }
}

/// The ten accounts of an Aldrin swap; the user's base and quote token accounts are the in and out accounts, in the order of the side.
pub open spec fn aldrin_metas<'info, A>(params: SwapParameters<'info, A>, remaining: AldrinSwapRemaining<'info, A>, is_base_in: bool) -> Seq<CpiAccount<'info, A>> {
    let user_base_token_account = if is_base_in { params.in_ata } else { params.out_ata };
    let user_quote_token_account = if is_base_in { params.out_ata } else { params.in_ata };
    seq![
        readonly_meta(remaining.pool),
        readonly_meta(remaining.pool_signer),
        writable_meta(remaining.pool_mint),
        writable_meta(remaining.base_token_vault),
        writable_meta(remaining.quote_token_vault),
        writable_meta(remaining.fee_pool_token_account),
        readonly_signer_meta(params.user_wallet),
        writable_meta(user_base_token_account),
        writable_meta(user_quote_token_account),
        readonly_meta(remaining.token_program),
    ]
}

/// Discriminator, the two amounts, little-endian, then the byte of the side.
pub open spec fn aldrin_data(in_amount: u64, minimum_out_amount: u64, is_base_in: bool) -> Seq<u8> {
    SWAP_DISCRIMINATOR@ + spec_u64_to_le_bytes(in_amount) + spec_u64_to_le_bytes(minimum_out_amount) + seq![side_byte(if is_base_in { Side::Ask } else { Side::Bid })]
}

impl Aldrin {
    pub fn try_parse_remaining<'info, A>(remaining: &'info [A]) -> (r: Result<AldrinSwapRemaining<'info, A>, SwapError>)
        ensures
            remaining@.len() < 8 ==> r == Err::<AldrinSwapRemaining<'info, A>, SwapError>(SwapError::NotEnoughAccountKeys),
            remaining@.len() >= 8 ==> (r matches Ok(c) && aldrin_remaining_laid_out(c, remaining@)),
    {
        AldrinSwapRemaining::try_from(remaining)
    }

    /// The Aldrin swap instruction, for a swap that pays in the base token exactly when `is_base_in` holds.
    pub fn instruction<'info, A>(params: &SwapParameters<'info, A>, remaining: &AldrinSwapRemaining<'info, A>, in_amount: u64, minimum_out_amount: u64, _extra: &(), is_base_in: bool) -> (r: CpiInstruction<'info, A>)
        ensures
            r.program == CpiProgram::<'info, A>::Id(ALDRIN_PROGRAM_ID),
            r.accounts@ == aldrin_metas(*params, *remaining, is_base_in),
            r.account_infos@ == infos_of(r.accounts@),
            r.data@ == aldrin_data(in_amount, minimum_out_amount, is_base_in),
    {
        let (user_base_token_account, user_quote_token_account) = if is_base_in { (params.in_ata, params.out_ata) } else { (params.out_ata, params.in_ata) };
        let mut accounts: Vec<CpiAccount<'info, A>> = Vec::new();
        accounts.push(readonly(remaining.pool));
        accounts.push(readonly(remaining.pool_signer));
        accounts.push(writable(remaining.pool_mint));
        accounts.push(writable(remaining.base_token_vault));
        accounts.push(writable(remaining.quote_token_vault));
        accounts.push(writable(remaining.fee_pool_token_account));
        accounts.push(readonly_signer(params.user_wallet));
        accounts.push(writable(user_base_token_account));
        accounts.push(writable(user_quote_token_account));
        accounts.push(readonly(remaining.token_program));
        let mut bytes: Vec<u8> = Vec::new();
        push_bytes(&mut bytes, &SWAP_DISCRIMINATOR);
        push_u64_le(&mut bytes, in_amount);
        push_u64_le(&mut bytes, minimum_out_amount);
        bytes.push(Side::for_flag(is_base_in).to_byte());
        let ix = instruction(CpiProgram::Id(ALDRIN_PROGRAM_ID), accounts, bytes);
        assert(ix.accounts@ =~= aldrin_metas(*params, *remaining, is_base_in));
        assert(ix.data@ =~= aldrin_data(in_amount, minimum_out_amount, is_base_in));
        ix
    }

    /// Reads which side the swap takes from the mints of the in account and
    /// the base vault, then invokes the swap: the base goes in exactly where
    /// the in account's mint is the base vault's.
    pub fn swap_with_parameters_signed(params: &SwapParameters<'_, AccountView>, remaining: &AldrinSwapRemaining<'_, AccountView>, in_amount: u64, minimum_out_amount: u64, _extra: &(), signer_seeds: &[Signer]) -> (r: Result<(), SwapError>)
        ensures
            r matches Err(e) ==> e is Runtime || e == SwapError::InvalidAccountData,
            r == Err::<(), SwapError>(SwapError::InvalidAccountData) ==> mint_unreadable(params.in_ata, remaining.base_token_vault),
            r != Err::<(), SwapError>(SwapError::InvalidAccountData) ==> exists|is_base_in: bool|
                #[trigger] same_mint_read(params.in_ata, remaining.base_token_vault, is_base_in)
                && invoked_with(
                    CpiProgram::Id(ALDRIN_PROGRAM_ID),
                    aldrin_metas(*params, *remaining, is_base_in),
                    infos_of(aldrin_metas(*params, *remaining, is_base_in)),
                    aldrin_data(in_amount, minimum_out_amount, is_base_in),
                    signer_seeds,
                    r,
                ),
    {
        let is_base_in = same_token_mint(params.in_ata, remaining.base_token_vault)?;
        let ix = Self::instruction(params, remaining, in_amount, minimum_out_amount, _extra, is_base_in);
        invoke(&ix, signer_seeds)
    }
}

/// Whatever a parameterised Aldrin swap comes to, short of an unreadable
/// mint, is the result of invoking the swap instruction that pays in the base
/// token exactly where the mints read for the in account and the base vault
/// agree: an ask when they do, a bid when they do not.
pub proof fn lemma_aldrin_side_follows_the_in_mint(
    params: &SwapParameters<'_, AccountView>,
    remaining: &AldrinSwapRemaining<'_, AccountView>,
    in_amount: u64,
    minimum_out_amount: u64,
    signer_seeds: &[Signer],
    r: Result<(), SwapError>,
)
    requires
        call_ensures(Aldrin::swap_with_parameters_signed, (params, remaining, in_amount, minimum_out_amount, &(), signer_seeds), r),
        r != Err::<(), SwapError>(SwapError::InvalidAccountData),
    ensures
        exists|is_base_in: bool| #[trigger] same_mint_read(params.in_ata, remaining.base_token_vault, is_base_in)
            && aldrin_data(in_amount, minimum_out_amount, is_base_in)[24] == (if is_base_in { 1u8 } else { 0u8 })
            && invoked_with(
                CpiProgram::Id(ALDRIN_PROGRAM_ID),
                aldrin_metas(*params, *remaining, is_base_in),
                infos_of(aldrin_metas(*params, *remaining, is_base_in)),
                aldrin_data(in_amount, minimum_out_amount, is_base_in),
                signer_seeds,
                r,
            ),
{
    vstd::bytes::lemma_auto_spec_u64_to_from_le_bytes();
    assert forall|b: bool| #[trigger] aldrin_data(in_amount, minimum_out_amount, b)[24] == (if b { 1u8 } else { 0u8 }) by {
        assert(aldrin_data(in_amount, minimum_out_amount, b).len() == 25);
    }
}

} // verus!
