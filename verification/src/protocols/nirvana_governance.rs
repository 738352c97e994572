use vstd::prelude::*;
use vstd::bytes::spec_u64_to_le_bytes;
use solana_account_view::AccountView;
use solana_instruction_view::cpi::Signer;
use crate::bytes::{bytes32_eq, push_bytes, push_u64_le};
use crate::cpi::{
    CpiAccount, CpiInstruction, CpiProgram, infos_of, instruction, readonly, readonly_meta,
    writable, writable_meta, writable_signer, writable_signer_meta,
};
use crate::error::SwapError;
use crate::runtime::{address_read, invoke, invoked_with, read_address};

verus! {

pub const NIRVANA_GOVERNANCE_PROGRAM_ID: [u8; 32] = [5, 144, 135, 108, 143, 65, 193, 157, 145, 190, 39, 52, 171, 128, 30, 19, 41, 58, 105, 246, 38, 58, 227, 111, 233, 111, 63, 140, 169, 34, 58, 174];

/// The NIRV mint; a swap whose sixth account is this mint buys.
pub const NIRV_MINT: [u8; 32] = [39, 88, 11, 202, 81, 56, 105, 85, 180, 95, 80, 62, 187, 123, 201, 158, 221, 206, 128, 73, 171, 47, 141, 1, 167, 236, 39, 164, 55, 18, 216, 136];

pub const BUY_EXACT2_DISCRIMINATOR: [u8; 8] = [109, 5, 199, 243, 164, 233, 19, 152];
pub const SELL2_DISCRIMINATOR: [u8; 8] = [47, 191, 120, 1, 28, 35, 253, 79];

pub struct NirvanaGovernance;

pub struct NirvanaGovernanceSwapHeadAccounts<'info, A> {
    pub nirvana_program: &'info A,
    pub payer: &'info A,
    pub tenant: &'info A,
    pub price_curve: &'info A,
    pub mint_ana: &'info A,
}

pub enum NirvanaGovernanceSwapBodyAccounts<'info, A> {
    BuyExact2 {
        mint_niv: &'info A,
        mint_main: &'info A,
        backing_vault_main: &'info A,
        backing_vault_nirv: &'info A,
        escrow_rev_ana: &'info A,
        backing_src: &'info A,
        ana_dst: &'info A,
    },
    Sell2 {
        backing_dst: &'info A,
        escrow_rev_ana: &'info A,
        backing_vault_main: &'info A,
        backing_vault_nirv: &'info A,
        ana_src: &'info A,
        mint_nirv: &'info A,
        mint_main: &'info A,
    },
}

pub struct NirvanaGovernanceSwapLegAccounts<'info, A> {
    pub token_program: &'info A,
    pub token_program_main: &'info A,
}

pub struct NirvanaGovernanceSwapAccounts<'info, A> {
    pub head: NirvanaGovernanceSwapHeadAccounts<'info, A>,
    pub body: NirvanaGovernanceSwapBodyAccounts<'info, A>,
    pub leg: NirvanaGovernanceSwapLegAccounts<'info, A>,
}

/// `c` holds the fourteen accounts of `s` in the order of its fields.
pub open spec fn nirvana_governance_accounts_laid_out<'info, A>(c: NirvanaGovernanceSwapAccounts<'info, A>, s: Seq<A>) -> bool {
    &&& *c.head.nirvana_program == s[0]
    &&& *c.head.payer == s[1]
    &&& *c.head.tenant == s[2]
    &&& *c.head.price_curve == s[3]
    &&& *c.head.mint_ana == s[4]
    &&& *c.leg.token_program == s[12]
    &&& *c.leg.token_program_main == s[13]
    &&& match c.body {
        NirvanaGovernanceSwapBodyAccounts::BuyExact2 { mint_niv, mint_main, backing_vault_main, backing_vault_nirv, escrow_rev_ana, backing_src, ana_dst } => {
            &&& *mint_niv == s[5]
            &&& *mint_main == s[6]
            &&& *backing_vault_main == s[7]
            &&& *backing_vault_nirv == s[8]
            &&& *escrow_rev_ana == s[9]
            &&& *backing_src == s[10]
            &&& *ana_dst == s[11]
        },
        NirvanaGovernanceSwapBodyAccounts::Sell2 { backing_dst, escrow_rev_ana, backing_vault_main, backing_vault_nirv, ana_src, mint_nirv, mint_main } => {
            &&& *backing_dst == s[5]
            &&& *escrow_rev_ana == s[6]
            &&& *backing_vault_main == s[7]
            &&& *backing_vault_nirv == s[8]
            &&& *ana_src == s[9]
            &&& *mint_nirv == s[10]
            &&& *mint_main == s[11]
        },
    }
}

impl<'info, A> NirvanaGovernanceSwapAccounts<'info, A> {
    pub const NUM_ACCOUNTS: usize = 14;

    /// Fourteen accounts; a buy where `sixth_address`, the address of the
    /// sixth account, is that of the NIRV mint, else a sell.
    pub fn try_from_probed(accounts: &'info [A], sixth_address: &[u8; 32]) -> (r: Result<Self, SwapError>)
        ensures
            accounts@.len() != Self::NUM_ACCOUNTS ==> r == Err::<Self, SwapError>(SwapError::NotEnoughAccountKeys),
            accounts@.len() == Self::NUM_ACCOUNTS ==> (r matches Ok(c) && nirvana_governance_accounts_laid_out(c, accounts@)
                && (c.body is BuyExact2 <==> sixth_address@ == NIRV_MINT@)),
    {
        if accounts.len() != Self::NUM_ACCOUNTS {
            return Err(SwapError::NotEnoughAccountKeys);
        }
        let head = NirvanaGovernanceSwapHeadAccounts {
            nirvana_program: &accounts[0],
            payer: &accounts[1],
            tenant: &accounts[2],
            price_curve: &accounts[3],
            mint_ana: &accounts[4],
        };
        let body = if bytes32_eq(sixth_address, &NIRV_MINT) {
            NirvanaGovernanceSwapBodyAccounts::BuyExact2 {
                mint_niv: &accounts[5],
                mint_main: &accounts[6],
                backing_vault_main: &accounts[7],
                backing_vault_nirv: &accounts[8],
                escrow_rev_ana: &accounts[9],
                backing_src: &accounts[10],
                ana_dst: &accounts[11],
            }
        } else {
            NirvanaGovernanceSwapBodyAccounts::Sell2 {
                backing_dst: &accounts[5],
                escrow_rev_ana: &accounts[6],
                backing_vault_main: &accounts[7],
                backing_vault_nirv: &accounts[8],
                ana_src: &accounts[9],
                mint_nirv: &accounts[10],
                mint_main: &accounts[11],
            }
        };
        let leg = NirvanaGovernanceSwapLegAccounts { token_program: &accounts[12], token_program_main: &accounts[13] };
        Ok(NirvanaGovernanceSwapAccounts { head, body, leg })
    }
}

impl<'info> NirvanaGovernanceSwapAccounts<'info, AccountView> {
    /// Fourteen accounts; a buy where the sixth account is the NIRV mint, else a sell.
    pub fn try_from(accounts: &'info [AccountView]) -> (r: Result<Self, SwapError>)
        ensures
            accounts@.len() != Self::NUM_ACCOUNTS ==> r == Err::<Self, SwapError>(SwapError::NotEnoughAccountKeys),
            accounts@.len() == Self::NUM_ACCOUNTS ==> (r matches Ok(c) && nirvana_governance_accounts_laid_out(c, accounts@)),
            accounts@.len() == Self::NUM_ACCOUNTS ==> exists|probe: [u8; 32]| #[trigger] address_read(&accounts@[5], probe)
                && (r matches Ok(c) && (c.body is BuyExact2 <==> probe@ == NIRV_MINT@)),
    {
        if accounts.len() != Self::NUM_ACCOUNTS {
            return Err(SwapError::NotEnoughAccountKeys);
        }
        let probe = read_address(&accounts[5]);
        Self::try_from_probed(accounts, &probe)
    }
}

/// The thirteen accounts of the instruction; the price curve is writable on
/// a sell only, and the program account is not passed on.
pub open spec fn nirvana_governance_metas<'info, A>(ctx: NirvanaGovernanceSwapAccounts<'info, A>) -> Seq<CpiAccount<'info, A>> {
    seq![
        writable_signer_meta(ctx.head.payer),
        writable_meta(ctx.head.tenant),
        if ctx.body is BuyExact2 { readonly_meta(ctx.head.price_curve) } else { writable_meta(ctx.head.price_curve) },
        writable_meta(ctx.head.mint_ana),
    ] + match ctx.body {
        NirvanaGovernanceSwapBodyAccounts::BuyExact2 { mint_niv, mint_main, backing_vault_main, backing_vault_nirv, escrow_rev_ana, backing_src, ana_dst } => seq![
            readonly_meta(mint_niv),
            readonly_meta(mint_main),
            writable_meta(backing_vault_main),
            writable_meta(backing_vault_nirv),
            writable_meta(escrow_rev_ana),
            writable_meta(backing_src),
            writable_meta(ana_dst),
        ],
        NirvanaGovernanceSwapBodyAccounts::Sell2 { backing_dst, escrow_rev_ana, backing_vault_main, backing_vault_nirv, ana_src, mint_nirv, mint_main } => seq![
            writable_meta(backing_dst),
            writable_meta(escrow_rev_ana),
            writable_meta(backing_vault_main),
            writable_meta(backing_vault_nirv),
            writable_meta(ana_src),
            readonly_meta(mint_nirv),
            readonly_meta(mint_main),
        ],
    } + seq![
        readonly_meta(ctx.leg.token_program),
        readonly_meta(ctx.leg.token_program_main),
    ]
}

/// Discriminator of the side, then the two amounts, little-endian.
pub open spec fn nirvana_governance_data<'info, A>(ctx: NirvanaGovernanceSwapAccounts<'info, A>, in_amount: u64, minimum_out_amount: u64) -> Seq<u8> {
    (if ctx.body is BuyExact2 { BUY_EXACT2_DISCRIMINATOR@ } else { SELL2_DISCRIMINATOR@ })
        + spec_u64_to_le_bytes(in_amount) + spec_u64_to_le_bytes(minimum_out_amount)
}

impl NirvanaGovernance {
    /// The Nirvana governance buy or sell instruction.
    pub fn instruction<'info, A>(ctx: &NirvanaGovernanceSwapAccounts<'info, A>, in_amount: u64, minimum_out_amount: u64, _data: &()) -> (ix: CpiInstruction<'info, A>)
        ensures
            ix.program == CpiProgram::<'info, A>::Id(NIRVANA_GOVERNANCE_PROGRAM_ID),
            ix.accounts@ == nirvana_governance_metas(*ctx),
            ix.account_infos@ == infos_of(ix.accounts@),
            ix.data@ == nirvana_governance_data(*ctx, in_amount, minimum_out_amount),
    {
        let mut accounts: Vec<CpiAccount<'info, A>> = Vec::new();
        let mut bytes: Vec<u8> = Vec::new();
        accounts.push(writable_signer(ctx.head.payer));
        accounts.push(writable(ctx.head.tenant));
        match &ctx.body {
            NirvanaGovernanceSwapBodyAccounts::BuyExact2 { .. } => accounts.push(readonly(ctx.head.price_curve)),
            NirvanaGovernanceSwapBodyAccounts::Sell2 { .. } => accounts.push(writable(ctx.head.price_curve)),
        }
        accounts.push(writable(ctx.head.mint_ana));
        match &ctx.body {
            NirvanaGovernanceSwapBodyAccounts::BuyExact2 { mint_niv, mint_main, backing_vault_main, backing_vault_nirv, escrow_rev_ana, backing_src, ana_dst } => {
                accounts.push(readonly(*mint_niv));
                accounts.push(readonly(*mint_main));
                accounts.push(writable(*backing_vault_main));
                accounts.push(writable(*backing_vault_nirv));
                accounts.push(writable(*escrow_rev_ana));
                accounts.push(writable(*backing_src));
                accounts.push(writable(*ana_dst));
                push_bytes(&mut bytes, &BUY_EXACT2_DISCRIMINATOR);
            },
            NirvanaGovernanceSwapBodyAccounts::Sell2 { backing_dst, escrow_rev_ana, backing_vault_main, backing_vault_nirv, ana_src, mint_nirv, mint_main } => {
                accounts.push(writable(*backing_dst));
                accounts.push(writable(*escrow_rev_ana));
                accounts.push(writable(*backing_vault_main));
                accounts.push(writable(*backing_vault_nirv));
                accounts.push(writable(*ana_src));
                accounts.push(readonly(*mint_nirv));
                accounts.push(readonly(*mint_main));
                push_bytes(&mut bytes, &SELL2_DISCRIMINATOR);
            },
        }
        accounts.push(readonly(ctx.leg.token_program));
        accounts.push(readonly(ctx.leg.token_program_main));
        push_u64_le(&mut bytes, in_amount);
        push_u64_le(&mut bytes, minimum_out_amount);
        let ix = instruction(CpiProgram::Id(NIRVANA_GOVERNANCE_PROGRAM_ID), accounts, bytes);
        assert(ix.accounts@ =~= nirvana_governance_metas(*ctx));
        assert(ix.data@ =~= nirvana_governance_data(*ctx, in_amount, minimum_out_amount));
        ix
    }

    /// Builds the instruction and invokes it with the given signer seeds.
    pub fn swap_signed(ctx: &NirvanaGovernanceSwapAccounts<'_, AccountView>, in_amount: u64, minimum_out_amount: u64, data: &(), signer_seeds: &[Signer]) -> (r: Result<(), SwapError>)
        ensures
            r matches Err(e) ==> e is Runtime,
            invoked_with(
                    CpiProgram::Id(NIRVANA_GOVERNANCE_PROGRAM_ID),
                    nirvana_governance_metas(*ctx),
                    infos_of(nirvana_governance_metas(*ctx)),
                    nirvana_governance_data(*ctx, in_amount, minimum_out_amount),
                    signer_seeds,
                    r,
                ),
    {
        let ix = Self::instruction(ctx, in_amount, minimum_out_amount, data);
        invoke(&ix, signer_seeds)
    }

    /// `swap_signed` without signer seeds.
    pub fn swap(ctx: &NirvanaGovernanceSwapAccounts<'_, AccountView>, in_amount: u64, minimum_out_amount: u64, data: &()) -> (r: Result<(), SwapError>)
        ensures
            r matches Err(e) ==> e is Runtime,
            invoked_with(
                    CpiProgram::Id(NIRVANA_GOVERNANCE_PROGRAM_ID),
                    nirvana_governance_metas(*ctx),
                    infos_of(nirvana_governance_metas(*ctx)),
                    nirvana_governance_data(*ctx, in_amount, minimum_out_amount),
                    &[],
                    r,
                ),
    {
        Self::swap_signed(ctx, in_amount, minimum_out_amount, data, &[])
    }
}

/// Of fourteen accounts, whatever `try_from` makes is a buy exactly where the
/// address read for the sixth account is the NIRV mint, and a sell otherwise.
pub proof fn lemma_nirvana_side_follows_the_sixth_address<'info>(
    accounts: &'info [AccountView],
    r: Result<NirvanaGovernanceSwapAccounts<'info, AccountView>, SwapError>,
)
    requires
        call_ensures(NirvanaGovernanceSwapAccounts::<'info, AccountView>::try_from, (accounts,), r),
        accounts@.len() == 14,
    ensures
        exists|probe: [u8; 32]| #[trigger] address_read(&accounts@[5], probe) && (r matches Ok(c) && {
            &&& c.body is BuyExact2 <==> probe@ == NIRV_MINT@
            &&& c.body is Sell2 <==> probe@ != NIRV_MINT@
        }),
{
}

} // verus!
