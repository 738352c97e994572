use vstd::prelude::*;
use vstd::bytes::spec_u64_to_le_bytes;
use solana_account_view::AccountView;
use solana_instruction_view::cpi::Signer;
use crate::bytes::{bytes32_eq, push_bytes, push_u64_le};
use crate::cpi::{
    CpiAccount, CpiInstruction, CpiProgram, infos_of, instruction, readonly, readonly_meta,
    writable, writable_meta, writable_signer, writable_signer_meta,
};
use crate::error::SwapError;
use crate::runtime::{address_read, invoke, invoked_with, read_address};

verus! {

pub const SYNATRA_PROGRAM_ID: [u8; 32] = [13, 15, 63, 158, 206, 131, 143, 107, 72, 229, 83, 116, 202, 37, 41, 252, 155, 134, 7, 140, 98, 132, 125, 107, 71, 110, 63, 51, 253, 184, 250, 165];

/// The ySOL mint; a swap whose fifth account is this mint stakes SOL.
pub const YSOL_MINT: [u8; 32] = [14, 145, 245, 14, 239, 168, 208, 226, 220, 246, 39, 226, 120, 162, 67, 182, 85, 203, 216, 234, 215, 255, 112, 222, 75, 144, 65, 36, 229, 1, 83, 3];

pub const STAKE_SOL_DISCRIMINATOR: [u8; 8] = [200, 38, 157, 155, 245, 57, 236, 168];
pub const STAKE_TOKEN_DISCRIMINATOR: [u8; 8] = [191, 127, 193, 101, 37, 96, 87, 211];

pub const STAKE_SOL_ACCOUNTS_LEN: usize = 8;
pub const STAKE_TOKEN_ACCOUNTS_LEN: usize = 11;
pub const MAX_ACCOUNTS: usize = 11;

pub struct Synatra;

pub struct SynatraSwapBaseAccounts<'info, A> {
    pub synatra_program: &'info A,
    pub signer: &'info A,
    pub payer: &'info A,
    pub pool: &'info A,
}

pub struct SynatraStakeLegAccounts<'info, A> {
    pub associated_token_program: &'info A,
    pub token_program: &'info A,
    pub system_program: &'info A,
}

pub enum SynatraSwapType<'info, A> {
    StakeSol {
        receipt_token: &'info A,
        user_receipt_ata: &'info A,
    },
    StakeToken {
        stake_token: &'info A,
        receipt_token: &'info A,
        user_token_ata: &'info A,
        user_receipt_ata: &'info A,
        pool_token_ata: &'info A,
    },
}

pub struct SynatraSwapAccounts<'info, A> {
    pub base: SynatraSwapBaseAccounts<'info, A>,
    pub swap_type: SynatraSwapType<'info, A>,
    pub leg: SynatraStakeLegAccounts<'info, A>,
}

/// `c` holds the accounts of `s`: the four base accounts, the two accounts of
/// a SOL stake or the five of a token stake, then the three programs.
pub open spec fn synatra_accounts_laid_out<'info, A>(c: SynatraSwapAccounts<'info, A>, s: Seq<A>) -> bool {
    let t: int = if c.swap_type is StakeSol { 6 } else { 9 };
    &&& *c.base.synatra_program == s[0]
    &&& *c.base.signer == s[1]
    &&& *c.base.payer == s[2]
    &&& *c.base.pool == s[3]
    &&& match c.swap_type {
        SynatraSwapType::StakeSol { receipt_token, user_receipt_ata } => {
            &&& *receipt_token == s[4]
            &&& *user_receipt_ata == s[5]
        },
        SynatraSwapType::StakeToken { stake_token, receipt_token, user_receipt_ata, user_token_ata, pool_token_ata } => {
            &&& *stake_token == s[4]
            &&& *receipt_token == s[5]
            &&& *user_receipt_ata == s[6]
            &&& *user_token_ata == s[7]
            &&& *pool_token_ata == s[8]
        },
    }
    &&& *c.leg.associated_token_program == s[t + 0]
    &&& *c.leg.token_program == s[t + 1]
    &&& *c.leg.system_program == s[t + 2]
}

impl<'info, A> SynatraSwapAccounts<'info, A> {
    pub const MIN_NUM_ACCOUNTS: usize = 9;

    /// A SOL stake where `fifth_address`, the address of the fifth account,
    /// is that of the ySOL mint, else a token stake, which takes twelve
    /// accounts: a token stake with fewer is refused.
    pub fn try_from_probed(accounts: &'info [A], fifth_address: &[u8; 32]) -> (r: Result<Self, SwapError>)
        ensures
            accounts@.len() < Self::MIN_NUM_ACCOUNTS ==> r == Err::<Self, SwapError>(SwapError::NotEnoughAccountKeys),
            accounts@.len() >= Self::MIN_NUM_ACCOUNTS && fifth_address@ == YSOL_MINT@
                ==> (r matches Ok(c) && synatra_accounts_laid_out(c, accounts@) && c.swap_type is StakeSol),
            accounts@.len() >= Self::MIN_NUM_ACCOUNTS && accounts@.len() < 12 && fifth_address@ != YSOL_MINT@
                ==> r == Err::<Self, SwapError>(SwapError::NotEnoughAccountKeys),
            accounts@.len() >= 12 && fifth_address@ != YSOL_MINT@
                ==> (r matches Ok(c) && synatra_accounts_laid_out(c, accounts@) && c.swap_type is StakeToken),
    {
        if accounts.len() < Self::MIN_NUM_ACCOUNTS {
            return Err(SwapError::NotEnoughAccountKeys);
        }
        let is_ysol = bytes32_eq(fifth_address, &YSOL_MINT);
        if !is_ysol && accounts.len() < 12 {
            return Err(SwapError::NotEnoughAccountKeys);
        }
        let base = SynatraSwapBaseAccounts {
            synatra_program: &accounts[0],
            signer: &accounts[1],
            payer: &accounts[2],
            pool: &accounts[3],
        };
        let (swap_type, index) = if is_ysol {
            (SynatraSwapType::StakeSol {
                receipt_token: &accounts[4],
                user_receipt_ata: &accounts[5],
            }, 6usize)
        } else {
            (SynatraSwapType::StakeToken {
                stake_token: &accounts[4],
                receipt_token: &accounts[5],
                user_receipt_ata: &accounts[6],
                user_token_ata: &accounts[7],
                pool_token_ata: &accounts[8],
            }, 9usize)
        };
        let leg = SynatraStakeLegAccounts {
            associated_token_program: &accounts[index + 0],
            token_program: &accounts[index + 1],
            system_program: &accounts[index + 2],
        };
        Ok(SynatraSwapAccounts { base, swap_type, leg })
    }
}

impl<'info> SynatraSwapAccounts<'info, AccountView> {
    /// A SOL stake where the fifth account is the ySOL mint, else a token
    /// stake. A token stake with fewer than twelve accounts is refused.
    pub fn try_from(accounts: &'info [AccountView]) -> (r: Result<Self, SwapError>)
        ensures
            accounts@.len() < Self::MIN_NUM_ACCOUNTS ==> r == Err::<Self, SwapError>(SwapError::NotEnoughAccountKeys),
            accounts@.len() >= 12 ==> (r matches Ok(c) && synatra_accounts_laid_out(c, accounts@)),
            r matches Ok(c) ==> synatra_accounts_laid_out(c, accounts@),
            r matches Err(e) ==> e == SwapError::NotEnoughAccountKeys,
            accounts@.len() >= Self::MIN_NUM_ACCOUNTS ==> exists|probe: [u8; 32]| #[trigger] address_read(&accounts@[4], probe) && {
                &&& probe@ == YSOL_MINT@ ==> (r matches Ok(c) && c.swap_type is StakeSol)
                &&& probe@ != YSOL_MINT@ && accounts@.len() < 12 ==> r == Err::<Self, SwapError>(SwapError::NotEnoughAccountKeys)
                &&& probe@ != YSOL_MINT@ && accounts@.len() >= 12 ==> (r matches Ok(c) && c.swap_type is StakeToken)
            },
    {
        if accounts.len() < Self::MIN_NUM_ACCOUNTS {
            return Err(SwapError::NotEnoughAccountKeys);
        }
        let probe = read_address(&accounts[4]);
        Self::try_from_probed(accounts, &probe)
    }
}

/// The accounts of the instruction: signer, payer and pool (the program
/// account is not passed on), the stake's accounts, then the three programs.
pub open spec fn synatra_metas<'info, A>(ctx: SynatraSwapAccounts<'info, A>) -> Seq<CpiAccount<'info, A>> {
    seq![
        writable_meta(ctx.base.signer),
        writable_signer_meta(ctx.base.payer),
        writable_meta(ctx.base.pool),
    ] + match ctx.swap_type {
        SynatraSwapType::StakeSol { receipt_token, user_receipt_ata } => seq![
            writable_meta(receipt_token),
            writable_meta(user_receipt_ata),
        ],
        SynatraSwapType::StakeToken { stake_token, receipt_token, user_receipt_ata, user_token_ata, pool_token_ata } => seq![
            writable_meta(stake_token),
            writable_meta(receipt_token),
            writable_meta(user_receipt_ata),
            writable_meta(user_token_ata),
            writable_meta(pool_token_ata),
        ],
    } + seq![
        readonly_meta(ctx.leg.associated_token_program),
        readonly_meta(ctx.leg.token_program),
        readonly_meta(ctx.leg.system_program),
    ]
}

/// Discriminator of the kind of stake, then the in amount, little-endian.
pub open spec fn synatra_data<'info, A>(ctx: SynatraSwapAccounts<'info, A>, in_amount: u64) -> Seq<u8> {
    (if ctx.swap_type is StakeSol { STAKE_SOL_DISCRIMINATOR@ } else { STAKE_TOKEN_DISCRIMINATOR@ }) + spec_u64_to_le_bytes(in_amount)
}

impl Synatra {
    /// The Synatra stake instruction; the minimum out amount is not sent.
    pub fn instruction<'info, A>(ctx: &SynatraSwapAccounts<'info, A>, in_amount: u64, _minimum_out_amount: u64, _data: &()) -> (ix: CpiInstruction<'info, A>)
        ensures
            ix.program == CpiProgram::<'info, A>::Id(SYNATRA_PROGRAM_ID),
            ix.accounts@ == synatra_metas(*ctx),
            ix.account_infos@ == infos_of(ix.accounts@),
            ix.data@ == synatra_data(*ctx, in_amount),
    {
        let mut accounts: Vec<CpiAccount<'info, A>> = Vec::new();
        let mut bytes: Vec<u8> = Vec::new();
        accounts.push(writable(ctx.base.signer));
        accounts.push(writable_signer(ctx.base.payer));
        accounts.push(writable(ctx.base.pool));
        match &ctx.swap_type {
            SynatraSwapType::StakeSol { receipt_token, user_receipt_ata } => {
                accounts.push(writable(*receipt_token));
                accounts.push(writable(*user_receipt_ata));
                push_bytes(&mut bytes, &STAKE_SOL_DISCRIMINATOR);
            },
            SynatraSwapType::StakeToken { stake_token, receipt_token, user_receipt_ata, user_token_ata, pool_token_ata } => {
                accounts.push(writable(*stake_token));
                accounts.push(writable(*receipt_token));
                accounts.push(writable(*user_receipt_ata));
                accounts.push(writable(*user_token_ata));
                accounts.push(writable(*pool_token_ata));
                push_bytes(&mut bytes, &STAKE_TOKEN_DISCRIMINATOR);
            },
        }
        accounts.push(readonly(ctx.leg.associated_token_program));
        accounts.push(readonly(ctx.leg.token_program));
        accounts.push(readonly(ctx.leg.system_program));
        push_u64_le(&mut bytes, in_amount);
        let ix = instruction(CpiProgram::Id(SYNATRA_PROGRAM_ID), accounts, bytes);
        assert(ix.accounts@ =~= synatra_metas(*ctx));
        assert(ix.data@ =~= synatra_data(*ctx, in_amount));
        ix
    }

    /// Builds the instruction and invokes it with the given signer seeds.
    pub fn swap_signed(ctx: &SynatraSwapAccounts<'_, AccountView>, in_amount: u64, minimum_out_amount: u64, data: &(), signer_seeds: &[Signer]) -> (r: Result<(), SwapError>)
        ensures
            r matches Err(e) ==> e is Runtime,
            invoked_with(
                    CpiProgram::Id(SYNATRA_PROGRAM_ID),
                    synatra_metas(*ctx),
                    infos_of(synatra_metas(*ctx)),
                    synatra_data(*ctx, in_amount),
                    signer_seeds,
                    r,
                ),
    {
        let ix = Self::instruction(ctx, in_amount, minimum_out_amount, data);
        invoke(&ix, signer_seeds)
    }

    /// `swap_signed` without signer seeds.
    pub fn swap(ctx: &SynatraSwapAccounts<'_, AccountView>, in_amount: u64, minimum_out_amount: u64, data: &()) -> (r: Result<(), SwapError>)
        ensures
            r matches Err(e) ==> e is Runtime,
            invoked_with(
                    CpiProgram::Id(SYNATRA_PROGRAM_ID),
                    synatra_metas(*ctx),
                    infos_of(synatra_metas(*ctx)),
                    synatra_data(*ctx, in_amount),
                    &[],
                    r,
                ),
    {
        Self::swap_signed(ctx, in_amount, minimum_out_amount, data, &[])
    }
}

/// Of at least nine accounts, whatever `try_from` makes is a SOL stake exactly
/// where the address read for the fifth account is the ySOL mint; otherwise a
/// token stake, refused below twelve accounts.
pub proof fn lemma_synatra_stake_follows_the_fifth_address<'info>(
    accounts: &'info [AccountView],
    r: Result<SynatraSwapAccounts<'info, AccountView>, SwapError>,
)
    requires
        call_ensures(SynatraSwapAccounts::<'info, AccountView>::try_from, (accounts,), r),
        accounts@.len() >= 9,
    ensures
        exists|probe: [u8; 32]| #[trigger] address_read(&accounts@[4], probe) && {
            &&& (r matches Ok(c) && c.swap_type is StakeSol) <==> probe@ == YSOL_MINT@
            &&& probe@ != YSOL_MINT@ ==> (r is Ok <==> accounts@.len() >= 12)
        },
{
}

} // verus!
