use vstd::prelude::*;
use vstd::bytes::spec_u64_to_le_bytes;
use crate::error::SwapError;
use vstd::bytes::u64_to_le_bytes;
use solana_account_view::AccountView;
use solana_instruction_view::cpi::Signer;
use crate::cpi::{
    AccountRole, CpiAccount, CpiInstruction, CpiProgram, infos_of, instruction, metas_with_role,
    push_all_with_role, readonly, readonly_meta, writable, writable_meta, writable_signer,
    writable_signer_meta,
};
use crate::runtime::{invoke, invoked_with};

verus! {

pub const SCALE_AMM_PROGRAM_ID: [u8; 32] = [6, 116, 35, 207, 171, 131, 123, 109, 20, 52, 29, 163, 54, 55, 134, 110, 153, 128, 188, 90, 19, 154, 143, 250, 17, 152, 243, 27, 124, 182, 13, 175];

pub const BUY_DISCRIMINATOR: [u8; 8] = [102, 6, 61, 18, 1, 218, 235, 234];
pub const SELL_DISCRIMINATOR: [u8; 8] = [51, 230, 133, 164, 1, 127, 131, 173];

pub const FIXED_ACCOUNT_COUNT: usize = 15;
pub const MAX_BENEFICIARY_ACCOUNTS: usize = 5;

pub struct ScaleAmm;

#[derive(Clone, Copy, Debug, PartialEq, Eq, Structural)]
pub enum ScaleAmmSide {
    Buy,
    Sell,
}

#[derive(Clone, Copy, Debug, PartialEq, Eq, Structural)]
pub struct ScaleAmmSwapData {
    pub side: ScaleAmmSide,
}

/// The swap data encoded by `data`: its first byte names the side.
pub open spec fn scale_amm_swap_data_of(data: Seq<u8>) -> Result<ScaleAmmSwapData, SwapError> {
    if data.len() == 0 {
        Err(SwapError::InvalidInstructionData)
    } else if data[0] == 0 {
        Ok(ScaleAmmSwapData { side: ScaleAmmSide::Buy })
    } else if data[0] == 1 {
        Ok(ScaleAmmSwapData { side: ScaleAmmSide::Sell })
    } else {
        Err(SwapError::InvalidInstructionData)
    }
}

impl<'a> TryFrom<&'a [u8]> for ScaleAmmSwapData {
    type Error = SwapError;

    fn try_from(data: &'a [u8]) -> (r: Result<Self, Self::Error>) {
        if data.len() == 0 {
            return Err(SwapError::InvalidInstructionData);
        }
        if data[0] == 0 {
            Ok(ScaleAmmSwapData { side: ScaleAmmSide::Buy })
        } else if data[0] == 1 {
            Ok(ScaleAmmSwapData { side: ScaleAmmSide::Sell })
        } else {
            Err(SwapError::InvalidInstructionData)
        }
    }
}

impl<'a> vstd::std_specs::convert::TryFromSpecImpl<&'a [u8]> for ScaleAmmSwapData {
    open spec fn obeys_try_from_spec() -> bool {
        true
    }

    open spec fn try_from_spec(data: &'a [u8]) -> Result<Self, Self::Error> {
        scale_amm_swap_data_of(data@)
    }
}


pub struct ScaleAmmSwapAccounts<'info, A> {
    pub scale_amm_program: &'info A,
    pub pool: &'info A,
    pub user: &'info A,
    pub owner: &'info A,
    pub mint_a: &'info A,
    pub mint_b: &'info A,
    pub user_ta_a: &'info A,
    pub user_ta_b: &'info A,
    pub vault_a: &'info A,
    pub vault_b: &'info A,
    pub platform_fee_ta_a: &'info A,
    pub token_program_a: &'info A,
    pub token_program_b: &'info A,
    pub system_program: &'info A,
    pub config: &'info A,
    pub beneficiary_accounts: &'info [A],
}

/// `c` holds the accounts of `s` field by field in order, and the accounts
/// after the fifteenth as beneficiaries.
pub open spec fn scale_amm_accounts_laid_out<'info, A>(c: ScaleAmmSwapAccounts<'info, A>, s: Seq<A>) -> bool {
    &&& *c.scale_amm_program == s[0]
    &&& *c.pool == s[1]
    &&& *c.user == s[2]
    &&& *c.owner == s[3]
    &&& *c.mint_a == s[4]
    &&& *c.mint_b == s[5]
    &&& *c.user_ta_a == s[6]
    &&& *c.user_ta_b == s[7]
    &&& *c.vault_a == s[8]
    &&& *c.vault_b == s[9]
    &&& *c.platform_fee_ta_a == s[10]
    &&& *c.token_program_a == s[11]
    &&& *c.token_program_b == s[12]
    &&& *c.system_program == s[13]
    &&& *c.config == s[14]
    &&& c.beneficiary_accounts@ == s.subrange(15, s.len() as int)
}

impl<'info, A> ScaleAmmSwapAccounts<'info, A> {
    pub fn try_from(accounts: &'info [A]) -> (r: Result<Self, SwapError>)
        ensures
            accounts@.len() < FIXED_ACCOUNT_COUNT ==> r == Err::<Self, SwapError>(SwapError::NotEnoughAccountKeys),
            accounts@.len() > FIXED_ACCOUNT_COUNT + MAX_BENEFICIARY_ACCOUNTS ==> r == Err::<Self, SwapError>(SwapError::InvalidAccountData),
            FIXED_ACCOUNT_COUNT <= accounts@.len() <= FIXED_ACCOUNT_COUNT + MAX_BENEFICIARY_ACCOUNTS
                ==> (r matches Ok(c) && scale_amm_accounts_laid_out(c, accounts@)),
    {
        if accounts.len() < FIXED_ACCOUNT_COUNT {
            return Err(SwapError::NotEnoughAccountKeys);
        }
        if accounts.len() - FIXED_ACCOUNT_COUNT > MAX_BENEFICIARY_ACCOUNTS {
            return Err(SwapError::InvalidAccountData);
        }
        Ok(ScaleAmmSwapAccounts {
            scale_amm_program: &accounts[0],
            pool: &accounts[1],
            user: &accounts[2],
            owner: &accounts[3],
            mint_a: &accounts[4],
            mint_b: &accounts[5],
            user_ta_a: &accounts[6],
            user_ta_b: &accounts[7],
            vault_a: &accounts[8],
            vault_b: &accounts[9],
            platform_fee_ta_a: &accounts[10],
            token_program_a: &accounts[11],
            token_program_b: &accounts[12],
            system_program: &accounts[13],
            config: &accounts[14],
            beneficiary_accounts: &accounts[15..accounts.len()],
        })
    }
}


pub open spec fn scale_amm_discriminator(side: ScaleAmmSide) -> Seq<u8> {
    match side {
        ScaleAmmSide::Buy => BUY_DISCRIMINATOR@,
        ScaleAmmSide::Sell => SELL_DISCRIMINATOR@,
    }
}

/// Discriminator of the side, then the two amounts, little-endian.
pub open spec fn scale_amm_data(side: ScaleAmmSide, in_amount: u64, minimum_out_amount: u64) -> Seq<u8> {
    scale_amm_discriminator(side) + spec_u64_to_le_bytes(in_amount) + spec_u64_to_le_bytes(minimum_out_amount)
}

pub fn build_instruction_data(side: ScaleAmmSide, in_amount: u64, minimum_out_amount: u64) -> (r: [u8; 24])
    ensures
        r@ == scale_amm_data(side, in_amount, minimum_out_amount),
{
    let d = match side {
        ScaleAmmSide::Buy => BUY_DISCRIMINATOR,
        ScaleAmmSide::Sell => SELL_DISCRIMINATOR,
    };
    let a = u64_to_le_bytes(in_amount);
    let b = u64_to_le_bytes(minimum_out_amount);
    let r = [
        d[0], d[1], d[2], d[3], d[4], d[5], d[6], d[7],
        a[0], a[1], a[2], a[3], a[4], a[5], a[6], a[7],
        b[0], b[1], b[2], b[3], b[4], b[5], b[6], b[7],
    ];
    assert(r@ =~= scale_amm_data(side, in_amount, minimum_out_amount));
    r
}

/// The fourteen fixed accounts of a Scale AMM swap, then each beneficiary, writable.
pub open spec fn scale_amm_metas<'info, A>(ctx: ScaleAmmSwapAccounts<'info, A>) -> Seq<CpiAccount<'info, A>> {
    seq![
        writable_meta(ctx.pool),
        writable_signer_meta(ctx.user),
        readonly_meta(ctx.owner),
        readonly_meta(ctx.mint_a),
        readonly_meta(ctx.mint_b),
        writable_meta(ctx.user_ta_a),
        writable_meta(ctx.user_ta_b),
        writable_meta(ctx.vault_a),
        writable_meta(ctx.vault_b),
        writable_meta(ctx.platform_fee_ta_a),
        readonly_meta(ctx.token_program_a),
        readonly_meta(ctx.token_program_b),
        readonly_meta(ctx.system_program),
        readonly_meta(ctx.config),
    ] + metas_with_role(ctx.beneficiary_accounts@, AccountRole::Writable)
}

impl ScaleAmm {
    /// The Scale AMM swap instruction; refused with more than five beneficiaries.
    pub fn instruction<'info, A>(ctx: &ScaleAmmSwapAccounts<'info, A>, in_amount: u64, minimum_out_amount: u64, data: &ScaleAmmSwapData) -> (r: Result<CpiInstruction<'info, A>, SwapError>)
        ensures
            ctx.beneficiary_accounts@.len() > MAX_BENEFICIARY_ACCOUNTS ==> r == Err::<CpiInstruction<'info, A>, SwapError>(SwapError::InvalidAccountData),
            ctx.beneficiary_accounts@.len() <= MAX_BENEFICIARY_ACCOUNTS ==> (r matches Ok(ix) && {
                &&& ix.program == CpiProgram::<'info, A>::Id(SCALE_AMM_PROGRAM_ID)
                &&& ix.accounts@ == scale_amm_metas(*ctx)
                &&& ix.account_infos@ == infos_of(ix.accounts@)
                &&& ix.data@ == scale_amm_data(data.side, in_amount, minimum_out_amount)
            }),
    {
        if ctx.beneficiary_accounts.len() > MAX_BENEFICIARY_ACCOUNTS {
            return Err(SwapError::InvalidAccountData);
        }
        let mut accounts: Vec<CpiAccount<'info, A>> = Vec::new();
        accounts.push(writable(ctx.pool));
        accounts.push(writable_signer(ctx.user));
        accounts.push(readonly(ctx.owner));
        accounts.push(readonly(ctx.mint_a));
        accounts.push(readonly(ctx.mint_b));
        accounts.push(writable(ctx.user_ta_a));
        accounts.push(writable(ctx.user_ta_b));
        accounts.push(writable(ctx.vault_a));
        accounts.push(writable(ctx.vault_b));
        accounts.push(writable(ctx.platform_fee_ta_a));
        accounts.push(readonly(ctx.token_program_a));
        accounts.push(readonly(ctx.token_program_b));
        accounts.push(readonly(ctx.system_program));
        accounts.push(readonly(ctx.config));
        push_all_with_role(&mut accounts, ctx.beneficiary_accounts, AccountRole::Writable);
        let bytes = build_instruction_data(data.side, in_amount, minimum_out_amount);
        let ix = instruction(CpiProgram::Id(SCALE_AMM_PROGRAM_ID), accounts, vstd::slice::slice_to_vec(vstd::array::array_as_slice(&bytes)));
        assert(ix.accounts@ =~= scale_amm_metas(*ctx));
        Ok(ix)
    }

    /// Builds the swap instruction and invokes it with the given signer seeds.
    pub fn swap_signed(ctx: &ScaleAmmSwapAccounts<'_, AccountView>, in_amount: u64, minimum_out_amount: u64, data: &ScaleAmmSwapData, signer_seeds: &[Signer]) -> (r: Result<(), SwapError>)
        ensures
            ctx.beneficiary_accounts@.len() > MAX_BENEFICIARY_ACCOUNTS ==> r == Err::<(), SwapError>(SwapError::InvalidAccountData),
            ctx.beneficiary_accounts@.len() <= MAX_BENEFICIARY_ACCOUNTS ==> (r matches Err(e) ==> e is Runtime),
            ctx.beneficiary_accounts@.len() <= MAX_BENEFICIARY_ACCOUNTS ==> invoked_with(
                    CpiProgram::Id(SCALE_AMM_PROGRAM_ID),
                    scale_amm_metas(*ctx),
                    infos_of(scale_amm_metas(*ctx)),
                    scale_amm_data(data.side, in_amount, minimum_out_amount),
                    signer_seeds,
                    r,
                ),
    {
        let ix = Self::instruction(ctx, in_amount, minimum_out_amount, data)?;
        invoke(&ix, signer_seeds)
    }

    /// `swap_signed` without signer seeds.
    pub fn swap(ctx: &ScaleAmmSwapAccounts<'_, AccountView>, in_amount: u64, minimum_out_amount: u64, data: &ScaleAmmSwapData) -> (r: Result<(), SwapError>)
        ensures
            ctx.beneficiary_accounts@.len() > MAX_BENEFICIARY_ACCOUNTS ==> r == Err::<(), SwapError>(SwapError::InvalidAccountData),
            ctx.beneficiary_accounts@.len() <= MAX_BENEFICIARY_ACCOUNTS ==> (r matches Err(e) ==> e is Runtime),
            ctx.beneficiary_accounts@.len() <= MAX_BENEFICIARY_ACCOUNTS ==> invoked_with(
                    CpiProgram::Id(SCALE_AMM_PROGRAM_ID),
                    scale_amm_metas(*ctx),
                    infos_of(scale_amm_metas(*ctx)),
                    scale_amm_data(data.side, in_amount, minimum_out_amount),
                    &[],
                    r,
                ),
    {
        Self::swap_signed(ctx, in_amount, minimum_out_amount, data, &[])
    }
}

} // verus!
