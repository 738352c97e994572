use vstd::prelude::*;
use vstd::bytes::spec_u64_to_le_bytes;
use solana_account_view::AccountView;
use solana_instruction_view::cpi::Signer;
use crate::bytes::{push_bytes, push_u64_le};
use crate::cpi::{
    CpiAccount, CpiInstruction, CpiProgram, infos_of, readonly, readonly_meta, writable,
    writable_meta, writable_signer, writable_signer_meta, account_infos_of,
};
use crate::error::SwapError;
use crate::runtime::{invoke, invoked_with};

verus! {

pub const VOLTR_PROGRAM_ID: [u8; 32] = [13, 180, 88, 140, 0, 40, 46, 57, 6, 188, 144, 247, 144, 212, 112, 104, 17, 232, 204, 36, 178, 156, 202, 153, 27, 77, 112, 219, 58, 165, 141, 57];

pub const DEPOSIT_VAULT_DISCRIMINATOR: [u8; 8] = [126, 224, 21, 255, 228, 53, 117, 33];
pub const INSTANT_WITHDRAW_VAULT_DISCRIMINATOR: [u8; 8] = [221, 56, 115, 168, 128, 220, 235, 245];

pub const DEPOSIT_VAULT_NUM_ACCOUNTS: usize = 14;
pub const INSTANT_WITHDRAW_VAULT_NUM_ACCOUNTS: usize = 13;
pub const MAX_ACCOUNTS: usize = 13;

pub struct Voltr;

#[derive(Clone, Copy, Debug, PartialEq, Eq, Structural)]
pub enum VoltrSwapData {
    DepositVault,
    InstantWithdrawVault { is_amount_in_lp: bool, is_withdraw_all: bool },
}

impl VoltrSwapData {
    pub const INSTANT_WITHDRAW_VAULT_DATA_LEN: usize = 2;

    /// No bytes are a deposit; two are an instant withdrawal with its two flags.
    pub fn try_from(data: &[u8]) -> (r: Result<Self, SwapError>)
        ensures
            data@.len() == 0 ==> r == Ok::<Self, SwapError>(VoltrSwapData::DepositVault),
            data@.len() == 2 ==> r == Ok::<Self, SwapError>(VoltrSwapData::InstantWithdrawVault { is_amount_in_lp: data@[0] != 0, is_withdraw_all: data@[1] != 0 }),
            data@.len() != 0 && data@.len() != 2 ==> r == Err::<Self, SwapError>(SwapError::InvalidInstructionData),
    {
        if data.len() == 0 {
            Ok(VoltrSwapData::DepositVault)
        } else if data.len() == Self::INSTANT_WITHDRAW_VAULT_DATA_LEN {
            Ok(VoltrSwapData::InstantWithdrawVault { is_amount_in_lp: data[0] != 0, is_withdraw_all: data[1] != 0 })
        } else {
            Err(SwapError::InvalidInstructionData)
        }
    }
}

pub struct VoltrSwapBaseAccounts<'info, A> {
    pub voltr_program: &'info A,
    pub user_transfer_authority: &'info A,
    pub protocol: &'info A,
    pub vault: &'info A,
    pub vault_asset_mint: &'info A,
    pub vault_lp_mint: &'info A,
}

pub enum VoltrSwapLegAccounts<'info, A> {
    DepositVault {
        user_asset_ata: &'info A,
        vault_asset_idle_ata: &'info A,
        vault_asset_idle_auth: &'info A,
        user_lp_ata: &'info A,
        vault_lp_mint_auth: &'info A,
    },
    InstantWithdrawVault {
        user_lp_ata: &'info A,
        vault_asset_idle_ata: &'info A,
        vault_asset_idle_auth: &'info A,
        user_asset_ata: &'info A,
    },
}

pub struct VoltrSwapTailAccounts<'info, A> {
    pub asset_token_program: &'info A,
    pub lp_token_program: &'info A,
    pub system_program: &'info A,
}

pub struct VoltrSwapAccounts<'info, A> {
    pub base: VoltrSwapBaseAccounts<'info, A>,
    pub leg: VoltrSwapLegAccounts<'info, A>,
    pub tail: VoltrSwapTailAccounts<'info, A>,
}

/// `c` holds the accounts of `s` in the order of its fields: six base
/// accounts, the leg's five (deposit) or four (withdrawal), then three.
pub open spec fn voltr_accounts_laid_out<'info, A>(c: VoltrSwapAccounts<'info, A>, s: Seq<A>) -> bool {
    let t: int = if c.leg is DepositVault { 11 } else { 10 };
    &&& *c.base.voltr_program == s[0]
    &&& *c.base.user_transfer_authority == s[1]
    &&& *c.base.protocol == s[2]
    &&& *c.base.vault == s[3]
    &&& *c.base.vault_asset_mint == s[4]
    &&& *c.base.vault_lp_mint == s[5]
    &&& match c.leg {
        VoltrSwapLegAccounts::DepositVault { user_asset_ata, vault_asset_idle_ata, vault_asset_idle_auth, user_lp_ata, vault_lp_mint_auth } => {
            &&& *user_asset_ata == s[6]
            &&& *vault_asset_idle_ata == s[7]
            &&& *vault_asset_idle_auth == s[8]
            &&& *user_lp_ata == s[9]
            &&& *vault_lp_mint_auth == s[10]
        },
        VoltrSwapLegAccounts::InstantWithdrawVault { user_lp_ata, vault_asset_idle_ata, vault_asset_idle_auth, user_asset_ata } => {
            &&& *user_lp_ata == s[6]
            &&& *vault_asset_idle_ata == s[7]
            &&& *vault_asset_idle_auth == s[8]
            &&& *user_asset_ata == s[9]
        },
    }
    &&& *c.tail.asset_token_program == s[t + 0]
    &&& *c.tail.lp_token_program == s[t + 1]
    &&& *c.tail.system_program == s[t + 2]
}

impl<'info, A> VoltrSwapAccounts<'info, A> {
    pub const MIN_NUM_ACCOUNTS: usize = INSTANT_WITHDRAW_VAULT_NUM_ACCOUNTS;

    /// Fourteen accounts are a deposit, thirteen an instant withdrawal.
    pub fn try_from(accounts: &'info [A]) -> (r: Result<Self, SwapError>)
        ensures
            accounts@.len() != 13 && accounts@.len() != 14 ==> r == Err::<Self, SwapError>(SwapError::NotEnoughAccountKeys),
            accounts@.len() == 14 ==> (r matches Ok(c) && c.leg is DepositVault && voltr_accounts_laid_out(c, accounts@)),
            accounts@.len() == 13 ==> (r matches Ok(c) && c.leg is InstantWithdrawVault && voltr_accounts_laid_out(c, accounts@)),
    {
        if accounts.len() != DEPOSIT_VAULT_NUM_ACCOUNTS && accounts.len() != INSTANT_WITHDRAW_VAULT_NUM_ACCOUNTS {
            return Err(SwapError::NotEnoughAccountKeys);
        }
        let base = VoltrSwapBaseAccounts {
            voltr_program: &accounts[0],
            user_transfer_authority: &accounts[1],
            protocol: &accounts[2],
            vault: &accounts[3],
            vault_asset_mint: &accounts[4],
            vault_lp_mint: &accounts[5],
        };
        let (leg, index) = if accounts.len() == DEPOSIT_VAULT_NUM_ACCOUNTS {
            (VoltrSwapLegAccounts::DepositVault {
                user_asset_ata: &accounts[6],
                vault_asset_idle_ata: &accounts[7],
                vault_asset_idle_auth: &accounts[8],
                user_lp_ata: &accounts[9],
                vault_lp_mint_auth: &accounts[10],
            }, 11usize)
        } else {
            (VoltrSwapLegAccounts::InstantWithdrawVault {
                user_lp_ata: &accounts[6],
                vault_asset_idle_ata: &accounts[7],
                vault_asset_idle_auth: &accounts[8],
                user_asset_ata: &accounts[9],
            }, 10usize)
        };
        let tail = VoltrSwapTailAccounts {
            asset_token_program: &accounts[index + 0],
            lp_token_program: &accounts[index + 1],
            system_program: &accounts[index + 2],
        };
        Ok(VoltrSwapAccounts { base, leg, tail })
    }
}

/// The accounts of the instruction: five base accounts (not the program),
/// the leg's accounts, then the three programs.
pub open spec fn voltr_metas<'info, A>(ctx: VoltrSwapAccounts<'info, A>) -> Seq<CpiAccount<'info, A>> {
    seq![
        writable_signer_meta(ctx.base.user_transfer_authority),
        readonly_meta(ctx.base.protocol),
        writable_meta(ctx.base.vault),
        readonly_meta(ctx.base.vault_asset_mint),
        writable_meta(ctx.base.vault_lp_mint),
    ] + match ctx.leg {
        VoltrSwapLegAccounts::DepositVault { user_asset_ata, vault_asset_idle_ata, vault_asset_idle_auth, user_lp_ata, vault_lp_mint_auth } => seq![
            writable_meta(user_asset_ata),
            writable_meta(vault_asset_idle_ata),
            readonly_meta(vault_asset_idle_auth),
            writable_meta(user_lp_ata),
            readonly_meta(vault_lp_mint_auth),
        ],
        VoltrSwapLegAccounts::InstantWithdrawVault { user_lp_ata, vault_asset_idle_ata, vault_asset_idle_auth, user_asset_ata } => seq![
            writable_meta(user_lp_ata),
            writable_meta(vault_asset_idle_ata),
            writable_meta(vault_asset_idle_auth),
            writable_meta(user_asset_ata),
        ],
    } + seq![
        readonly_meta(ctx.tail.asset_token_program),
        readonly_meta(ctx.tail.lp_token_program),
        readonly_meta(ctx.tail.system_program),
    ]
}

/// The accounts handed to the runtime: those of the instruction, and for a
/// withdrawal (which has one account fewer) the user's transfer authority
/// once more at the end.
pub open spec fn voltr_infos<'info, A>(ctx: VoltrSwapAccounts<'info, A>) -> Seq<&'info A> {
    infos_of(voltr_metas(ctx)) + if ctx.leg is DepositVault { Seq::empty() } else { seq![ctx.base.user_transfer_authority] }
}

/// Discriminator and in amount; a withdrawal adds its two flags.
pub open spec fn voltr_data(in_amount: u64, data: VoltrSwapData) -> Seq<u8> {
    match data {
        VoltrSwapData::DepositVault => DEPOSIT_VAULT_DISCRIMINATOR@ + spec_u64_to_le_bytes(in_amount),
        VoltrSwapData::InstantWithdrawVault { is_amount_in_lp, is_withdraw_all } =>
            INSTANT_WITHDRAW_VAULT_DISCRIMINATOR@ + spec_u64_to_le_bytes(in_amount)
                + seq![if is_amount_in_lp { 1u8 } else { 0u8 }, if is_withdraw_all { 1u8 } else { 0u8 }],
    }
}

impl Voltr {
    /// The Voltr deposit or instant withdrawal instruction; the minimum out
    /// amount is not sent.
    pub fn instruction<'info, A>(ctx: &VoltrSwapAccounts<'info, A>, in_amount: u64, _minimum_out_amount: u64, data: &VoltrSwapData) -> (ix: CpiInstruction<'info, A>)
        ensures
            ix.program == CpiProgram::<'info, A>::Id(VOLTR_PROGRAM_ID),
            ix.accounts@ == voltr_metas(*ctx),
            ix.account_infos@ == voltr_infos(*ctx),
            ix.data@ == voltr_data(in_amount, *data),
    {
        let mut accounts: Vec<CpiAccount<'info, A>> = Vec::new();
        accounts.push(writable_signer(ctx.base.user_transfer_authority));
        accounts.push(readonly(ctx.base.protocol));
        accounts.push(writable(ctx.base.vault));
        accounts.push(readonly(ctx.base.vault_asset_mint));
        accounts.push(writable(ctx.base.vault_lp_mint));
        match &ctx.leg {
            VoltrSwapLegAccounts::DepositVault { user_asset_ata, vault_asset_idle_ata, vault_asset_idle_auth, user_lp_ata, vault_lp_mint_auth } => {
                accounts.push(writable(*user_asset_ata));
                accounts.push(writable(*vault_asset_idle_ata));
                accounts.push(readonly(*vault_asset_idle_auth));
                accounts.push(writable(*user_lp_ata));
                accounts.push(readonly(*vault_lp_mint_auth));
            },
            VoltrSwapLegAccounts::InstantWithdrawVault { user_lp_ata, vault_asset_idle_ata, vault_asset_idle_auth, user_asset_ata } => {
                accounts.push(writable(*user_lp_ata));
                accounts.push(writable(*vault_asset_idle_ata));
                accounts.push(writable(*vault_asset_idle_auth));
                accounts.push(writable(*user_asset_ata));
            },
        }
        accounts.push(readonly(ctx.tail.asset_token_program));
        accounts.push(readonly(ctx.tail.lp_token_program));
        accounts.push(readonly(ctx.tail.system_program));
        assert(accounts@ =~= voltr_metas(*ctx));
        let mut account_infos = account_infos_of(&accounts);
        match &ctx.leg {
            VoltrSwapLegAccounts::DepositVault { .. } => {},
            VoltrSwapLegAccounts::InstantWithdrawVault { .. } => account_infos.push(ctx.base.user_transfer_authority),
        }
        let mut bytes: Vec<u8> = Vec::new();
        match data {
            VoltrSwapData::DepositVault => {
                push_bytes(&mut bytes, &DEPOSIT_VAULT_DISCRIMINATOR);
                push_u64_le(&mut bytes, in_amount);
            },
            VoltrSwapData::InstantWithdrawVault { is_amount_in_lp, is_withdraw_all } => {
                push_bytes(&mut bytes, &INSTANT_WITHDRAW_VAULT_DISCRIMINATOR);
                push_u64_le(&mut bytes, in_amount);
                bytes.push(if *is_amount_in_lp { 1u8 } else { 0u8 });
                bytes.push(if *is_withdraw_all { 1u8 } else { 0u8 });
            },
        }
        assert(account_infos@ =~= voltr_infos(*ctx));
        assert(bytes@ =~= voltr_data(in_amount, *data));
        CpiInstruction { program: CpiProgram::Id(VOLTR_PROGRAM_ID), accounts, account_infos, data: bytes }
    }

    /// Builds the instruction and invokes it with the given signer seeds.
    pub fn swap_signed(ctx: &VoltrSwapAccounts<'_, AccountView>, in_amount: u64, minimum_out_amount: u64, data: &VoltrSwapData, signer_seeds: &[Signer]) -> (r: Result<(), SwapError>)
        ensures
            r matches Err(e) ==> e is Runtime,
            invoked_with(
                    CpiProgram::Id(VOLTR_PROGRAM_ID),
                    voltr_metas(*ctx),
                    voltr_infos(*ctx),
                    voltr_data(in_amount, *data),
                    signer_seeds,
                    r,
                ),
    {
        let ix = Self::instruction(ctx, in_amount, minimum_out_amount, data);
        invoke(&ix, signer_seeds)
    }

    /// `swap_signed` without signer seeds.
    pub fn swap(ctx: &VoltrSwapAccounts<'_, AccountView>, in_amount: u64, minimum_out_amount: u64, data: &VoltrSwapData) -> (r: Result<(), SwapError>)
        ensures
            r matches Err(e) ==> e is Runtime,
            invoked_with(
                    CpiProgram::Id(VOLTR_PROGRAM_ID),
                    voltr_metas(*ctx),
                    voltr_infos(*ctx),
                    voltr_data(in_amount, *data),
                    &[],
                    r,
                ),
    {
        Self::swap_signed(ctx, in_amount, minimum_out_amount, data, &[])
    }
}

/// Every instruction hands `MAX_ACCOUNTS` accounts to the runtime.
pub proof fn lemma_voltr_infos_len<'info, A>(ctx: VoltrSwapAccounts<'info, A>)
    ensures
        voltr_infos(ctx).len() == MAX_ACCOUNTS,
{
}

} // verus!
