use vstd::prelude::*;
use vstd::bytes::spec_u64_to_le_bytes;
use solana_account_view::AccountView;
use solana_instruction_view::cpi::Signer;
use crate::bytes::{push_bytes, push_u64_le};
use crate::cpi::{
    CpiAccount, CpiInstruction, CpiProgram, infos_of, instruction, readonly, readonly_meta,
    writable, writable_meta, writable_signer, writable_signer_meta,
};
use crate::error::SwapError;
use crate::runtime::{invoke, invoked_with};

verus! {

pub const ONRE_PROGRAM_ID: [u8; 32] = [11, 252, 145, 30, 76, 128, 170, 63, 255, 221, 11, 78, 189, 132, 190, 29, 173, 124, 36, 22, 184, 51, 127, 93, 219, 18, 239, 55, 176, 233, 7, 93];

pub const TAKE_OFFER_PERMISSIONLESS_DISCRIMINATOR: [u8; 8] = [37, 190, 224, 77, 197, 39, 203, 230];

pub struct Onre;

pub struct OnreSwapAccounts<'info, A> {
    pub onre_program: &'info A,
    pub offer: &'info A,
    pub state: &'info A,
    pub boss: &'info A,
    pub vault_authority: &'info A,
    pub vault_token_in_account: &'info A,
    pub vault_token_out_account: &'info A,
    pub permissionless_authority: &'info A,
    pub permissionless_token_in_account: &'info A,
    pub permissionless_token_out_account: &'info A,
    pub token_in_mint: &'info A,
    pub token_in_program: &'info A,
    pub token_out_mint: &'info A,
    pub token_out_program: &'info A,
    pub user_token_in_account: &'info A,
    pub user_token_out_account: &'info A,
    pub boss_token_in_account: &'info A,
    pub mint_authority: &'info A,
    pub instructions_sysvar: &'info A,
    pub user: &'info A,
    pub associated_token_program: &'info A,
    pub system_program: &'info A,
}

/// `c` holds the accounts of `s` in the order of its fields.
pub open spec fn onre_accounts_laid_out<'info, A>(c: OnreSwapAccounts<'info, A>, s: Seq<A>) -> bool {
    &&& *c.onre_program == s[0]
    &&& *c.offer == s[1]
    &&& *c.state == s[2]
    &&& *c.boss == s[3]
    &&& *c.vault_authority == s[4]
    &&& *c.vault_token_in_account == s[5]
    &&& *c.vault_token_out_account == s[6]
    &&& *c.permissionless_authority == s[7]
    &&& *c.permissionless_token_in_account == s[8]
    &&& *c.permissionless_token_out_account == s[9]
    &&& *c.token_in_mint == s[10]
    &&& *c.token_in_program == s[11]
    &&& *c.token_out_mint == s[12]
    &&& *c.token_out_program == s[13]
    &&& *c.user_token_in_account == s[14]
    &&& *c.user_token_out_account == s[15]
    &&& *c.boss_token_in_account == s[16]
    &&& *c.mint_authority == s[17]
    &&& *c.instructions_sysvar == s[18]
    &&& *c.user == s[19]
    &&& *c.associated_token_program == s[20]
    &&& *c.system_program == s[21]
}

impl<'info, A> OnreSwapAccounts<'info, A> {
    pub const NUM_ACCOUNTS: usize = 22;

    pub fn try_from(accounts: &'info [A]) -> (r: Result<Self, SwapError>)
        ensures
            accounts@.len() < 22 ==> r == Err::<Self, SwapError>(SwapError::NotEnoughAccountKeys),
            accounts@.len() >= 22 ==> (r matches Ok(c) && onre_accounts_laid_out(c, accounts@)),
    {
        if accounts.len() < 22 {
            return Err(SwapError::NotEnoughAccountKeys);
        }
        Ok(OnreSwapAccounts {
            onre_program: &accounts[0],
            offer: &accounts[1],
            state: &accounts[2],
            boss: &accounts[3],
            vault_authority: &accounts[4],
            vault_token_in_account: &accounts[5],
            vault_token_out_account: &accounts[6],
            permissionless_authority: &accounts[7],
            permissionless_token_in_account: &accounts[8],
            permissionless_token_out_account: &accounts[9],
            token_in_mint: &accounts[10],
            token_in_program: &accounts[11],
            token_out_mint: &accounts[12],
            token_out_program: &accounts[13],
            user_token_in_account: &accounts[14],
            user_token_out_account: &accounts[15],
            boss_token_in_account: &accounts[16],
            mint_authority: &accounts[17],
            instructions_sysvar: &accounts[18],
            user: &accounts[19],
            associated_token_program: &accounts[20],
            system_program: &accounts[21],
        })
    }
}

/// The twenty-one accounts of a permissionless take-offer; the program account is not passed on.
pub open spec fn onre_metas<'info, A>(ctx: OnreSwapAccounts<'info, A>) -> Seq<CpiAccount<'info, A>> {
    seq![
        writable_meta(ctx.offer),
        readonly_meta(ctx.state),
        readonly_meta(ctx.boss),
        readonly_meta(ctx.vault_authority),
        writable_meta(ctx.vault_token_in_account),
        writable_meta(ctx.vault_token_out_account),
        readonly_meta(ctx.permissionless_authority),
        writable_meta(ctx.permissionless_token_in_account),
        writable_meta(ctx.permissionless_token_out_account),
        writable_meta(ctx.token_in_mint),
        readonly_meta(ctx.token_in_program),
        writable_meta(ctx.token_out_mint),
        readonly_meta(ctx.token_out_program),
        writable_meta(ctx.user_token_in_account),
        writable_meta(ctx.user_token_out_account),
        writable_meta(ctx.boss_token_in_account),
        readonly_meta(ctx.mint_authority),
        readonly_meta(ctx.instructions_sysvar),
        writable_signer_meta(ctx.user),
        readonly_meta(ctx.associated_token_program),
        readonly_meta(ctx.system_program),
    ]
}

/// Discriminator, the amount in, then `None` for the approval message.
pub open spec fn onre_data(in_amount: u64, minimum_out_amount: u64) -> Seq<u8> {
    TAKE_OFFER_PERMISSIONLESS_DISCRIMINATOR@ + spec_u64_to_le_bytes(in_amount) + seq![0u8]
}

impl Onre {
    /// The OnRe `take_offer_permissionless` instruction, without approval message.
    pub fn instruction<'info, A>(ctx: &OnreSwapAccounts<'info, A>, in_amount: u64, minimum_out_amount: u64, _data: &()) -> (ix: CpiInstruction<'info, A>)
        ensures
            ix.program == CpiProgram::<'info, A>::Id(ONRE_PROGRAM_ID),
            ix.accounts@ == onre_metas(*ctx),
            ix.account_infos@ == infos_of(ix.accounts@),
            ix.data@ == onre_data(in_amount, minimum_out_amount),
    {
        let mut accounts: Vec<CpiAccount<'info, A>> = Vec::new();
        accounts.push(writable(ctx.offer));
        accounts.push(readonly(ctx.state));
        accounts.push(readonly(ctx.boss));
        accounts.push(readonly(ctx.vault_authority));
        accounts.push(writable(ctx.vault_token_in_account));
        accounts.push(writable(ctx.vault_token_out_account));
        accounts.push(readonly(ctx.permissionless_authority));
        accounts.push(writable(ctx.permissionless_token_in_account));
        accounts.push(writable(ctx.permissionless_token_out_account));
        accounts.push(writable(ctx.token_in_mint));
        accounts.push(readonly(ctx.token_in_program));
        accounts.push(writable(ctx.token_out_mint));
        accounts.push(readonly(ctx.token_out_program));
        accounts.push(writable(ctx.user_token_in_account));
        accounts.push(writable(ctx.user_token_out_account));
        accounts.push(writable(ctx.boss_token_in_account));
        accounts.push(readonly(ctx.mint_authority));
        accounts.push(readonly(ctx.instructions_sysvar));
        accounts.push(writable_signer(ctx.user));
        accounts.push(readonly(ctx.associated_token_program));
        accounts.push(readonly(ctx.system_program));
        let mut bytes: Vec<u8> = Vec::new();
        push_bytes(&mut bytes, &TAKE_OFFER_PERMISSIONLESS_DISCRIMINATOR);
        push_u64_le(&mut bytes, in_amount);
        bytes.push(0u8);
        let ix = instruction(CpiProgram::Id(ONRE_PROGRAM_ID), accounts, bytes);
        assert(ix.accounts@ =~= onre_metas(*ctx));
        assert(ix.data@ =~= onre_data(in_amount, minimum_out_amount));
        ix
    }

    /// Builds the swap instruction and invokes it with the given signer seeds.
    pub fn swap_signed(ctx: &OnreSwapAccounts<'_, AccountView>, in_amount: u64, minimum_out_amount: u64, _data: &(), signer_seeds: &[Signer]) -> (r: Result<(), SwapError>)
        ensures
            r matches Err(e) ==> e is Runtime,
            invoked_with(
                    CpiProgram::Id(ONRE_PROGRAM_ID),
                    onre_metas(*ctx),
                    infos_of(onre_metas(*ctx)),
                    onre_data(in_amount, minimum_out_amount),
                    signer_seeds,
                    r,
                ),
    {
        let ix = Self::instruction(ctx, in_amount, minimum_out_amount, _data);
        invoke(&ix, signer_seeds)
    }

    /// `swap_signed` without signer seeds.
    pub fn swap(ctx: &OnreSwapAccounts<'_, AccountView>, in_amount: u64, minimum_out_amount: u64, _data: &()) -> (r: Result<(), SwapError>)
        ensures
            r matches Err(e) ==> e is Runtime,
            invoked_with(
                    CpiProgram::Id(ONRE_PROGRAM_ID),
                    onre_metas(*ctx),
                    infos_of(onre_metas(*ctx)),
                    onre_data(in_amount, minimum_out_amount),
                    &[],
                    r,
                ),
    {
        Self::swap_signed(ctx, in_amount, minimum_out_amount, _data, &[])
    }
}

} // verus!
