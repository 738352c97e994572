use vstd::prelude::*;
use vstd::bytes::spec_u64_to_le_bytes;
use solana_account_view::AccountView;
use solana_instruction_view::cpi::Signer;
use crate::bytes::{push_bytes, push_u64_le};
use crate::cpi::{
    AccountRole, CpiAccount, CpiInstruction, CpiProgram, infos_of, instruction, metas_with_role,
    push_all_with_role, readonly, readonly_meta, writable, writable_meta, writable_signer,
    writable_signer_meta,
};
use crate::error::SwapError;
use crate::runtime::{invoke, invoked_with};

verus! {

pub const JUPITER_PERPETUALS_PROGRAM_ID: [u8; 32] = [5, 177, 243, 202, 241, 148, 98, 239, 135, 96, 240, 171, 222, 117, 205, 61, 158, 227, 27, 58, 50, 198, 32, 232, 148, 18, 46, 156, 155, 129, 69, 250];

pub const SWAP2_DISCRIMINATOR: [u8; 8] = [65, 75, 63, 76, 235, 91, 91, 136];
pub const ADD_LIQUIDITY_2_DISCRIMINATOR: [u8; 8] = [228, 162, 78, 28, 70, 219, 116, 115];
pub const REMOVE_LIQUIDITY_2_DISCRIMINATOR: [u8; 8] = [230, 215, 82, 127, 241, 101, 227, 146];

pub const SWAP2_NUM_ACCOUNTS: usize = 17;
pub const ADD_LIQUIDITY_2_NUM_ACCOUNTS: usize = 24;
pub const REMOVE_LIQUIDITY_2_NUM_ACCOUNTS: usize = 24;
pub const MIN_NUM_ACCOUNTS: usize = 18;
pub const MAX_NUM_ACCOUNTS: usize = 24;

/// Accounts of a liquidity instruction passed on as they came, after the fourteen named ones.
pub const LIQUIDITY_2_REMAINING_ACCOUNTS: usize = 10;

pub struct JupiterPerpetuals;

#[derive(Clone, Copy, Debug, PartialEq, Eq, Structural)]
pub struct JupiterPerpetualsSwapData {
    pub is_add_liquidity: bool,
}

impl JupiterPerpetualsSwapData {
    /// Adding liquidity where the first byte is set; removing it (or a plain
    /// swap) where it is zero or there is no data.
    pub fn try_from(data: &[u8]) -> (r: Result<Self, SwapError>)
        ensures
            r == Ok::<Self, SwapError>(JupiterPerpetualsSwapData { is_add_liquidity: data@.len() > 0 && data@[0] != 0 }),
    {
        Ok(JupiterPerpetualsSwapData { is_add_liquidity: if data.len() == 0 { false } else { data[0] != 0 } })
    }
}

pub struct JupiterPerpetualsSwap2Accounts<'info, A> {
    pub owner: &'info A,
    pub funding_account: &'info A,
    pub receiving_account: &'info A,
    pub transfer_authority: &'info A,
    pub perpetuals: &'info A,
    pub pool: &'info A,
    pub receiving_custody: &'info A,
    pub receiving_custody_doves_price_account: &'info A,
    pub receiving_custody_pythnet_price_account: &'info A,
    pub receiving_custody_token_account: &'info A,
    pub dispensing_custody: &'info A,
    pub dispensing_custody_doves_price_account: &'info A,
    pub dispensing_custody_pythnet_price_account: &'info A,
    pub dispensing_custody_token_account: &'info A,
    pub token_program: &'info A,
    pub event_authority: &'info A,
    pub program: &'info A,
}

pub struct JupiterPerpetualsLiquidity2Accounts<'info, A> {
    pub owner: &'info A,
    pub funding_or_receiving_account: &'info A,
    pub lp_token_account: &'info A,
    pub transfer_authority: &'info A,
    pub perpetuals: &'info A,
    pub pool: &'info A,
    pub custody: &'info A,
    pub custody_doves_price_account: &'info A,
    pub custody_pythnet_price_account: &'info A,
    pub custody_token_account: &'info A,
    pub lp_token_mint: &'info A,
    pub token_program: &'info A,
    pub event_authority: &'info A,
    pub program: &'info A,
    pub remaining_accounts: &'info [A],
}

pub enum JupiterPerpetualsSwapAccounts<'info, A> {
    Swap2(JupiterPerpetualsSwap2Accounts<'info, A>),
    Liquidity2(JupiterPerpetualsLiquidity2Accounts<'info, A>),
}

/// `c` holds the accounts of `s`: a swap the owner at one, the seventeen
/// accounts from two on in the order of its fields, and the program at zero;
/// a liquidity instruction likewise its named accounts, then as remaining
/// accounts those from fifteen on.
pub open spec fn jupiter_perpetuals_accounts_laid_out<'info, A>(c: JupiterPerpetualsSwapAccounts<'info, A>, s: Seq<A>) -> bool {
    match c {
        JupiterPerpetualsSwapAccounts::Swap2(x) => {
            &&& *x.owner == s[1]
            &&& *x.funding_account == s[2]
            &&& *x.receiving_account == s[3]
            &&& *x.transfer_authority == s[4]
            &&& *x.perpetuals == s[5]
            &&& *x.pool == s[6]
            &&& *x.receiving_custody == s[7]
            &&& *x.receiving_custody_doves_price_account == s[8]
            &&& *x.receiving_custody_pythnet_price_account == s[9]
            &&& *x.receiving_custody_token_account == s[10]
            &&& *x.dispensing_custody == s[11]
            &&& *x.dispensing_custody_doves_price_account == s[12]
            &&& *x.dispensing_custody_pythnet_price_account == s[13]
            &&& *x.dispensing_custody_token_account == s[14]
            &&& *x.token_program == s[15]
            &&& *x.event_authority == s[16]
            &&& *x.program == s[0]
        },
        JupiterPerpetualsSwapAccounts::Liquidity2(x) => {
            &&& *x.owner == s[1]
            &&& *x.funding_or_receiving_account == s[2]
            &&& *x.lp_token_account == s[3]
            &&& *x.transfer_authority == s[4]
            &&& *x.perpetuals == s[5]
            &&& *x.pool == s[6]
            &&& *x.custody == s[7]
            &&& *x.custody_doves_price_account == s[8]
            &&& *x.custody_pythnet_price_account == s[9]
            &&& *x.custody_token_account == s[10]
            &&& *x.lp_token_mint == s[11]
            &&& *x.token_program == s[12]
            &&& *x.event_authority == s[13]
            &&& *x.program == s[0]
            &&& x.remaining_accounts@ == s.subrange(15, s.len() as int)
        },
    }
}

/// A liquidity instruction passes on exactly ten remaining accounts.
pub open spec fn jupiter_perpetuals_accounts_wf<'info, A>(c: JupiterPerpetualsSwapAccounts<'info, A>) -> bool {
    c matches JupiterPerpetualsSwapAccounts::Liquidity2(x) ==> x.remaining_accounts@.len() == LIQUIDITY_2_REMAINING_ACCOUNTS
}

impl<'info, A> JupiterPerpetualsSwapAccounts<'info, A> {
    /// Eighteen accounts make a swap, twenty-five a liquidity instruction.
    pub fn try_from(accounts: &'info [A]) -> (r: Result<Self, SwapError>)
        ensures
            accounts@.len() < MIN_NUM_ACCOUNTS ==> r == Err::<Self, SwapError>(SwapError::NotEnoughAccountKeys),
            accounts@.len() == SWAP2_NUM_ACCOUNTS + 1 ==> (r matches Ok(c) && c is Swap2 && jupiter_perpetuals_accounts_laid_out(c, accounts@)),
            accounts@.len() == ADD_LIQUIDITY_2_NUM_ACCOUNTS + 1 ==> (r matches Ok(c) && c is Liquidity2 && jupiter_perpetuals_accounts_laid_out(c, accounts@)),
            accounts@.len() >= MIN_NUM_ACCOUNTS && accounts@.len() != SWAP2_NUM_ACCOUNTS + 1 && accounts@.len() != ADD_LIQUIDITY_2_NUM_ACCOUNTS + 1
                ==> r == Err::<Self, SwapError>(SwapError::InvalidInstructionData),
            r matches Ok(c) ==> jupiter_perpetuals_accounts_wf(c),
    {
        if accounts.len() < MIN_NUM_ACCOUNTS {
            return Err(SwapError::NotEnoughAccountKeys);
        }
        let n = accounts.len() - 1;
        if n == SWAP2_NUM_ACCOUNTS {
            Ok(JupiterPerpetualsSwapAccounts::Swap2(JupiterPerpetualsSwap2Accounts {
                owner: &accounts[1],
                funding_account: &accounts[2],
                receiving_account: &accounts[3],
                transfer_authority: &accounts[4],
                perpetuals: &accounts[5],
                pool: &accounts[6],
                receiving_custody: &accounts[7],
                receiving_custody_doves_price_account: &accounts[8],
                receiving_custody_pythnet_price_account: &accounts[9],
                receiving_custody_token_account: &accounts[10],
                dispensing_custody: &accounts[11],
                dispensing_custody_doves_price_account: &accounts[12],
                dispensing_custody_pythnet_price_account: &accounts[13],
                dispensing_custody_token_account: &accounts[14],
                token_program: &accounts[15],
                event_authority: &accounts[16],
                program: &accounts[0],
            }))
        } else if n == ADD_LIQUIDITY_2_NUM_ACCOUNTS {
            Ok(JupiterPerpetualsSwapAccounts::Liquidity2(JupiterPerpetualsLiquidity2Accounts {
                owner: &accounts[1],
                funding_or_receiving_account: &accounts[2],
                lp_token_account: &accounts[3],
                transfer_authority: &accounts[4],
                perpetuals: &accounts[5],
                pool: &accounts[6],
                custody: &accounts[7],
                custody_doves_price_account: &accounts[8],
                custody_pythnet_price_account: &accounts[9],
                custody_token_account: &accounts[10],
                lp_token_mint: &accounts[11],
                token_program: &accounts[12],
                event_authority: &accounts[13],
                program: &accounts[0],
                remaining_accounts: &accounts[15..accounts.len()],
            }))
        } else {
            Err(SwapError::InvalidInstructionData)
        }
    }
}

/// The accounts of the instruction in order; those of a liquidity
/// instruction end with the remaining accounts, passed on as they came.
pub open spec fn jupiter_perpetuals_metas<'info, A>(ctx: JupiterPerpetualsSwapAccounts<'info, A>) -> Seq<CpiAccount<'info, A>> {
    match ctx {
        JupiterPerpetualsSwapAccounts::Swap2(x) => seq![
            writable_signer_meta(x.owner),
            writable_meta(x.funding_account),
            writable_meta(x.receiving_account),
            readonly_meta(x.transfer_authority),
            readonly_meta(x.perpetuals),
            writable_meta(x.pool),
            writable_meta(x.receiving_custody),
            readonly_meta(x.receiving_custody_doves_price_account),
            readonly_meta(x.receiving_custody_pythnet_price_account),
            writable_meta(x.receiving_custody_token_account),
            writable_meta(x.dispensing_custody),
            readonly_meta(x.dispensing_custody_doves_price_account),
            readonly_meta(x.dispensing_custody_pythnet_price_account),
            writable_meta(x.dispensing_custody_token_account),
            readonly_meta(x.token_program),
            readonly_meta(x.event_authority),
            readonly_meta(x.program),
        ],
        JupiterPerpetualsSwapAccounts::Liquidity2(x) => seq![
            writable_signer_meta(x.owner),
            writable_meta(x.funding_or_receiving_account),
            writable_meta(x.lp_token_account),
            readonly_meta(x.transfer_authority),
            readonly_meta(x.perpetuals),
            writable_meta(x.pool),
            writable_meta(x.custody),
            readonly_meta(x.custody_doves_price_account),
            readonly_meta(x.custody_pythnet_price_account),
            writable_meta(x.custody_token_account),
            writable_meta(x.lp_token_mint),
            readonly_meta(x.token_program),
            readonly_meta(x.event_authority),
            readonly_meta(x.program),
        ] + metas_with_role(x.remaining_accounts@, AccountRole::AsPassed),
    }
}

/// A swap: its discriminator and the two amounts. Adding liquidity: its
/// discriminator, the two amounts and a zero amount. Removing liquidity: its
/// discriminator and the two amounts. All little-endian.
pub open spec fn jupiter_perpetuals_data<'info, A>(ctx: JupiterPerpetualsSwapAccounts<'info, A>, in_amount: u64, minimum_out_amount: u64, data: JupiterPerpetualsSwapData) -> Seq<u8> {
    match ctx {
        JupiterPerpetualsSwapAccounts::Swap2(_) =>
            SWAP2_DISCRIMINATOR@ + spec_u64_to_le_bytes(in_amount) + spec_u64_to_le_bytes(minimum_out_amount),
        JupiterPerpetualsSwapAccounts::Liquidity2(_) => if data.is_add_liquidity {
            ADD_LIQUIDITY_2_DISCRIMINATOR@ + spec_u64_to_le_bytes(in_amount) + spec_u64_to_le_bytes(minimum_out_amount) + spec_u64_to_le_bytes(0)
        } else {
            REMOVE_LIQUIDITY_2_DISCRIMINATOR@ + spec_u64_to_le_bytes(in_amount) + spec_u64_to_le_bytes(minimum_out_amount)
        },
    }
}

impl JupiterPerpetuals {
    /// The Jupiter perpetuals swap or liquidity instruction.
    pub fn instruction<'info, A>(ctx: &JupiterPerpetualsSwapAccounts<'info, A>, in_amount: u64, minimum_out_amount: u64, data: &JupiterPerpetualsSwapData) -> (ix: CpiInstruction<'info, A>)
        ensures
            ix.program == CpiProgram::<'info, A>::Id(JUPITER_PERPETUALS_PROGRAM_ID),
            ix.accounts@ == jupiter_perpetuals_metas(*ctx),
            ix.account_infos@ == infos_of(ix.accounts@),
            ix.data@ == jupiter_perpetuals_data(*ctx, in_amount, minimum_out_amount, *data),
    {
        let mut accounts: Vec<CpiAccount<'info, A>> = Vec::new();
        let mut bytes: Vec<u8> = Vec::new();
        match ctx {
            JupiterPerpetualsSwapAccounts::Swap2(x) => {
                accounts.push(writable_signer(x.owner));
                accounts.push(writable(x.funding_account));
                accounts.push(writable(x.receiving_account));
                accounts.push(readonly(x.transfer_authority));
                accounts.push(readonly(x.perpetuals));
                accounts.push(writable(x.pool));
                accounts.push(writable(x.receiving_custody));
                accounts.push(readonly(x.receiving_custody_doves_price_account));
                accounts.push(readonly(x.receiving_custody_pythnet_price_account));
                accounts.push(writable(x.receiving_custody_token_account));
                accounts.push(writable(x.dispensing_custody));
                accounts.push(readonly(x.dispensing_custody_doves_price_account));
                accounts.push(readonly(x.dispensing_custody_pythnet_price_account));
                accounts.push(writable(x.dispensing_custody_token_account));
                accounts.push(readonly(x.token_program));
                accounts.push(readonly(x.event_authority));
                accounts.push(readonly(x.program));
                push_bytes(&mut bytes, &SWAP2_DISCRIMINATOR);
                push_u64_le(&mut bytes, in_amount);
                push_u64_le(&mut bytes, minimum_out_amount);
            },
            JupiterPerpetualsSwapAccounts::Liquidity2(x) => {
                accounts.push(writable_signer(x.owner));
                accounts.push(writable(x.funding_or_receiving_account));
                accounts.push(writable(x.lp_token_account));
                accounts.push(readonly(x.transfer_authority));
                accounts.push(readonly(x.perpetuals));
                accounts.push(writable(x.pool));
                accounts.push(writable(x.custody));
                accounts.push(readonly(x.custody_doves_price_account));
                accounts.push(readonly(x.custody_pythnet_price_account));
                accounts.push(writable(x.custody_token_account));
                accounts.push(writable(x.lp_token_mint));
                accounts.push(readonly(x.token_program));
                accounts.push(readonly(x.event_authority));
                accounts.push(readonly(x.program));
                push_all_with_role(&mut accounts, x.remaining_accounts, AccountRole::AsPassed);
                if data.is_add_liquidity {
                    push_bytes(&mut bytes, &ADD_LIQUIDITY_2_DISCRIMINATOR);
                    push_u64_le(&mut bytes, in_amount);
                    push_u64_le(&mut bytes, minimum_out_amount);
                    push_u64_le(&mut bytes, 0);
                } else {
                    push_bytes(&mut bytes, &REMOVE_LIQUIDITY_2_DISCRIMINATOR);
                    push_u64_le(&mut bytes, in_amount);
                    push_u64_le(&mut bytes, minimum_out_amount);
                }
            },
        }
        let ix = instruction(CpiProgram::Id(JUPITER_PERPETUALS_PROGRAM_ID), accounts, bytes);
        assert(ix.accounts@ =~= jupiter_perpetuals_metas(*ctx));
        assert(ix.data@ =~= jupiter_perpetuals_data(*ctx, in_amount, minimum_out_amount, *data));
        ix
    }

    /// Builds the instruction and invokes it with the given signer seeds.
    pub fn swap_signed(ctx: &JupiterPerpetualsSwapAccounts<'_, AccountView>, in_amount: u64, minimum_out_amount: u64, data: &JupiterPerpetualsSwapData, signer_seeds: &[Signer]) -> (r: Result<(), SwapError>)
        ensures
            r matches Err(e) ==> e is Runtime,
            invoked_with(
                    CpiProgram::Id(JUPITER_PERPETUALS_PROGRAM_ID),
                    jupiter_perpetuals_metas(*ctx),
                    infos_of(jupiter_perpetuals_metas(*ctx)),
                    jupiter_perpetuals_data(*ctx, in_amount, minimum_out_amount, *data),
                    signer_seeds,
                    r,
                ),
    {
        let ix = Self::instruction(ctx, in_amount, minimum_out_amount, data);
        invoke(&ix, signer_seeds)
    }

    /// `swap_signed` without signer seeds.
    pub fn swap(ctx: &JupiterPerpetualsSwapAccounts<'_, AccountView>, in_amount: u64, minimum_out_amount: u64, data: &JupiterPerpetualsSwapData) -> (r: Result<(), SwapError>)
        ensures
            r matches Err(e) ==> e is Runtime,
            invoked_with(
                    CpiProgram::Id(JUPITER_PERPETUALS_PROGRAM_ID),
                    jupiter_perpetuals_metas(*ctx),
                    infos_of(jupiter_perpetuals_metas(*ctx)),
                    jupiter_perpetuals_data(*ctx, in_amount, minimum_out_amount, *data),
                    &[],
                    r,
                ),
    {
        Self::swap_signed(ctx, in_amount, minimum_out_amount, data, &[])
    }
}

/// An instruction has at most `MAX_NUM_ACCOUNTS` accounts: seventeen for a
/// swap, twenty-four for a liquidity instruction.
pub proof fn lemma_jupiter_perpetuals_account_count<'info, A>(ctx: JupiterPerpetualsSwapAccounts<'info, A>)
    requires
        jupiter_perpetuals_accounts_wf(ctx),
    ensures
        ctx is Swap2 ==> jupiter_perpetuals_metas(ctx).len() == SWAP2_NUM_ACCOUNTS,
        ctx is Liquidity2 ==> jupiter_perpetuals_metas(ctx).len() == ADD_LIQUIDITY_2_NUM_ACCOUNTS,
        jupiter_perpetuals_metas(ctx).len() <= MAX_NUM_ACCOUNTS,
{
}

} // verus!
