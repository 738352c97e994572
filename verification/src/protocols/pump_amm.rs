use vstd::prelude::*;
use vstd::bytes::spec_u64_to_le_bytes;
use solana_account_view::AccountView;
use solana_instruction_view::cpi::Signer;
use crate::bytes::{push_bytes, push_u64_le};
use crate::cpi::{
    AccountRole, CpiAccount, CpiInstruction, CpiProgram, account_infos_of, infos_of,
    metas_with_role, push_all_with_role, readonly, readonly_meta, writable, writable_meta,
    writable_signer, writable_signer_meta,
};
use crate::error::SwapError;
use crate::runtime::{invoke, invoked_with};

verus! {

pub const PUMP_AMM_PROGRAM_ID: [u8; 32] = [12, 20, 222, 252, 130, 94, 198, 118, 148, 37, 8, 24, 187, 101, 64, 101, 244, 41, 141, 49, 86, 213, 113, 180, 212, 248, 9, 12, 24, 233, 168, 99];

pub const BUY_DISCRIMINATOR: [u8; 8] = [102, 6, 61, 18, 1, 218, 235, 234];
pub const SELL_DISCRIMINATOR: [u8; 8] = [51, 230, 133, 164, 1, 127, 131, 173];

/// Room for the optional token account of the user's volume accumulator.
pub const MAX_REMAINING_ACCOUNTS: usize = 1;
pub const MAX_ACCOUNTS: usize = 27;

pub struct PumpAmm;

#[derive(Clone, Copy, Debug, PartialEq, Eq, Structural)]
pub struct PumpAmmSwapData {
    pub track_volume: Option<bool>,
    pub is_buy: bool,
}

/// The swap data encoded by `data`: a volume-tracking option (a tag byte and a
/// value byte) and the side byte.
pub open spec fn pump_amm_swap_data_of(data: Seq<u8>) -> Result<PumpAmmSwapData, SwapError> {
    if data.len() < 3 {
        Err(SwapError::InvalidInstructionData)
    } else {
        let (tag, b, is_buy) = (data[0], data[1], data[2]);
        if tag == 0 && b == 0 {
            Ok(PumpAmmSwapData { track_volume: None, is_buy: is_buy == 1 })
        } else if tag == 1 && b == 0 {
            Ok(PumpAmmSwapData { track_volume: Some(false), is_buy: is_buy == 1 })
        } else if tag == 1 && b == 1 {
            Ok(PumpAmmSwapData { track_volume: Some(true), is_buy: is_buy == 1 })
        } else {
            Err(SwapError::InvalidInstructionData)
        }
    }
}

impl PumpAmmSwapData {
    pub const DATA_LEN: usize = 3;

    pub fn try_from(data: &[u8]) -> (r: Result<Self, SwapError>)
        ensures
            r == pump_amm_swap_data_of(data@),
    {
        if data.len() < Self::DATA_LEN {
            return Err(SwapError::InvalidInstructionData);
        }
        let tag = data[0];
        let b = data[1];
        let is_buy = data[2];
        let track_volume = if tag == 0 {
            if b == 0 {
                None
            } else {
                return Err(SwapError::InvalidInstructionData);
            }
        } else if tag == 1 {
            if b == 0 {
                Some(false)
            } else if b == 1 {
                Some(true)
            } else {
                return Err(SwapError::InvalidInstructionData);
            }
        } else {
            return Err(SwapError::InvalidInstructionData);
        };
        Ok(PumpAmmSwapData { track_volume, is_buy: is_buy == 1 })
    }
}

pub struct PumpAmmSwapAccountsBase<'info, A> {
    pub pump_amm_program: &'info A,
    pub pool: &'info A,
    pub user: &'info A,
    pub global_config: &'info A,
    pub base_mint: &'info A,
    pub quote_mint: &'info A,
    pub user_base_token_account: &'info A,
    pub user_quote_token_account: &'info A,
    pub pool_base_token_account: &'info A,
    pub pool_quote_token_account: &'info A,
    pub protocol_fee_recipient: &'info A,
    pub protocol_fee_recipient_token_account: &'info A,
    pub base_token_program: &'info A,
    pub quote_token_program: &'info A,
    pub system_program: &'info A,
    pub associated_token_program: &'info A,
    pub event_authority: &'info A,
    pub program: &'info A,
    pub coin_creator_vault_ata: &'info A,
    pub coin_creator_vault_authority: &'info A,
}

pub enum PumpAmmSwapAccountsLeg<'info, A> {
    Buy {
        global_volume_accumulator: &'info A,
        user_volume_accumulator: &'info A,
    },
    Sell,
}

pub struct PumpAmmSwapAccountsTail<'info, A> {
    pub fee_config: &'info A,
    pub fee_program: &'info A,
    pub pool_v2: &'info A,
    pub remaining_accounts: &'info [A],
    pub fee_recipient: &'info A,
    pub fee_recipient_quote_mint_ata: &'info A,
}

pub struct PumpAmmSwapAccounts<'info, A> {
    pub base: PumpAmmSwapAccountsBase<'info, A>,
    pub leg: PumpAmmSwapAccountsLeg<'info, A>,
    pub tail: PumpAmmSwapAccountsTail<'info, A>,
}

/// `c` holds the accounts of `s`: the twenty base accounts first; for a buy
/// the two volume accumulators next; then the fee config, fee program and
/// pool; the remaining accounts; and the fee recipient and its quote token
/// account last.
pub open spec fn pump_amm_accounts_laid_out<'info, A>(c: PumpAmmSwapAccounts<'info, A>, s: Seq<A>) -> bool {
    &&& *c.base.pump_amm_program == s[0]
    &&& *c.base.pool == s[1]
    &&& *c.base.user == s[2]
    &&& *c.base.global_config == s[3]
    &&& *c.base.base_mint == s[4]
    &&& *c.base.quote_mint == s[5]
    &&& *c.base.user_base_token_account == s[6]
    &&& *c.base.user_quote_token_account == s[7]
    &&& *c.base.pool_base_token_account == s[8]
    &&& *c.base.pool_quote_token_account == s[9]
    &&& *c.base.protocol_fee_recipient == s[10]
    &&& *c.base.protocol_fee_recipient_token_account == s[11]
    &&& *c.base.base_token_program == s[12]
    &&& *c.base.quote_token_program == s[13]
    &&& *c.base.system_program == s[14]
    &&& *c.base.associated_token_program == s[15]
    &&& *c.base.event_authority == s[16]
    &&& *c.base.program == s[17]
    &&& *c.base.coin_creator_vault_ata == s[18]
    &&& *c.base.coin_creator_vault_authority == s[19]
    &&& *c.tail.fee_recipient == s[s.len() - 2]
    &&& *c.tail.fee_recipient_quote_mint_ata == s[s.len() - 1]
    &&& match c.leg {
        PumpAmmSwapAccountsLeg::Buy { global_volume_accumulator, user_volume_accumulator } => {
            &&& *global_volume_accumulator == s[20]
            &&& *user_volume_accumulator == s[21]
            &&& *c.tail.fee_config == s[22]
            &&& *c.tail.fee_program == s[23]
            &&& *c.tail.pool_v2 == s[24]
            &&& c.tail.remaining_accounts@ == s.subrange(25, s.len() - 2)
        },
        PumpAmmSwapAccountsLeg::Sell => {
            &&& *c.tail.fee_config == s[20]
            &&& *c.tail.fee_program == s[21]
            &&& *c.tail.pool_v2 == s[22]
            &&& c.tail.remaining_accounts@ == s.subrange(23, s.len() - 2)
        },
    }
}

impl<'info, A> PumpAmmSwapAccounts<'info, A> {
    pub const MIN_NUM_ACCOUNTS_BUY: usize = 26;
    pub const MIN_NUM_ACCOUNTS_SELL: usize = 24;

    /// A buy from twenty-six accounts on, a sell below; the fee recipient and
    /// its token account are the last two. Twenty-four and twenty-six accounts
    /// leave no room for the remaining accounts and are not taken.
    pub fn try_from(accounts: &'info [A]) -> (r: Result<Self, SwapError>)
        requires
            accounts@.len() != Self::MIN_NUM_ACCOUNTS_SELL,
            accounts@.len() != Self::MIN_NUM_ACCOUNTS_BUY,
        ensures
            accounts@.len() < Self::MIN_NUM_ACCOUNTS_SELL ==> r == Err::<Self, SwapError>(SwapError::NotEnoughAccountKeys),
            accounts@.len() == Self::MIN_NUM_ACCOUNTS_SELL + 1 ==> (r matches Ok(c) && c.leg is Sell && pump_amm_accounts_laid_out(c, accounts@)),
            accounts@.len() > Self::MIN_NUM_ACCOUNTS_BUY ==> (r matches Ok(c) && c.leg is Buy && pump_amm_accounts_laid_out(c, accounts@)),
    {
        if accounts.len() < Self::MIN_NUM_ACCOUNTS_SELL {
            return Err(SwapError::NotEnoughAccountKeys);
        }
        let i = accounts;
        let base = PumpAmmSwapAccountsBase {
            pump_amm_program: &i[0],
            pool: &i[1],
            user: &i[2],
            global_config: &i[3],
            base_mint: &i[4],
            quote_mint: &i[5],
            user_base_token_account: &i[6],
            user_quote_token_account: &i[7],
            pool_base_token_account: &i[8],
            pool_quote_token_account: &i[9],
            protocol_fee_recipient: &i[10],
            protocol_fee_recipient_token_account: &i[11],
            base_token_program: &i[12],
            quote_token_program: &i[13],
            system_program: &i[14],
            associated_token_program: &i[15],
            event_authority: &i[16],
            program: &i[17],
            coin_creator_vault_ata: &i[18],
            coin_creator_vault_authority: &i[19],
        };
        let fee_recipient_index = i.len() - 2;
        let fee_recipient = &i[fee_recipient_index];
        let fee_recipient_quote_mint_ata = &i[fee_recipient_index + 1];
        if accounts.len() >= Self::MIN_NUM_ACCOUNTS_BUY {
            Ok(PumpAmmSwapAccounts {
                base,
                leg: PumpAmmSwapAccountsLeg::Buy { global_volume_accumulator: &i[20], user_volume_accumulator: &i[21] },
                tail: PumpAmmSwapAccountsTail {
                    fee_config: &i[22],
                    fee_program: &i[23],
                    pool_v2: &i[24],
                    remaining_accounts: &i[25..fee_recipient_index],
                    fee_recipient,
                    fee_recipient_quote_mint_ata,
                },
            })
        } else {
            Ok(PumpAmmSwapAccounts {
                base,
                leg: PumpAmmSwapAccountsLeg::Sell,
                tail: PumpAmmSwapAccountsTail {
                    fee_config: &i[20],
                    fee_program: &i[21],
                    pool_v2: &i[22],
                    remaining_accounts: &i[23..fee_recipient_index],
                    fee_recipient,
                    fee_recipient_quote_mint_ata,
                },
            })
        }
    }
}

/// The number of accounts a swap passes: twenty-five for a buy, twenty-three
/// for a sell, and one per remaining account.
pub open spec fn pump_amm_total_accounts<'info, A>(ctx: PumpAmmSwapAccounts<'info, A>) -> int {
    (if ctx.leg is Buy { 25int } else { 23int }) + ctx.tail.remaining_accounts@.len()
}

/// The accounts before the remaining ones: the nineteen base accounts the
/// program takes, the volume accumulators of a buy, then the fee config, fee
/// program and pool.
pub open spec fn pump_amm_head_metas<'info, A>(ctx: PumpAmmSwapAccounts<'info, A>) -> Seq<CpiAccount<'info, A>> {
    seq![
        writable_meta(ctx.base.pool),
        writable_signer_meta(ctx.base.user),
        readonly_meta(ctx.base.global_config),
        readonly_meta(ctx.base.base_mint),
        readonly_meta(ctx.base.quote_mint),
        writable_meta(ctx.base.user_base_token_account),
        writable_meta(ctx.base.user_quote_token_account),
        writable_meta(ctx.base.pool_base_token_account),
        writable_meta(ctx.base.pool_quote_token_account),
        readonly_meta(ctx.base.protocol_fee_recipient),
        writable_meta(ctx.base.protocol_fee_recipient_token_account),
        readonly_meta(ctx.base.base_token_program),
        readonly_meta(ctx.base.quote_token_program),
        readonly_meta(ctx.base.system_program),
        readonly_meta(ctx.base.associated_token_program),
        readonly_meta(ctx.base.event_authority),
        readonly_meta(ctx.base.program),
        writable_meta(ctx.base.coin_creator_vault_ata),
        readonly_meta(ctx.base.coin_creator_vault_authority),
    ] + match ctx.leg {
        PumpAmmSwapAccountsLeg::Buy { global_volume_accumulator, user_volume_accumulator } =>
            seq![readonly_meta(global_volume_accumulator), writable_meta(user_volume_accumulator)],
        PumpAmmSwapAccountsLeg::Sell => Seq::empty(),
    } + seq![
        readonly_meta(ctx.tail.fee_config),
        readonly_meta(ctx.tail.fee_program),
        readonly_meta(ctx.tail.pool_v2),
    ]
}

/// The head accounts, the remaining accounts as they came, then the fee
/// recipient; the fee recipient's quote token account is not passed.
pub open spec fn pump_amm_metas<'info, A>(ctx: PumpAmmSwapAccounts<'info, A>) -> Seq<CpiAccount<'info, A>> {
    pump_amm_head_metas(ctx) + metas_with_role(ctx.tail.remaining_accounts@, AccountRole::AsPassed)
        + seq![readonly_meta(ctx.tail.fee_recipient)]
}

/// Discriminator of the side, the quote amount, the base amount (a buy pays
/// in base and asks at least the minimum out amount of quote; a sell the
/// other way round), then the volume-tracking option.
pub open spec fn pump_amm_data(in_amount: u64, minimum_out_amount: u64, data: PumpAmmSwapData) -> Seq<u8> {
    let base_amount = if data.is_buy { in_amount } else { minimum_out_amount };
    let quote_amount = if data.is_buy { minimum_out_amount } else { in_amount };
    (if data.is_buy { BUY_DISCRIMINATOR@ } else { SELL_DISCRIMINATOR@ })
        + spec_u64_to_le_bytes(quote_amount) + spec_u64_to_le_bytes(base_amount)
        + match data.track_volume {
            None => seq![0u8, 0u8],
            Some(b) => seq![1u8, if b { 1u8 } else { 0u8 }],
        }
}

impl PumpAmm {
    /// The Pump AMM swap instruction; refused where it would pass more than
    /// `MAX_ACCOUNTS` accounts (exactly `MAX_ACCOUNTS` is not taken), and
    /// then where there are more than `MAX_REMAINING_ACCOUNTS` remaining
    /// accounts, which the runtime accounts could not follow in order.
    pub fn instruction<'info, A>(ctx: &PumpAmmSwapAccounts<'info, A>, in_amount: u64, minimum_out_amount: u64, data: &PumpAmmSwapData) -> (r: Result<CpiInstruction<'info, A>, SwapError>)
        requires
            pump_amm_total_accounts(*ctx) != MAX_ACCOUNTS,
        ensures
            pump_amm_total_accounts(*ctx) > MAX_ACCOUNTS ==> r == Err::<CpiInstruction<'info, A>, SwapError>(SwapError::NotEnoughAccountKeys),
            pump_amm_total_accounts(*ctx) < MAX_ACCOUNTS && ctx.tail.remaining_accounts@.len() > MAX_REMAINING_ACCOUNTS
                ==> r == Err::<CpiInstruction<'info, A>, SwapError>(SwapError::InvalidArgument),
            ctx.tail.remaining_accounts@.len() <= MAX_REMAINING_ACCOUNTS ==> (r matches Ok(ix) && {
                &&& ix.program == CpiProgram::<'info, A>::Id(PUMP_AMM_PROGRAM_ID)
                &&& ix.accounts@ == pump_amm_metas(*ctx)
                &&& ix.account_infos@ == infos_of(ix.accounts@)
                &&& ix.data@ == pump_amm_data(in_amount, minimum_out_amount, *data)
            }),
    {
        let base_account_len: usize = match &ctx.leg {
            PumpAmmSwapAccountsLeg::Buy { .. } => 25,
            PumpAmmSwapAccountsLeg::Sell => 23,
        };
        if ctx.tail.remaining_accounts.len() > MAX_ACCOUNTS - base_account_len {
            return Err(SwapError::NotEnoughAccountKeys);
        }
        if ctx.tail.remaining_accounts.len() > MAX_REMAINING_ACCOUNTS {
            return Err(SwapError::InvalidArgument);
        }
        let mut head: Vec<CpiAccount<'info, A>> = Vec::new();
        head.push(writable(ctx.base.pool));
        head.push(writable_signer(ctx.base.user));
        head.push(readonly(ctx.base.global_config));
        head.push(readonly(ctx.base.base_mint));
        head.push(readonly(ctx.base.quote_mint));
        head.push(writable(ctx.base.user_base_token_account));
        head.push(writable(ctx.base.user_quote_token_account));
        head.push(writable(ctx.base.pool_base_token_account));
        head.push(writable(ctx.base.pool_quote_token_account));
        head.push(readonly(ctx.base.protocol_fee_recipient));
        head.push(writable(ctx.base.protocol_fee_recipient_token_account));
        head.push(readonly(ctx.base.base_token_program));
        head.push(readonly(ctx.base.quote_token_program));
        head.push(readonly(ctx.base.system_program));
        head.push(readonly(ctx.base.associated_token_program));
        head.push(readonly(ctx.base.event_authority));
        head.push(readonly(ctx.base.program));
        head.push(writable(ctx.base.coin_creator_vault_ata));
        head.push(readonly(ctx.base.coin_creator_vault_authority));
        match &ctx.leg {
            PumpAmmSwapAccountsLeg::Buy { global_volume_accumulator, user_volume_accumulator } => {
                head.push(readonly(*global_volume_accumulator));
                head.push(writable(*user_volume_accumulator));
            },
            PumpAmmSwapAccountsLeg::Sell => {},
        }
        head.push(readonly(ctx.tail.fee_config));
        head.push(readonly(ctx.tail.fee_program));
        head.push(readonly(ctx.tail.pool_v2));
        assert(head@ =~= pump_amm_head_metas(*ctx));
        let mut accounts = head;
        push_all_with_role(&mut accounts, ctx.tail.remaining_accounts, AccountRole::AsPassed);
        accounts.push(readonly(ctx.tail.fee_recipient));
        let account_infos = account_infos_of(&accounts);
        let mut bytes: Vec<u8> = Vec::new();
        if data.is_buy {
            push_bytes(&mut bytes, &BUY_DISCRIMINATOR);
            push_u64_le(&mut bytes, minimum_out_amount);
            push_u64_le(&mut bytes, in_amount);
        } else {
            push_bytes(&mut bytes, &SELL_DISCRIMINATOR);
            push_u64_le(&mut bytes, in_amount);
            push_u64_le(&mut bytes, minimum_out_amount);
        }
        match data.track_volume {
            None => {
                bytes.push(0u8);
                bytes.push(0u8);
            },
            Some(b) => {
                bytes.push(1u8);
                bytes.push(if b { 1u8 } else { 0u8 });
            },
        }
        assert(accounts@ =~= pump_amm_metas(*ctx));
        assert(bytes@ =~= pump_amm_data(in_amount, minimum_out_amount, *data));
        Ok(CpiInstruction { program: CpiProgram::Id(PUMP_AMM_PROGRAM_ID), accounts, account_infos, data: bytes })
    }

    /// Builds the swap instruction and invokes it with the given signer seeds.
    pub fn swap_signed(ctx: &PumpAmmSwapAccounts<'_, AccountView>, in_amount: u64, minimum_out_amount: u64, data: &PumpAmmSwapData, signer_seeds: &[Signer]) -> (r: Result<(), SwapError>)
        requires
            pump_amm_total_accounts(*ctx) != MAX_ACCOUNTS,
        ensures
            pump_amm_total_accounts(*ctx) > MAX_ACCOUNTS ==> r == Err::<(), SwapError>(SwapError::NotEnoughAccountKeys),
            pump_amm_total_accounts(*ctx) < MAX_ACCOUNTS && ctx.tail.remaining_accounts@.len() > MAX_REMAINING_ACCOUNTS
                ==> r == Err::<(), SwapError>(SwapError::InvalidArgument),
            ctx.tail.remaining_accounts@.len() <= MAX_REMAINING_ACCOUNTS ==> (r matches Err(e) ==> e is Runtime),
            ctx.tail.remaining_accounts@.len() <= MAX_REMAINING_ACCOUNTS ==> invoked_with(
                    CpiProgram::Id(PUMP_AMM_PROGRAM_ID),
                    pump_amm_metas(*ctx),
                    infos_of(pump_amm_metas(*ctx)),
                    pump_amm_data(in_amount, minimum_out_amount, *data),
                    signer_seeds,
                    r,
                ),
    {
        let ix = Self::instruction(ctx, in_amount, minimum_out_amount, data)?;
        invoke(&ix, signer_seeds)
    }

    /// `swap_signed` without signer seeds.
    pub fn swap(ctx: &PumpAmmSwapAccounts<'_, AccountView>, in_amount: u64, minimum_out_amount: u64, data: &PumpAmmSwapData) -> (r: Result<(), SwapError>)
        requires
            pump_amm_total_accounts(*ctx) != MAX_ACCOUNTS,
        ensures
            pump_amm_total_accounts(*ctx) > MAX_ACCOUNTS ==> r == Err::<(), SwapError>(SwapError::NotEnoughAccountKeys),
            pump_amm_total_accounts(*ctx) < MAX_ACCOUNTS && ctx.tail.remaining_accounts@.len() > MAX_REMAINING_ACCOUNTS
                ==> r == Err::<(), SwapError>(SwapError::InvalidArgument),
            ctx.tail.remaining_accounts@.len() <= MAX_REMAINING_ACCOUNTS ==> (r matches Err(e) ==> e is Runtime),
            ctx.tail.remaining_accounts@.len() <= MAX_REMAINING_ACCOUNTS ==> invoked_with(
                    CpiProgram::Id(PUMP_AMM_PROGRAM_ID),
                    pump_amm_metas(*ctx),
                    infos_of(pump_amm_metas(*ctx)),
                    pump_amm_data(in_amount, minimum_out_amount, *data),
                    &[],
                    r,
                ),
    {
        Self::swap_signed(ctx, in_amount, minimum_out_amount, data, &[])
    }
}

} // verus!
