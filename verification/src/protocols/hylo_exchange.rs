use vstd::prelude::*;
use vstd::bytes::{spec_u64_from_le_bytes, spec_u64_to_le_bytes, u64_to_le_bytes};
use solana_account_view::AccountView;
use solana_instruction_view::cpi::Signer;
use crate::bytes::bytes32_eq;
use crate::cpi::{
    CpiAccount, CpiInstruction, CpiProgram, infos_of, instruction, readonly, readonly_meta,
    writable, writable_meta, writable_signer, writable_signer_meta,
};
use crate::error::SwapError;
use crate::runtime::{address_read, data_read, invoke, invoked_with, read_address, read_data};

verus! {

pub const HYLO_EXCHANGE_PROGRAM_ID: [u8; 32] = [245, 187, 72, 160, 4, 116, 48, 134, 197, 164, 152, 189, 233, 219, 27, 124, 201, 65, 103, 243, 58, 82, 140, 90, 13, 150, 83, 40, 223, 158, 124, 33];

pub const MINT_STABLECOIN_DISCRIMINATOR: [u8; 8] = [196, 235, 215, 70, 211, 5, 214, 238];
pub const REDEEM_STABLECOIN_DISCRIMINATOR: [u8; 8] = [69, 46, 6, 97, 170, 130, 160, 237];
pub const MINT_LEVERCOIN_DISCRIMINATOR: [u8; 8] = [91, 156, 221, 157, 151, 186, 223, 231];
pub const REDEEM_LEVERCOIN_DISCRIMINATOR: [u8; 8] = [132, 166, 215, 32, 46, 131, 174, 44];
pub const SWAP_STABLE_TO_LEVER_DISCRIMINATOR: [u8; 8] = [123, 194, 84, 140, 192, 193, 193, 161];
pub const SWAP_LEVER_TO_STABLE_DISCRIMINATOR: [u8; 8] = [167, 111, 84, 179, 69, 7, 135, 48];

/// Slippage tolerance sent with every swap, in basis points.
pub const SLIPPAGE_TOLERANCE: u64 = 20;

/// The stablecoin mint authority, which tells a stablecoin mint apart from a
/// levercoin redemption (both take nineteen accounts).
pub const HYUSD_STABLECOIN_AUTH: [u8; 32] = [173, 103, 235, 169, 12, 25, 214, 27, 75, 203, 33, 146, 88, 254, 2, 155, 19, 80, 42, 83, 86, 209, 49, 223, 152, 181, 78, 187, 117, 78, 76, 53];

/// Offset of the decimals in an SPL mint account.
pub const MINT_DECIMALS_OFFSET: usize = 44;

pub struct HyloExchange;

#[derive(Clone, Copy, Debug, PartialEq, Eq, Structural)]
pub enum SwapType {
    MintStablecoin,
    RedeemStablecoin,
    MintLevercoin,
    RedeemLevercoin,
    SwapStableToLever,
    SwapLeverToStable,
}

#[derive(Clone, Copy, Debug, PartialEq, Eq, Structural)]
pub struct HyloExchangeSwapData {
    pub swap_type: SwapType,
}

/// The swap type whose number is `b`, if there is one.
pub open spec fn swap_type_of_byte(b: u8) -> Option<SwapType> {
    if b == 0 {
        Some(SwapType::MintStablecoin)
    } else if b == 1 {
        Some(SwapType::RedeemStablecoin)
    } else if b == 2 {
        Some(SwapType::MintLevercoin)
    } else if b == 3 {
        Some(SwapType::RedeemLevercoin)
    } else if b == 4 {
        Some(SwapType::SwapStableToLever)
    } else if b == 5 {
        Some(SwapType::SwapLeverToStable)
    } else {
        None
    }
}

impl HyloExchangeSwapData {
    pub const DATA_LEN: usize = 1;

    /// The first byte is the number of the swap type.
    pub fn try_from(data: &[u8]) -> (r: Result<Self, SwapError>)
        ensures
            data@.len() == 0 ==> r == Err::<Self, SwapError>(SwapError::InvalidInstructionData),
            data@.len() > 0 ==> match swap_type_of_byte(data@[0]) {
                Some(t) => r == Ok::<Self, SwapError>(HyloExchangeSwapData { swap_type: t }),
                None => r == Err::<Self, SwapError>(SwapError::InvalidInstructionData),
            },
    {
        if data.len() == 0 {
            return Err(SwapError::InvalidInstructionData);
        }
        let swap_type = match data[0] {
            0 => SwapType::MintStablecoin,
            1 => SwapType::RedeemStablecoin,
            2 => SwapType::MintLevercoin,
            3 => SwapType::RedeemLevercoin,
            4 => SwapType::SwapStableToLever,
            5 => SwapType::SwapLeverToStable,
            _ => return Err(SwapError::InvalidInstructionData),
        };
        Ok(HyloExchangeSwapData { swap_type })
    }
}

/// The accounts of one kind of Hylo exchange, in the order the program takes them.
pub enum HyloExchangeLeg<'info, A> {
    MintStablecoin {
        user: &'info A,
        hylo: &'info A,
        fee_auth: &'info A,
        vault_auth: &'info A,
        stablecoin_auth: &'info A,
        fee_vault: &'info A,
        lst_vault: &'info A,
        lst_header: &'info A,
        user_lst_ta: &'info A,
        user_stablecoin_ta: &'info A,
        lst_mint: &'info A,
        stablecoin_mint: &'info A,
        sol_usd_pyth_feed: &'info A,
        token_program: &'info A,
        associated_token_program: &'info A,
        system_program: &'info A,
        event_authority: &'info A,
        program: &'info A,
    },
    RedeemStablecoin {
        user: &'info A,
        hylo: &'info A,
        fee_auth: &'info A,
        vault_auth: &'info A,
        fee_vault: &'info A,
        lst_vault: &'info A,
        lst_header: &'info A,
        user_stablecoin_ta: &'info A,
        user_lst_ta: &'info A,
        stablecoin_mint: &'info A,
        lst_mint: &'info A,
        sol_usd_pyth_feed: &'info A,
        system_program: &'info A,
        token_program: &'info A,
        associated_token_program: &'info A,
        event_authority: &'info A,
        program: &'info A,
    },
    MintLevercoin {
        user: &'info A,
        hylo: &'info A,
        fee_auth: &'info A,
        vault_auth: &'info A,
        levercoin_auth: &'info A,
        fee_vault: &'info A,
        lst_vault: &'info A,
        lst_header: &'info A,
        user_lst_ta: &'info A,
        user_levercoin_ta: &'info A,
        lst_mint: &'info A,
        levercoin_mint: &'info A,
        stablecoin_mint: &'info A,
        sol_usd_pyth_feed: &'info A,
        token_program: &'info A,
        associated_token_program: &'info A,
        system_program: &'info A,
        event_authority: &'info A,
        program: &'info A,
    },
    RedeemLevercoin {
        user: &'info A,
        hylo: &'info A,
        fee_auth: &'info A,
        vault_auth: &'info A,
        fee_vault: &'info A,
        lst_vault: &'info A,
        lst_header: &'info A,
        user_levercoin_ta: &'info A,
        user_lst_ta: &'info A,
        levercoin_mint: &'info A,
        stablecoin_mint: &'info A,
        lst_mint: &'info A,
        sol_usd_pyth_feed: &'info A,
        system_program: &'info A,
        token_program: &'info A,
        associated_token_program: &'info A,
        event_authority: &'info A,
        program: &'info A,
    },
    Rebalance {
        user: &'info A,
        hylo: &'info A,
        sol_usd_pyth_feed: &'info A,
        stablecoin_mint: &'info A,
        stablecoin_auth: &'info A,
        fee_auth: &'info A,
        fee_vault: &'info A,
        user_stablecoin_ta: &'info A,
        levercoin_mint: &'info A,
        levercoin_auth: &'info A,
        user_levercoin_ta: &'info A,
        token_program: &'info A,
        event_authority: &'info A,
        program: &'info A,
    },
}

pub struct HyloExchangeSwapAccounts<'info, A> {
    pub hylo_program: &'info A,
    pub leg: HyloExchangeLeg<'info, A>,
}

/// `c` holds the accounts of `s`: the program first, then the leg's accounts
/// in the order of its fields.
pub open spec fn hylo_accounts_laid_out<'info, A>(c: HyloExchangeSwapAccounts<'info, A>, s: Seq<A>) -> bool {
    &&& *c.hylo_program == s[0]
    &&& match c.leg {
        HyloExchangeLeg::MintStablecoin { user, hylo, fee_auth, vault_auth, stablecoin_auth, fee_vault, lst_vault, lst_header, user_lst_ta, user_stablecoin_ta, lst_mint, stablecoin_mint, sol_usd_pyth_feed, token_program, associated_token_program, system_program, event_authority, program } => {
            &&& *user == s[1]
            &&& *hylo == s[2]
            &&& *fee_auth == s[3]
            &&& *vault_auth == s[4]
            &&& *stablecoin_auth == s[5]
            &&& *fee_vault == s[6]
            &&& *lst_vault == s[7]
            &&& *lst_header == s[8]
            &&& *user_lst_ta == s[9]
            &&& *user_stablecoin_ta == s[10]
            &&& *lst_mint == s[11]
            &&& *stablecoin_mint == s[12]
            &&& *sol_usd_pyth_feed == s[13]
            &&& *token_program == s[14]
            &&& *associated_token_program == s[15]
            &&& *system_program == s[16]
            &&& *event_authority == s[17]
            &&& *program == s[18]
        },
        HyloExchangeLeg::RedeemStablecoin { user, hylo, fee_auth, vault_auth, fee_vault, lst_vault, lst_header, user_stablecoin_ta, user_lst_ta, stablecoin_mint, lst_mint, sol_usd_pyth_feed, system_program, token_program, associated_token_program, event_authority, program } => {
            &&& *user == s[1]
            &&& *hylo == s[2]
            &&& *fee_auth == s[3]
            &&& *vault_auth == s[4]
            &&& *fee_vault == s[5]
            &&& *lst_vault == s[6]
            &&& *lst_header == s[7]
            &&& *user_stablecoin_ta == s[8]
            &&& *user_lst_ta == s[9]
            &&& *stablecoin_mint == s[10]
            &&& *lst_mint == s[11]
            &&& *sol_usd_pyth_feed == s[12]
            &&& *system_program == s[13]
            &&& *token_program == s[14]
            &&& *associated_token_program == s[15]
            &&& *event_authority == s[16]
            &&& *program == s[17]
        },
        HyloExchangeLeg::MintLevercoin { user, hylo, fee_auth, vault_auth, levercoin_auth, fee_vault, lst_vault, lst_header, user_lst_ta, user_levercoin_ta, lst_mint, levercoin_mint, stablecoin_mint, sol_usd_pyth_feed, token_program, associated_token_program, system_program, event_authority, program } => {
            &&& *user == s[1]
            &&& *hylo == s[2]
            &&& *fee_auth == s[3]
            &&& *vault_auth == s[4]
            &&& *levercoin_auth == s[5]
            &&& *fee_vault == s[6]
            &&& *lst_vault == s[7]
            &&& *lst_header == s[8]
            &&& *user_lst_ta == s[9]
            &&& *user_levercoin_ta == s[10]
            &&& *lst_mint == s[11]
            &&& *levercoin_mint == s[12]
            &&& *stablecoin_mint == s[13]
            &&& *sol_usd_pyth_feed == s[14]
            &&& *token_program == s[15]
            &&& *associated_token_program == s[16]
            &&& *system_program == s[17]
            &&& *event_authority == s[18]
            &&& *program == s[19]
        },
        HyloExchangeLeg::RedeemLevercoin { user, hylo, fee_auth, vault_auth, fee_vault, lst_vault, lst_header, user_levercoin_ta, user_lst_ta, levercoin_mint, stablecoin_mint, lst_mint, sol_usd_pyth_feed, system_program, token_program, associated_token_program, event_authority, program } => {
            &&& *user == s[1]
            &&& *hylo == s[2]
            &&& *fee_auth == s[3]
            &&& *vault_auth == s[4]
            &&& *fee_vault == s[5]
            &&& *lst_vault == s[6]
            &&& *lst_header == s[7]
            &&& *user_levercoin_ta == s[8]
            &&& *user_lst_ta == s[9]
            &&& *levercoin_mint == s[10]
            &&& *stablecoin_mint == s[11]
            &&& *lst_mint == s[12]
            &&& *sol_usd_pyth_feed == s[13]
            &&& *system_program == s[14]
            &&& *token_program == s[15]
            &&& *associated_token_program == s[16]
            &&& *event_authority == s[17]
            &&& *program == s[18]
        },
        HyloExchangeLeg::Rebalance { user, hylo, sol_usd_pyth_feed, stablecoin_mint, stablecoin_auth, fee_auth, fee_vault, user_stablecoin_ta, levercoin_mint, levercoin_auth, user_levercoin_ta, token_program, event_authority, program } => {
            &&& *user == s[1]
            &&& *hylo == s[2]
            &&& *sol_usd_pyth_feed == s[3]
            &&& *stablecoin_mint == s[4]
            &&& *stablecoin_auth == s[5]
            &&& *fee_auth == s[6]
            &&& *fee_vault == s[7]
            &&& *user_stablecoin_ta == s[8]
            &&& *levercoin_mint == s[9]
            &&& *levercoin_auth == s[10]
            &&& *user_levercoin_ta == s[11]
            &&& *token_program == s[12]
            &&& *event_authority == s[13]
            &&& *program == s[14]
        },
    }
}

impl<'info, A> HyloExchangeSwapAccounts<'info, A> {
    pub const NUM_ACCOUNTS_MINT_STABLECOIN: usize = 19;
    pub const NUM_ACCOUNTS_REDEEM_STABLECOIN: usize = 18;
    pub const NUM_ACCOUNTS_MINT_LEVERCOIN: usize = 20;
    pub const NUM_ACCOUNTS_REDEEM_LEVERCOIN: usize = 19;
    pub const NUM_ACCOUNTS_REBALANCE: usize = 15;

    /// Chooses the leg by the number of accounts; of the two legs with
    /// nineteen accounts, a stablecoin mint where `sixth_address`, the address
    /// of the sixth account, is that of the stablecoin mint authority, else a
    /// levercoin redemption.
    pub fn try_from_probed(accounts: &'info [A], sixth_address: &[u8; 32]) -> (r: Result<Self, SwapError>)
        ensures
            accounts@.len() == 19 ==> (r matches Ok(c) && hylo_accounts_laid_out(c, accounts@)
                && (c.leg is MintStablecoin <==> sixth_address@ == HYUSD_STABLECOIN_AUTH@)
                && (c.leg is MintStablecoin || c.leg is RedeemLevercoin)),
            accounts@.len() == 18 ==> (r matches Ok(c) && c.leg is RedeemStablecoin && hylo_accounts_laid_out(c, accounts@)),
            accounts@.len() == 20 ==> (r matches Ok(c) && c.leg is MintLevercoin && hylo_accounts_laid_out(c, accounts@)),
            accounts@.len() == 15 ==> (r matches Ok(c) && c.leg is Rebalance && hylo_accounts_laid_out(c, accounts@)),
            !(accounts@.len() == 15 || accounts@.len() == 18 || accounts@.len() == 19 || accounts@.len() == 20)
                ==> r == Err::<Self, SwapError>(SwapError::NotEnoughAccountKeys),
    {
        let len = accounts.len();
        if len < Self::NUM_ACCOUNTS_REBALANCE {
            return Err(SwapError::NotEnoughAccountKeys);
        }
        let hylo_program = &accounts[0];
        if len == Self::NUM_ACCOUNTS_MINT_STABLECOIN && bytes32_eq(sixth_address, &HYUSD_STABLECOIN_AUTH) {
            Ok(HyloExchangeSwapAccounts {
                hylo_program,
                leg: HyloExchangeLeg::MintStablecoin {
                    user: &accounts[1],
                    hylo: &accounts[2],
                    fee_auth: &accounts[3],
                    vault_auth: &accounts[4],
                    stablecoin_auth: &accounts[5],
                    fee_vault: &accounts[6],
                    lst_vault: &accounts[7],
                    lst_header: &accounts[8],
                    user_lst_ta: &accounts[9],
                    user_stablecoin_ta: &accounts[10],
                    lst_mint: &accounts[11],
                    stablecoin_mint: &accounts[12],
                    sol_usd_pyth_feed: &accounts[13],
                    token_program: &accounts[14],
                    associated_token_program: &accounts[15],
                    system_program: &accounts[16],
                    event_authority: &accounts[17],
                    program: &accounts[18],
                },
            })
        } else if len == Self::NUM_ACCOUNTS_REDEEM_STABLECOIN {
            Ok(HyloExchangeSwapAccounts {
                hylo_program,
                leg: HyloExchangeLeg::RedeemStablecoin {
                    user: &accounts[1],
                    hylo: &accounts[2],
                    fee_auth: &accounts[3],
                    vault_auth: &accounts[4],
                    fee_vault: &accounts[5],
                    lst_vault: &accounts[6],
                    lst_header: &accounts[7],
                    user_stablecoin_ta: &accounts[8],
                    user_lst_ta: &accounts[9],
                    stablecoin_mint: &accounts[10],
                    lst_mint: &accounts[11],
                    sol_usd_pyth_feed: &accounts[12],
                    system_program: &accounts[13],
                    token_program: &accounts[14],
                    associated_token_program: &accounts[15],
                    event_authority: &accounts[16],
                    program: &accounts[17],
                },
            })
        } else if len == Self::NUM_ACCOUNTS_MINT_LEVERCOIN {
            Ok(HyloExchangeSwapAccounts {
                hylo_program,
                leg: HyloExchangeLeg::MintLevercoin {
                    user: &accounts[1],
                    hylo: &accounts[2],
                    fee_auth: &accounts[3],
                    vault_auth: &accounts[4],
                    levercoin_auth: &accounts[5],
                    fee_vault: &accounts[6],
                    lst_vault: &accounts[7],
                    lst_header: &accounts[8],
                    user_lst_ta: &accounts[9],
                    user_levercoin_ta: &accounts[10],
                    lst_mint: &accounts[11],
                    levercoin_mint: &accounts[12],
                    stablecoin_mint: &accounts[13],
                    sol_usd_pyth_feed: &accounts[14],
                    token_program: &accounts[15],
                    associated_token_program: &accounts[16],
                    system_program: &accounts[17],
                    event_authority: &accounts[18],
                    program: &accounts[19],
                },
            })
        } else if len == Self::NUM_ACCOUNTS_REDEEM_LEVERCOIN {
            Ok(HyloExchangeSwapAccounts {
                hylo_program,
                leg: HyloExchangeLeg::RedeemLevercoin {
                    user: &accounts[1],
                    hylo: &accounts[2],
                    fee_auth: &accounts[3],
                    vault_auth: &accounts[4],
                    fee_vault: &accounts[5],
                    lst_vault: &accounts[6],
                    lst_header: &accounts[7],
                    user_levercoin_ta: &accounts[8],
                    user_lst_ta: &accounts[9],
                    levercoin_mint: &accounts[10],
                    stablecoin_mint: &accounts[11],
                    lst_mint: &accounts[12],
                    sol_usd_pyth_feed: &accounts[13],
                    system_program: &accounts[14],
                    token_program: &accounts[15],
                    associated_token_program: &accounts[16],
                    event_authority: &accounts[17],
                    program: &accounts[18],
                },
            })
        } else if len == Self::NUM_ACCOUNTS_REBALANCE {
            Ok(HyloExchangeSwapAccounts {
                hylo_program,
                leg: HyloExchangeLeg::Rebalance {
                    user: &accounts[1],
                    hylo: &accounts[2],
                    sol_usd_pyth_feed: &accounts[3],
                    stablecoin_mint: &accounts[4],
                    stablecoin_auth: &accounts[5],
                    fee_auth: &accounts[6],
                    fee_vault: &accounts[7],
                    user_stablecoin_ta: &accounts[8],
                    levercoin_mint: &accounts[9],
                    levercoin_auth: &accounts[10],
                    user_levercoin_ta: &accounts[11],
                    token_program: &accounts[12],
                    event_authority: &accounts[13],
                    program: &accounts[14],
                },
            })
        } else {
            Err(SwapError::NotEnoughAccountKeys)
        }
    }
}

impl<'info> HyloExchangeSwapAccounts<'info, AccountView> {
    /// Chooses the leg by the number of accounts, and tells the two legs of
    /// nineteen accounts apart by the address of the sixth.
    pub fn try_from(accounts: &'info [AccountView]) -> (r: Result<Self, SwapError>)
        ensures
            accounts@.len() == 19 ==> (r matches Ok(c) && (c.leg is MintStablecoin || c.leg is RedeemLevercoin) && hylo_accounts_laid_out(c, accounts@)),
            accounts@.len() == 19 ==> exists|probe: [u8; 32]| #[trigger] address_read(&accounts@[5], probe)
                && (r matches Ok(c) && (c.leg is MintStablecoin <==> probe@ == HYUSD_STABLECOIN_AUTH@)),
            accounts@.len() == 18 ==> (r matches Ok(c) && c.leg is RedeemStablecoin && hylo_accounts_laid_out(c, accounts@)),
            accounts@.len() == 20 ==> (r matches Ok(c) && c.leg is MintLevercoin && hylo_accounts_laid_out(c, accounts@)),
            accounts@.len() == 15 ==> (r matches Ok(c) && c.leg is Rebalance && hylo_accounts_laid_out(c, accounts@)),
            !(accounts@.len() == 15 || accounts@.len() == 18 || accounts@.len() == 19 || accounts@.len() == 20)
                ==> r == Err::<Self, SwapError>(SwapError::NotEnoughAccountKeys),
    {
        if accounts.len() < Self::NUM_ACCOUNTS_REBALANCE {
            return Err(SwapError::NotEnoughAccountKeys);
        }
        let probe = read_address(&accounts[5]);
        Self::try_from_probed(accounts, &probe)
    }
}

/// The leg's accounts in order, with the roles the program takes them in.
pub open spec fn hylo_metas<'info, A>(leg: HyloExchangeLeg<'info, A>) -> Seq<CpiAccount<'info, A>> {
    match leg {
        HyloExchangeLeg::MintStablecoin { user, hylo, fee_auth, vault_auth, stablecoin_auth, fee_vault, lst_vault, lst_header, user_lst_ta, user_stablecoin_ta, lst_mint, stablecoin_mint, sol_usd_pyth_feed, token_program, associated_token_program, system_program, event_authority, program } => seq![
            writable_signer_meta(user),
            writable_meta(hylo),
            readonly_meta(fee_auth),
            readonly_meta(vault_auth),
            readonly_meta(stablecoin_auth),
            writable_meta(fee_vault),
            writable_meta(lst_vault),
            readonly_meta(lst_header),
            writable_meta(user_lst_ta),
            writable_meta(user_stablecoin_ta),
            readonly_meta(lst_mint),
            writable_meta(stablecoin_mint),
            readonly_meta(sol_usd_pyth_feed),
            readonly_meta(token_program),
            readonly_meta(associated_token_program),
            readonly_meta(system_program),
            readonly_meta(event_authority),
            readonly_meta(program),
        ],
        HyloExchangeLeg::RedeemStablecoin { user, hylo, fee_auth, vault_auth, fee_vault, lst_vault, lst_header, user_stablecoin_ta, user_lst_ta, stablecoin_mint, lst_mint, sol_usd_pyth_feed, system_program, token_program, associated_token_program, event_authority, program } => seq![
            writable_signer_meta(user),
            writable_meta(hylo),
            readonly_meta(fee_auth),
            readonly_meta(vault_auth),
            writable_meta(fee_vault),
            writable_meta(lst_vault),
            readonly_meta(lst_header),
            writable_meta(user_stablecoin_ta),
            writable_meta(user_lst_ta),
            writable_meta(stablecoin_mint),
            readonly_meta(lst_mint),
            readonly_meta(sol_usd_pyth_feed),
            readonly_meta(system_program),
            readonly_meta(token_program),
            readonly_meta(associated_token_program),
            readonly_meta(event_authority),
            readonly_meta(program),
        ],
        HyloExchangeLeg::MintLevercoin { user, hylo, fee_auth, vault_auth, levercoin_auth, fee_vault, lst_vault, lst_header, user_lst_ta, user_levercoin_ta, lst_mint, levercoin_mint, stablecoin_mint, sol_usd_pyth_feed, token_program, associated_token_program, system_program, event_authority, program } => seq![
            writable_signer_meta(user),
            writable_meta(hylo),
            readonly_meta(fee_auth),
            readonly_meta(vault_auth),
            readonly_meta(levercoin_auth),
            writable_meta(fee_vault),
            writable_meta(lst_vault),
            readonly_meta(lst_header),
            writable_meta(user_lst_ta),
            writable_meta(user_levercoin_ta),
            readonly_meta(lst_mint),
            writable_meta(levercoin_mint),
            readonly_meta(stablecoin_mint),
            readonly_meta(sol_usd_pyth_feed),
            readonly_meta(token_program),
            readonly_meta(associated_token_program),
            readonly_meta(system_program),
            readonly_meta(event_authority),
            readonly_meta(program),
        ],
        HyloExchangeLeg::RedeemLevercoin { user, hylo, fee_auth, vault_auth, fee_vault, lst_vault, lst_header, user_levercoin_ta, user_lst_ta, levercoin_mint, stablecoin_mint, lst_mint, sol_usd_pyth_feed, system_program, token_program, associated_token_program, event_authority, program } => seq![
            writable_signer_meta(user),
            writable_meta(hylo),
            readonly_meta(fee_auth),
            readonly_meta(vault_auth),
            writable_meta(fee_vault),
            writable_meta(lst_vault),
            readonly_meta(lst_header),
            writable_meta(user_levercoin_ta),
            writable_meta(user_lst_ta),
            writable_meta(levercoin_mint),
            readonly_meta(stablecoin_mint),
            readonly_meta(lst_mint),
            readonly_meta(sol_usd_pyth_feed),
            readonly_meta(system_program),
            readonly_meta(token_program),
            readonly_meta(associated_token_program),
            readonly_meta(event_authority),
            readonly_meta(program),
        ],
        HyloExchangeLeg::Rebalance { user, hylo, sol_usd_pyth_feed, stablecoin_mint, stablecoin_auth, fee_auth, fee_vault, user_stablecoin_ta, levercoin_mint, levercoin_auth, user_levercoin_ta, token_program, event_authority, program } => seq![
            writable_signer_meta(user),
            writable_meta(hylo),
            readonly_meta(sol_usd_pyth_feed),
            writable_meta(stablecoin_mint),
            readonly_meta(stablecoin_auth),
            readonly_meta(fee_auth),
            writable_meta(fee_vault),
            writable_meta(user_stablecoin_ta),
            writable_meta(levercoin_mint),
            readonly_meta(levercoin_auth),
            writable_meta(user_levercoin_ta),
            readonly_meta(token_program),
            readonly_meta(event_authority),
            readonly_meta(program),
        ],
    }
}

/// The instruction discriminator of a leg; for a rebalance, that of the
/// direction the swap type names (none for another swap type).
pub open spec fn hylo_discriminator<'info, A>(leg: HyloExchangeLeg<'info, A>, swap_type: SwapType) -> Option<[u8; 8]> {
    match leg {
        HyloExchangeLeg::MintStablecoin { .. } => Some(MINT_STABLECOIN_DISCRIMINATOR),
        HyloExchangeLeg::RedeemStablecoin { .. } => Some(REDEEM_STABLECOIN_DISCRIMINATOR),
        HyloExchangeLeg::MintLevercoin { .. } => Some(MINT_LEVERCOIN_DISCRIMINATOR),
        HyloExchangeLeg::RedeemLevercoin { .. } => Some(REDEEM_LEVERCOIN_DISCRIMINATOR),
        HyloExchangeLeg::Rebalance { .. } => match swap_type {
            SwapType::SwapStableToLever => Some(SWAP_STABLE_TO_LEVER_DISCRIMINATOR),
            SwapType::SwapLeverToStable => Some(SWAP_LEVER_TO_STABLE_DISCRIMINATOR),
            _ => None,
        },
    }
}

/// The mint of the token a leg pays out; for a rebalance, that of the
/// direction the swap type names (none for another swap type).
pub open spec fn hylo_token_out<'info, A>(leg: HyloExchangeLeg<'info, A>, swap_type: SwapType) -> Option<&'info A> {
    match leg {
        HyloExchangeLeg::MintStablecoin { stablecoin_mint, .. } => Some(stablecoin_mint),
        HyloExchangeLeg::RedeemStablecoin { lst_mint, .. } => Some(lst_mint),
        HyloExchangeLeg::MintLevercoin { levercoin_mint, .. } => Some(levercoin_mint),
        HyloExchangeLeg::RedeemLevercoin { lst_mint, .. } => Some(lst_mint),
        HyloExchangeLeg::Rebalance { stablecoin_mint, levercoin_mint, .. } => match swap_type {
            SwapType::SwapStableToLever => Some(levercoin_mint),
            SwapType::SwapLeverToStable => Some(stablecoin_mint),
            _ => None,
        },
    }
}

/// The least expected out amount whose floor after `SLIPPAGE_TOLERANCE`
/// basis points of slippage is the minimum out amount: the minimum out amount
/// times ten thousand over the kept basis points, rounded up.
pub open spec fn hylo_expected_out(minimum_out_amount: u64) -> int {
    (minimum_out_amount * 10_000 + (10_000 - SLIPPAGE_TOLERANCE - 1)) / (10_000 - SLIPPAGE_TOLERANCE)
}

/// The amount left of `expected` after `SLIPPAGE_TOLERANCE` basis points of
/// slippage, rounded down.
pub open spec fn hylo_after_slippage(expected: int) -> int {
    expected * (10_000 - SLIPPAGE_TOLERANCE) / 10_000
}

/// The byte of the negated decimal exponent, two's complement.
pub open spec fn neg_exponent_byte(decimals: u8) -> u8 {
    ((256 - decimals as int) % 256) as u8
}

/// Discriminator, in amount, a set option flag, the expected out amount, the
/// negated decimals of the out token, the slippage tolerance, then the
/// exponent of basis points (minus four); amounts little-endian.
pub open spec fn hylo_data(discriminator: [u8; 8], amount_in: u64, min_amount_out: u64, token_out_decimals_exponent: u8) -> Seq<u8> {
    discriminator@
        + spec_u64_to_le_bytes(amount_in)
        + seq![1u8]
        + spec_u64_to_le_bytes(hylo_expected_out(min_amount_out) as u64)
        + seq![neg_exponent_byte(token_out_decimals_exponent)]
        + spec_u64_to_le_bytes(SLIPPAGE_TOLERANCE)
        + seq![0xfcu8]
}

/// The decimals that an SPL mint's data holds; `None` where it is too short.
pub fn mint_decimals_of(data: &[u8]) -> (r: Option<u8>)
    ensures
        data@.len() <= MINT_DECIMALS_OFFSET ==> r is None,
        data@.len() > MINT_DECIMALS_OFFSET ==> r == Some(data@[MINT_DECIMALS_OFFSET as int]),
{
    if data.len() <= MINT_DECIMALS_OFFSET {
        None
    } else {
        Some(data[MINT_DECIMALS_OFFSET])
    }
}

/// Reading the data of `mint` gives a mint's data, long enough to hold the
/// decimals, and they are `decimals`.
pub open spec fn mint_decimals_read(mint: &AccountView, decimals: u8) -> bool {
    exists|data: Vec<u8>| #[trigger] data_read(mint, Some(data))
        && data@.len() > MINT_DECIMALS_OFFSET && decimals == data@[MINT_DECIMALS_OFFSET as int]
}

/// Reading the data of `mint` fails, or gives too few bytes to hold the
/// decimals.
pub open spec fn mint_decimals_unreadable(mint: &AccountView) -> bool {
    exists|data: Option<Vec<u8>>| #[trigger] data_read(mint, data)
        && (data matches Some(d) ==> d@.len() <= MINT_DECIMALS_OFFSET)
}

/// The decimals of a mint account; an error where its data cannot be read or
/// is too short.
pub fn mint_decimals_exponent(mint: &AccountView) -> (r: Result<u8, SwapError>)
    ensures
        r matches Err(e) ==> e == SwapError::InvalidAccountData,
        r matches Ok(decimals) ==> mint_decimals_read(mint, decimals),
        r is Err ==> mint_decimals_unreadable(mint),
{
    let read = read_data(mint);
    proof {
        assert(data_read(mint, read));
    }
    match read {
        Some(data) => match mint_decimals_of(data.as_slice()) {
            Some(d) => Ok(d),
            None => Err(SwapError::InvalidAccountData),
        },
        None => Err(SwapError::InvalidAccountData),
    }
}

/// The thirty-five bytes of a Hylo exchange instruction.
pub fn build_instruction_data(discriminator: [u8; 8], amount_in: u64, min_amount_out: u64, token_out_decimals_exponent: u8) -> (r: [u8; 35])
    requires
        min_amount_out * 10_000 <= u64::MAX,
    ensures
        r@ == hylo_data(discriminator, amount_in, min_amount_out, token_out_decimals_exponent),
        ({
            let e = spec_u64_from_le_bytes(r@.subrange(17, 25)) as int;
            &&& hylo_after_slippage(e) == min_amount_out
            &&& e > 0 ==> hylo_after_slippage(e - 1) < min_amount_out
        }),
{
    let kept: u128 = (10_000 - SLIPPAGE_TOLERANCE) as u128;
    let wide: u128 = (min_amount_out as u128 * 10_000 + (kept - 1)) / kept;
    proof {
        let m = min_amount_out as int;
        assert(wide <= m * 10_000) by (nonlinear_arith)
            requires kept == 9_980, wide == (m * 10_000 + 9_979) / 9_980, m >= 0;
        lemma_hylo_slippage_round_trip(min_amount_out);
    }
    let expected_token_out = wide as u64;
    let a = u64_to_le_bytes(amount_in);
    let e = u64_to_le_bytes(expected_token_out);
    let s = u64_to_le_bytes(SLIPPAGE_TOLERANCE);
    proof {
        vstd::bytes::lemma_auto_spec_u64_to_from_le_bytes();
    }
    let neg = 0u8.wrapping_sub(token_out_decimals_exponent);
    let d = discriminator;
    let r = [
        d[0], d[1], d[2], d[3], d[4], d[5], d[6], d[7],
        a[0], a[1], a[2], a[3], a[4], a[5], a[6], a[7],
        1u8,
        e[0], e[1], e[2], e[3], e[4], e[5], e[6], e[7],
        neg,
        s[0], s[1], s[2], s[3], s[4], s[5], s[6], s[7],
        0xfcu8,
    ];
    assert(r@ =~= hylo_data(discriminator, amount_in, min_amount_out, token_out_decimals_exponent));
    assert(r@.subrange(17, 25) =~= e@);
    r
}

impl HyloExchange {
    /// The discriminator and out-token mint of the swap; an error for a
    /// rebalance whose swap type is not one of the two rebalancing directions.
    pub fn leg_target<'info, A>(ctx: &HyloExchangeSwapAccounts<'info, A>, data: &HyloExchangeSwapData) -> (r: Result<([u8; 8], &'info A), SwapError>)
        ensures
            match (hylo_discriminator(ctx.leg, data.swap_type), hylo_token_out(ctx.leg, data.swap_type)) {
                (Some(d), Some(t)) => r == Ok::<([u8; 8], &'info A), SwapError>((d, t)),
                _ => r == Err::<([u8; 8], &'info A), SwapError>(SwapError::InvalidInstructionData),
            },
    {
        match &ctx.leg {
            HyloExchangeLeg::MintStablecoin { stablecoin_mint, .. } => Ok((MINT_STABLECOIN_DISCRIMINATOR, *stablecoin_mint)),
            HyloExchangeLeg::RedeemStablecoin { lst_mint, .. } => Ok((REDEEM_STABLECOIN_DISCRIMINATOR, *lst_mint)),
            HyloExchangeLeg::MintLevercoin { levercoin_mint, .. } => Ok((MINT_LEVERCOIN_DISCRIMINATOR, *levercoin_mint)),
            HyloExchangeLeg::RedeemLevercoin { lst_mint, .. } => Ok((REDEEM_LEVERCOIN_DISCRIMINATOR, *lst_mint)),
            HyloExchangeLeg::Rebalance { stablecoin_mint, levercoin_mint, .. } => match data.swap_type {
                SwapType::SwapStableToLever => Ok((SWAP_STABLE_TO_LEVER_DISCRIMINATOR, *levercoin_mint)),
                SwapType::SwapLeverToStable => Ok((SWAP_LEVER_TO_STABLE_DISCRIMINATOR, *stablecoin_mint)),
                _ => Err(SwapError::InvalidInstructionData),
            },
        }
    }

    /// The leg's accounts with their roles.
    pub fn metas<'info, A>(leg: &HyloExchangeLeg<'info, A>) -> (r: Vec<CpiAccount<'info, A>>)
        ensures
            r@ == hylo_metas(*leg),
    {
        let mut accounts: Vec<CpiAccount<'info, A>> = Vec::new();
        match leg {
            HyloExchangeLeg::MintStablecoin { user, hylo, fee_auth, vault_auth, stablecoin_auth, fee_vault, lst_vault, lst_header, user_lst_ta, user_stablecoin_ta, lst_mint, stablecoin_mint, sol_usd_pyth_feed, token_program, associated_token_program, system_program, event_authority, program } => {
                accounts.push(writable_signer(*user));
                accounts.push(writable(*hylo));
                accounts.push(readonly(*fee_auth));
                accounts.push(readonly(*vault_auth));
                accounts.push(readonly(*stablecoin_auth));
                accounts.push(writable(*fee_vault));
                accounts.push(writable(*lst_vault));
                accounts.push(readonly(*lst_header));
                accounts.push(writable(*user_lst_ta));
                accounts.push(writable(*user_stablecoin_ta));
                accounts.push(readonly(*lst_mint));
                accounts.push(writable(*stablecoin_mint));
                accounts.push(readonly(*sol_usd_pyth_feed));
                accounts.push(readonly(*token_program));
                accounts.push(readonly(*associated_token_program));
                accounts.push(readonly(*system_program));
                accounts.push(readonly(*event_authority));
                accounts.push(readonly(*program));
            },
            HyloExchangeLeg::RedeemStablecoin { user, hylo, fee_auth, vault_auth, fee_vault, lst_vault, lst_header, user_stablecoin_ta, user_lst_ta, stablecoin_mint, lst_mint, sol_usd_pyth_feed, system_program, token_program, associated_token_program, event_authority, program } => {
                accounts.push(writable_signer(*user));
                accounts.push(writable(*hylo));
                accounts.push(readonly(*fee_auth));
                accounts.push(readonly(*vault_auth));
                accounts.push(writable(*fee_vault));
                accounts.push(writable(*lst_vault));
                accounts.push(readonly(*lst_header));
                accounts.push(writable(*user_stablecoin_ta));
                accounts.push(writable(*user_lst_ta));
                accounts.push(writable(*stablecoin_mint));
                accounts.push(readonly(*lst_mint));
                accounts.push(readonly(*sol_usd_pyth_feed));
                accounts.push(readonly(*system_program));
                accounts.push(readonly(*token_program));
                accounts.push(readonly(*associated_token_program));
                accounts.push(readonly(*event_authority));
                accounts.push(readonly(*program));
            },
            HyloExchangeLeg::MintLevercoin { user, hylo, fee_auth, vault_auth, levercoin_auth, fee_vault, lst_vault, lst_header, user_lst_ta, user_levercoin_ta, lst_mint, levercoin_mint, stablecoin_mint, sol_usd_pyth_feed, token_program, associated_token_program, system_program, event_authority, program } => {
                accounts.push(writable_signer(*user));
                accounts.push(writable(*hylo));
                accounts.push(readonly(*fee_auth));
                accounts.push(readonly(*vault_auth));
                accounts.push(readonly(*levercoin_auth));
                accounts.push(writable(*fee_vault));
                accounts.push(writable(*lst_vault));
                accounts.push(readonly(*lst_header));
                accounts.push(writable(*user_lst_ta));
                accounts.push(writable(*user_levercoin_ta));
                accounts.push(readonly(*lst_mint));
                accounts.push(writable(*levercoin_mint));
                accounts.push(readonly(*stablecoin_mint));
                accounts.push(readonly(*sol_usd_pyth_feed));
                accounts.push(readonly(*token_program));
                accounts.push(readonly(*associated_token_program));
                accounts.push(readonly(*system_program));
                accounts.push(readonly(*event_authority));
                accounts.push(readonly(*program));
            },
            HyloExchangeLeg::RedeemLevercoin { user, hylo, fee_auth, vault_auth, fee_vault, lst_vault, lst_header, user_levercoin_ta, user_lst_ta, levercoin_mint, stablecoin_mint, lst_mint, sol_usd_pyth_feed, system_program, token_program, associated_token_program, event_authority, program } => {
                accounts.push(writable_signer(*user));
                accounts.push(writable(*hylo));
                accounts.push(readonly(*fee_auth));
                accounts.push(readonly(*vault_auth));
                accounts.push(writable(*fee_vault));
                accounts.push(writable(*lst_vault));
                accounts.push(readonly(*lst_header));
                accounts.push(writable(*user_levercoin_ta));
                accounts.push(writable(*user_lst_ta));
                accounts.push(writable(*levercoin_mint));
                accounts.push(readonly(*stablecoin_mint));
                accounts.push(readonly(*lst_mint));
                accounts.push(readonly(*sol_usd_pyth_feed));
                accounts.push(readonly(*system_program));
                accounts.push(readonly(*token_program));
                accounts.push(readonly(*associated_token_program));
                accounts.push(readonly(*event_authority));
                accounts.push(readonly(*program));
            },
            HyloExchangeLeg::Rebalance { user, hylo, sol_usd_pyth_feed, stablecoin_mint, stablecoin_auth, fee_auth, fee_vault, user_stablecoin_ta, levercoin_mint, levercoin_auth, user_levercoin_ta, token_program, event_authority, program } => {
                accounts.push(writable_signer(*user));
                accounts.push(writable(*hylo));
                accounts.push(readonly(*sol_usd_pyth_feed));
                accounts.push(writable(*stablecoin_mint));
                accounts.push(readonly(*stablecoin_auth));
                accounts.push(readonly(*fee_auth));
                accounts.push(writable(*fee_vault));
                accounts.push(writable(*user_stablecoin_ta));
                accounts.push(writable(*levercoin_mint));
                accounts.push(readonly(*levercoin_auth));
                accounts.push(writable(*user_levercoin_ta));
                accounts.push(readonly(*token_program));
                accounts.push(readonly(*event_authority));
                accounts.push(readonly(*program));
            },
        }
        assert(accounts@ =~= hylo_metas(*leg));
        accounts
    }

    /// The Hylo exchange instruction, given the decimals of the out token's
    /// mint; refused for a rebalance with another swap type, and where the
    /// minimum out amount times ten thousand, from which the expected out
    /// amount is worked out, does not fit in a `u64`.
    pub fn instruction<'info, A>(ctx: &HyloExchangeSwapAccounts<'info, A>, in_amount: u64, minimum_out_amount: u64, data: &HyloExchangeSwapData, token_out_decimals: u8) -> (r: Result<CpiInstruction<'info, A>, SwapError>)
        ensures
            match hylo_discriminator(ctx.leg, data.swap_type) {
                Some(d) => if minimum_out_amount * 10_000 > u64::MAX {
                    r == Err::<CpiInstruction<'info, A>, SwapError>(SwapError::ArithmeticOverflow)
                } else {
                    r matches Ok(ix) && {
                        &&& ix.program == CpiProgram::<'info, A>::Id(HYLO_EXCHANGE_PROGRAM_ID)
                        &&& ix.accounts@ == hylo_metas(ctx.leg)
                        &&& ix.account_infos@ == infos_of(ix.accounts@)
                        &&& ix.data@ == hylo_data(d, in_amount, minimum_out_amount, token_out_decimals)
                    }
                },
                None => r == Err::<CpiInstruction<'info, A>, SwapError>(SwapError::InvalidInstructionData),
            },
    {
        let (discriminator, _token_out) = Self::leg_target(ctx, data)?;
        if minimum_out_amount > u64::MAX / 10_000 {
            return Err(SwapError::ArithmeticOverflow);
        }
        let accounts = Self::metas(&ctx.leg);
        let bytes = build_instruction_data(discriminator, in_amount, minimum_out_amount, token_out_decimals);
        Ok(instruction(CpiProgram::Id(HYLO_EXCHANGE_PROGRAM_ID), accounts, vstd::slice::slice_to_vec(vstd::array::array_as_slice(&bytes))))
    }

    /// Reads the decimals of the out token's mint, builds the instruction and
    /// invokes it with the given signer seeds.
    pub fn swap_signed(ctx: &HyloExchangeSwapAccounts<'_, AccountView>, in_amount: u64, minimum_out_amount: u64, data: &HyloExchangeSwapData, signer_seeds: &[Signer]) -> (r: Result<(), SwapError>)
        ensures
            hylo_discriminator(ctx.leg, data.swap_type) is None ==> r == Err::<(), SwapError>(SwapError::InvalidInstructionData),
            hylo_discriminator(ctx.leg, data.swap_type) is Some && minimum_out_amount * 10_000 > u64::MAX
                ==> (r == Err::<(), SwapError>(SwapError::InvalidAccountData) || r == Err::<(), SwapError>(SwapError::ArithmeticOverflow)),
            hylo_discriminator(ctx.leg, data.swap_type) is Some && minimum_out_amount * 10_000 <= u64::MAX
                ==> (r matches Err(e) ==> (e is Runtime || e == SwapError::InvalidAccountData)),
            hylo_discriminator(ctx.leg, data.swap_type) is Some && r == Err::<(), SwapError>(SwapError::InvalidAccountData)
                ==> mint_decimals_unreadable(hylo_token_out(ctx.leg, data.swap_type)->0),
            hylo_discriminator(ctx.leg, data.swap_type) is Some && minimum_out_amount * 10_000 <= u64::MAX
                && r != Err::<(), SwapError>(SwapError::InvalidAccountData)
                ==> exists|decimals: u8| #[trigger] mint_decimals_read(hylo_token_out(ctx.leg, data.swap_type)->0, decimals)
                && invoked_with(
                    CpiProgram::Id(HYLO_EXCHANGE_PROGRAM_ID),
                    hylo_metas(ctx.leg),
                    infos_of(hylo_metas(ctx.leg)),
                    hylo_data(hylo_discriminator(ctx.leg, data.swap_type)->0, in_amount, minimum_out_amount, decimals),
                    signer_seeds,
                    r,
                ),
    {
        let (_discriminator, token_out) = Self::leg_target(ctx, data)?;
        let decimals = mint_decimals_exponent(token_out)?;
        let ix = Self::instruction(ctx, in_amount, minimum_out_amount, data, decimals)?;
        invoke(&ix, signer_seeds)
    }

    /// `swap_signed` without signer seeds.
    pub fn swap(ctx: &HyloExchangeSwapAccounts<'_, AccountView>, in_amount: u64, minimum_out_amount: u64, data: &HyloExchangeSwapData) -> (r: Result<(), SwapError>)
        ensures
            hylo_discriminator(ctx.leg, data.swap_type) is None ==> r == Err::<(), SwapError>(SwapError::InvalidInstructionData),
            hylo_discriminator(ctx.leg, data.swap_type) is Some && minimum_out_amount * 10_000 > u64::MAX
                ==> (r == Err::<(), SwapError>(SwapError::InvalidAccountData) || r == Err::<(), SwapError>(SwapError::ArithmeticOverflow)),
            hylo_discriminator(ctx.leg, data.swap_type) is Some && minimum_out_amount * 10_000 <= u64::MAX
                ==> (r matches Err(e) ==> (e is Runtime || e == SwapError::InvalidAccountData)),
            hylo_discriminator(ctx.leg, data.swap_type) is Some && r == Err::<(), SwapError>(SwapError::InvalidAccountData)
                ==> mint_decimals_unreadable(hylo_token_out(ctx.leg, data.swap_type)->0),
            hylo_discriminator(ctx.leg, data.swap_type) is Some && minimum_out_amount * 10_000 <= u64::MAX
                && r != Err::<(), SwapError>(SwapError::InvalidAccountData)
                ==> exists|decimals: u8| #[trigger] mint_decimals_read(hylo_token_out(ctx.leg, data.swap_type)->0, decimals)
                && invoked_with(
                    CpiProgram::Id(HYLO_EXCHANGE_PROGRAM_ID),
                    hylo_metas(ctx.leg),
                    infos_of(hylo_metas(ctx.leg)),
                    hylo_data(hylo_discriminator(ctx.leg, data.swap_type)->0, in_amount, minimum_out_amount, decimals),
                    &[],
                    r,
                ),
    {
        Self::swap_signed(ctx, in_amount, minimum_out_amount, data, &[])
    }
}

/// The expected out amount sent with a swap inverts the slippage floor: taking
/// the slippage tolerance off it gives back the minimum out amount exactly,
/// and it is the least amount that does; it is never below the minimum.
pub proof fn lemma_hylo_slippage_round_trip(minimum_out_amount: u64)
    ensures
        hylo_after_slippage(hylo_expected_out(minimum_out_amount)) == minimum_out_amount,
        hylo_expected_out(minimum_out_amount) > 0
            ==> hylo_after_slippage(hylo_expected_out(minimum_out_amount) - 1) < minimum_out_amount,
        hylo_expected_out(minimum_out_amount) >= minimum_out_amount,
{
    let m = minimum_out_amount as int;
    let e = hylo_expected_out(minimum_out_amount);
    assert(e == (m * 10_000 + 9_979) / 9_980);
    assert(e * 9_980 >= m * 10_000 && e * 9_980 < m * 10_000 + 9_980) by (nonlinear_arith)
        requires m >= 0, e == (m * 10_000 + 9_979) / 9_980;
    assert(e * 9_980 / 10_000 == m) by (nonlinear_arith)
        requires m >= 0, e * 9_980 >= m * 10_000, e * 9_980 < m * 10_000 + 9_980;
    assert(e > 0 ==> (e - 1) * 9_980 / 10_000 < m) by (nonlinear_arith)
        requires m >= 0, e * 9_980 < m * 10_000 + 9_980;
    assert(e >= m) by (nonlinear_arith)
        requires m >= 0, e * 9_980 >= m * 10_000;
}

/// Of nineteen accounts, whatever `try_from` makes is a stablecoin mint
/// exactly where the address read for the sixth account is the stablecoin
/// mint authority, and a levercoin redemption otherwise.
pub proof fn lemma_hylo_nineteen_accounts_follow_the_sixth_address<'info>(
    accounts: &'info [AccountView],
    r: Result<HyloExchangeSwapAccounts<'info, AccountView>, SwapError>,
)
    requires
        call_ensures(HyloExchangeSwapAccounts::<'info, AccountView>::try_from, (accounts,), r),
        accounts@.len() == 19,
    ensures
        exists|probe: [u8; 32]| #[trigger] address_read(&accounts@[5], probe) && (r matches Ok(c) && {
            &&& c.leg is MintStablecoin <==> probe@ == HYUSD_STABLECOIN_AUTH@
            &&& c.leg is RedeemLevercoin <==> probe@ != HYUSD_STABLECOIN_AUTH@
        }),
{
}

} // verus!
