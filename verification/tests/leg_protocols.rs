use beethoven_swaps::cpi::{AccountRole, CpiInstruction, CpiProgram};
use beethoven_swaps::error::SwapError;
use beethoven_swaps::protocols::fraudsworth_tax::{
    FraudsworthTax, FraudsworthTaxSwapAccounts, FraudsworthTaxSwapData, SWAP_SOL_BUY_DISCRIMINATOR,
    SWAP_SOL_SELL_DISCRIMINATOR,
};
use beethoven_swaps::protocols::jupiter_perpetuals::{
    JupiterPerpetuals, JupiterPerpetualsSwapAccounts, JupiterPerpetualsSwapData,
    ADD_LIQUIDITY_2_DISCRIMINATOR, JUPITER_PERPETUALS_PROGRAM_ID, REMOVE_LIQUIDITY_2_DISCRIMINATOR,
    SWAP2_DISCRIMINATOR,
};
use beethoven_swaps::protocols::nirvana_governance::{
    NirvanaGovernance, NirvanaGovernanceSwapAccounts, NirvanaGovernanceSwapBodyAccounts,
    BUY_EXACT2_DISCRIMINATOR, NIRV_MINT, SELL2_DISCRIMINATOR,
};
use beethoven_swaps::protocols::pump_amm::{
    PumpAmm, PumpAmmSwapAccounts, PumpAmmSwapAccountsBase, PumpAmmSwapAccountsLeg,
    PumpAmmSwapAccountsTail, PumpAmmSwapData, BUY_DISCRIMINATOR as PUMP_BUY, SELL_DISCRIMINATOR as PUMP_SELL,
};
use beethoven_swaps::protocols::rise::{
    DecimalSerialized, Rise, RiseSwapAccounts, RiseSwapData, BUY_WITH_EXACT_CASH_IN_DISCRIMINATOR,
    SELL_WITH_EXACT_TOKEN_IN_DISCRIMINATOR,
};
use beethoven_swaps::protocols::synatra::{
    Synatra, SynatraSwapAccounts, SynatraSwapType, STAKE_SOL_DISCRIMINATOR, STAKE_TOKEN_DISCRIMINATOR,
    YSOL_MINT,
};
use beethoven_swaps::protocols::voltr::{
    Voltr, VoltrSwapAccounts, VoltrSwapData, DEPOSIT_VAULT_DISCRIMINATOR,
    INSTANT_WITHDRAW_VAULT_DISCRIMINATOR,
};

const OTHER_ADDRESS: [u8; 32] = [7u8; 32];

fn layout(ix: &CpiInstruction<'_, u32>) -> Vec<(u32, AccountRole)> {
    ix.accounts.iter().map(|m| (*m.account, m.role)).collect()
}

fn infos(ix: &CpiInstruction<'_, u32>) -> Vec<u32> {
    ix.account_infos.iter().map(|a| **a).collect()
}

fn cat(parts: &[&[u8]]) -> Vec<u8> {
    parts.concat()
}

#[test]
fn jupiter_swap_data_defaults_to_a_swap() {
    assert!(!JupiterPerpetualsSwapData::try_from(&[][..]).unwrap().is_add_liquidity);
    assert!(!JupiterPerpetualsSwapData::try_from(&[0u8][..]).unwrap().is_add_liquidity);
    assert!(JupiterPerpetualsSwapData::try_from(&[7u8][..]).unwrap().is_add_liquidity);
}

#[test]
fn jupiter_accounts_choose_swap_or_liquidity() {
    let accounts: Vec<u32> = (0..25).collect();
    assert!(matches!(JupiterPerpetualsSwapAccounts::try_from(&accounts[..17]), Err(SwapError::NotEnoughAccountKeys)));
    assert!(matches!(JupiterPerpetualsSwapAccounts::try_from(&accounts[..20]), Err(SwapError::InvalidInstructionData)));
    match JupiterPerpetualsSwapAccounts::try_from(&accounts[..18]).unwrap() {
        JupiterPerpetualsSwapAccounts::Swap2(x) => {
            assert_eq!((*x.owner, *x.funding_account, *x.event_authority, *x.program), (1, 2, 16, 0));
        }
        _ => panic!("expected a swap"),
    }
    match JupiterPerpetualsSwapAccounts::try_from(&accounts[..]).unwrap() {
        JupiterPerpetualsSwapAccounts::Liquidity2(x) => {
            assert_eq!((*x.owner, *x.lp_token_mint, *x.event_authority, *x.program), (1, 11, 13, 0));
            assert_eq!(x.remaining_accounts, &accounts[15..]);
        }
        _ => panic!("expected a liquidity instruction"),
    }
}

#[test]
fn jupiter_instructions_have_their_layouts() {
    let accounts: Vec<u32> = (0..25).collect();
    let swap = JupiterPerpetualsSwapAccounts::try_from(&accounts[..18]).unwrap();
    let data = JupiterPerpetualsSwapData { is_add_liquidity: false };
    let ix = JupiterPerpetuals::instruction(&swap, 3, 4, &data);
    assert!(matches!(ix.program, CpiProgram::Id(id) if id == JUPITER_PERPETUALS_PROGRAM_ID));
    assert_eq!(ix.accounts.len(), 17);
    assert_eq!(layout(&ix)[0], (1, AccountRole::WritableSigner));
    assert_eq!(layout(&ix)[16], (0, AccountRole::Readonly));
    assert_eq!(ix.data, cat(&[&SWAP2_DISCRIMINATOR, &3u64.to_le_bytes(), &4u64.to_le_bytes()]));

    let liquidity = JupiterPerpetualsSwapAccounts::try_from(&accounts[..]).unwrap();
    let add = JupiterPerpetuals::instruction(&liquidity, 3, 4, &JupiterPerpetualsSwapData { is_add_liquidity: true });
    assert_eq!(add.accounts.len(), 24);
    assert_eq!(layout(&add)[14], (15, AccountRole::AsPassed));
    assert_eq!(layout(&add)[23], (24, AccountRole::AsPassed));
    assert_eq!(add.data, cat(&[&ADD_LIQUIDITY_2_DISCRIMINATOR, &3u64.to_le_bytes(), &4u64.to_le_bytes(), &0u64.to_le_bytes()]));
    let remove = JupiterPerpetuals::instruction(&liquidity, 3, 4, &data);
    assert_eq!(remove.data, cat(&[&REMOVE_LIQUIDITY_2_DISCRIMINATOR, &3u64.to_le_bytes(), &4u64.to_le_bytes()]));
    assert_eq!(infos(&remove), layout(&remove).iter().map(|p| p.0).collect::<Vec<u32>>());
}

#[test]
fn pump_swap_data_reads_the_volume_option() {
    let d = PumpAmmSwapData::try_from(&[0u8, 0, 1][..]).unwrap();
    assert_eq!((d.track_volume, d.is_buy), (None, true));
    let d = PumpAmmSwapData::try_from(&[1u8, 1, 0][..]).unwrap();
    assert_eq!((d.track_volume, d.is_buy), (Some(true), false));
    let d = PumpAmmSwapData::try_from(&[1u8, 0, 2][..]).unwrap();
    assert_eq!((d.track_volume, d.is_buy), (Some(false), false));
    for bad in [&[0u8, 1, 1][..], &[1u8, 2, 1][..], &[2u8, 0, 1][..], &[0u8, 0][..]] {
        assert_eq!(PumpAmmSwapData::try_from(bad).unwrap_err(), SwapError::InvalidInstructionData);
    }
}

#[test]
fn pump_accounts_split_buy_and_sell() {
    let accounts: Vec<u32> = (0..28).collect();
    assert!(matches!(PumpAmmSwapAccounts::try_from(&accounts[..23]), Err(SwapError::NotEnoughAccountKeys)));
    let sell = PumpAmmSwapAccounts::try_from(&accounts[..25]).unwrap();
    assert!(matches!(sell.leg, PumpAmmSwapAccountsLeg::Sell));
    assert_eq!((*sell.tail.fee_config, *sell.tail.pool_v2, *sell.tail.fee_recipient, *sell.tail.fee_recipient_quote_mint_ata), (20, 22, 23, 24));
    assert!(sell.tail.remaining_accounts.is_empty());
    let buy = PumpAmmSwapAccounts::try_from(&accounts[..]).unwrap();
    assert!(matches!(buy.leg, PumpAmmSwapAccountsLeg::Buy { global_volume_accumulator, .. } if *global_volume_accumulator == 20));
    assert_eq!(buy.tail.remaining_accounts, &[25]);
    assert_eq!((*buy.tail.fee_recipient, *buy.tail.fee_recipient_quote_mint_ata), (26, 27));
}

#[test]
fn pump_buy_instruction_orders_quote_before_base() {
    let accounts: Vec<u32> = (0..28).collect();
    let buy = PumpAmmSwapAccounts::try_from(&accounts[..]).unwrap();
    let data = PumpAmmSwapData { track_volume: Some(true), is_buy: true };
    let ix = PumpAmm::instruction(&buy, 100, 90, &data).unwrap();
    let l = layout(&ix);
    assert_eq!(l.len(), 26);
    assert_eq!(l[0], (1, AccountRole::Writable));
    assert_eq!(l[1], (2, AccountRole::WritableSigner));
    assert_eq!(l[18], (19, AccountRole::Readonly));
    assert_eq!(l[20], (21, AccountRole::Writable));
    assert_eq!(l[24], (25, AccountRole::AsPassed));
    assert_eq!(l[25], (26, AccountRole::Readonly));
    assert_eq!(infos(&ix), l.iter().map(|p| p.0).collect::<Vec<u32>>());
    assert_eq!(ix.data, cat(&[&PUMP_BUY, &90u64.to_le_bytes(), &100u64.to_le_bytes(), &[1, 1]]));
    let sell_data = PumpAmmSwapData { track_volume: None, is_buy: false };
    let sell_ix = PumpAmm::instruction(&buy, 100, 90, &sell_data).unwrap();
    assert_eq!(sell_ix.data, cat(&[&PUMP_SELL, &100u64.to_le_bytes(), &90u64.to_le_bytes(), &[0, 0]]));
}

fn pump_base(a: &[u32]) -> PumpAmmSwapAccountsBase<'_, u32> {
    PumpAmmSwapAccountsBase {
        pump_amm_program: &a[0],
        pool: &a[1],
        user: &a[2],
        global_config: &a[3],
        base_mint: &a[4],
        quote_mint: &a[5],
        user_base_token_account: &a[6],
        user_quote_token_account: &a[7],
        pool_base_token_account: &a[8],
        pool_quote_token_account: &a[9],
        protocol_fee_recipient: &a[10],
        protocol_fee_recipient_token_account: &a[11],
        base_token_program: &a[12],
        quote_token_program: &a[13],
        system_program: &a[14],
        associated_token_program: &a[15],
        event_authority: &a[16],
        program: &a[17],
        coin_creator_vault_ata: &a[18],
        coin_creator_vault_authority: &a[19],
    }
}

#[test]
fn pump_refuses_more_than_one_remaining_account() {
    let a: Vec<u32> = (0..40).collect();
    for end in [32usize, 33, 34] {
        let ctx = PumpAmmSwapAccounts {
            base: pump_base(&a),
            leg: PumpAmmSwapAccountsLeg::Sell,
            tail: PumpAmmSwapAccountsTail {
                fee_config: &a[20],
                fee_program: &a[21],
                pool_v2: &a[22],
                remaining_accounts: &a[30..end],
                fee_recipient: &a[35],
                fee_recipient_quote_mint_ata: &a[36],
            },
        };
        let data = PumpAmmSwapData { track_volume: None, is_buy: false };
        assert_eq!(PumpAmm::instruction(&ctx, 1, 2, &data).err(), Some(SwapError::InvalidArgument));
    }
    let ctx = PumpAmmSwapAccounts {
        base: pump_base(&a),
        leg: PumpAmmSwapAccountsLeg::Sell,
        tail: PumpAmmSwapAccountsTail {
            fee_config: &a[20],
            fee_program: &a[21],
            pool_v2: &a[22],
            remaining_accounts: &a[30..31],
            fee_recipient: &a[35],
            fee_recipient_quote_mint_ata: &a[36],
        },
    };
    let data = PumpAmmSwapData { track_volume: None, is_buy: false };
    let ix = PumpAmm::instruction(&ctx, 1, 2, &data).unwrap();
    let l = layout(&ix);
    assert_eq!(l.len(), 24);
    assert_eq!(&l[22..24], &[(30, AccountRole::AsPassed), (35, AccountRole::Readonly)]);
    assert_eq!(infos(&ix), l.iter().map(|(a, _)| *a).collect::<Vec<u32>>());
}

#[test]
fn pump_refuses_more_than_twenty_seven_accounts() {
    let a: Vec<u32> = (0..40).collect();
    let ctx = PumpAmmSwapAccounts {
        base: pump_base(&a),
        leg: PumpAmmSwapAccountsLeg::Buy { global_volume_accumulator: &a[20], user_volume_accumulator: &a[21] },
        tail: PumpAmmSwapAccountsTail {
            fee_config: &a[22],
            fee_program: &a[23],
            pool_v2: &a[24],
            remaining_accounts: &a[30..33],
            fee_recipient: &a[33],
            fee_recipient_quote_mint_ata: &a[34],
        },
    };
    let data = PumpAmmSwapData { track_volume: None, is_buy: true };
    assert_eq!(PumpAmm::instruction(&ctx, 1, 2, &data).err(), Some(SwapError::NotEnoughAccountKeys));
}

#[test]
fn nirvana_side_follows_the_probe() {
    let accounts: Vec<u32> = (0..14).collect();
    assert!(matches!(NirvanaGovernanceSwapAccounts::try_from_probed(&accounts[..13], &NIRV_MINT), Err(SwapError::NotEnoughAccountKeys)));
    let buy = NirvanaGovernanceSwapAccounts::try_from_probed(&accounts, &NIRV_MINT).unwrap();
    assert!(matches!(buy.body, NirvanaGovernanceSwapBodyAccounts::BuyExact2 { ana_dst, .. } if *ana_dst == 11));
    let ix = NirvanaGovernance::instruction(&buy, 5, 6, &());
    let l = layout(&ix);
    assert_eq!(l.len(), 13);
    assert_eq!(l[2], (3, AccountRole::Readonly));
    assert_eq!(l[4], (5, AccountRole::Readonly));
    assert_eq!(l[12], (13, AccountRole::Readonly));
    assert_eq!(ix.data, cat(&[&BUY_EXACT2_DISCRIMINATOR, &5u64.to_le_bytes(), &6u64.to_le_bytes()]));
    let sell = NirvanaGovernanceSwapAccounts::try_from_probed(&accounts, &OTHER_ADDRESS).unwrap();
    let ix = NirvanaGovernance::instruction(&sell, 5, 6, &());
    let l = layout(&ix);
    assert_eq!(l[2], (3, AccountRole::Writable));
    assert_eq!(l[4], (5, AccountRole::Writable));
    assert_eq!(l[9], (10, AccountRole::Readonly));
    assert_eq!(&ix.data[0..8], &SELL2_DISCRIMINATOR);
}

#[test]
fn fraudsworth_tax_takes_the_intermediary_on_sells_only() {
    let accounts: Vec<u32> = (0..26).collect();
    assert!(matches!(FraudsworthTaxSwapAccounts::try_from(&accounts[..24]), Err(SwapError::NotEnoughAccountKeys)));
    let plain = FraudsworthTaxSwapAccounts::try_from(&accounts[..25]).unwrap();
    assert!(plain.wsol_intermediary.is_none());
    assert_eq!(*plain.amm_program, 16);
    let with = FraudsworthTaxSwapAccounts::try_from(&accounts[..]).unwrap();
    assert_eq!(with.wsol_intermediary.copied(), Some(16));
    assert_eq!(*with.transfer_hook_program, 25);

    let buy = FraudsworthTaxSwapData { is_buy: true, is_crime: true };
    let sell = FraudsworthTaxSwapData { is_buy: false, is_crime: false };
    assert_eq!(FraudsworthTax::instruction(&with, 1, 2, &buy).err(), Some(SwapError::InvalidAccountData));
    assert_eq!(FraudsworthTax::instruction(&plain, 1, 2, &sell).err(), Some(SwapError::NotEnoughAccountKeys));

    let ix = FraudsworthTax::instruction(&plain, 1, 2, &buy).unwrap();
    assert_eq!(ix.accounts.len(), 24);
    assert_eq!(layout(&ix)[2], (3, AccountRole::Readonly));
    assert_eq!(ix.data, cat(&[&SWAP_SOL_BUY_DISCRIMINATOR, &1u64.to_le_bytes(), &2u64.to_le_bytes(), &[1]]));
    let ix = FraudsworthTax::instruction(&with, 1, 2, &sell).unwrap();
    assert_eq!(ix.accounts.len(), 25);
    assert_eq!(layout(&ix)[2], (3, AccountRole::Writable));
    assert_eq!(layout(&ix)[15], (16, AccountRole::Writable));
    assert_eq!(ix.data, cat(&[&SWAP_SOL_SELL_DISCRIMINATOR, &1u64.to_le_bytes(), &2u64.to_le_bytes(), &[0]]));
    assert!(FraudsworthTaxSwapData::try_from(&[1u8][..]).is_err());
}

#[test]
fn rise_buy_data_fields_are_read_at_their_offsets() {
    let data: Vec<u8> = (0..64).collect();
    match RiseSwapData::try_from(&data).unwrap() {
        RiseSwapData::BuyWithExactCashIn { new_shoulder_end, floor_increase_ratio, max_new_floor, max_area_shrinkage_tolerance_units, min_liq_ratio } => {
            assert_eq!(new_shoulder_end, u64::from_le_bytes(data[0..8].try_into().unwrap()));
            assert_eq!(floor_increase_ratio.to_bytes().to_vec(), data[8..24].to_vec());
            assert_eq!(max_new_floor.to_bytes().to_vec(), data[24..40].to_vec());
            assert_eq!(max_area_shrinkage_tolerance_units, u64::from_le_bytes(data[40..48].try_into().unwrap()));
            assert_eq!(min_liq_ratio.to_bytes().to_vec(), data[48..64].to_vec());
        }
        RiseSwapData::SellWithExactTokenIn => panic!("expected a buy"),
    }
    assert!(matches!(RiseSwapData::try_from(&data[..63]).unwrap(), RiseSwapData::SellWithExactTokenIn));
    let mut seven = vec![0u8; 40];
    seven.extend_from_slice(&7u64.to_le_bytes());
    seven.extend_from_slice(&[0u8; 16]);
    match RiseSwapData::try_from(&seven).unwrap() {
        RiseSwapData::BuyWithExactCashIn { new_shoulder_end, max_area_shrinkage_tolerance_units, min_liq_ratio, .. } => {
            assert_eq!(new_shoulder_end, 0);
            assert_eq!(max_area_shrinkage_tolerance_units, 7);
            assert_eq!(min_liq_ratio.to_bytes(), [0u8; 16]);
        }
        RiseSwapData::SellWithExactTokenIn => panic!("expected a buy"),
    }
    assert!(DecimalSerialized::try_from(&data[..15]).is_err());
    assert_eq!(DecimalSerialized::try_from(&data[..16]).unwrap().to_bytes().to_vec(), data[..16].to_vec());
}

#[test]
fn rise_instructions_have_their_layouts() {
    let accounts: Vec<u32> = (0..23).collect();
    assert!(matches!(RiseSwapAccounts::try_from(&accounts[..21]), Err(SwapError::NotEnoughAccountKeys)));
    let buy_accounts = RiseSwapAccounts::try_from(&accounts[..]).unwrap();
    assert_eq!(buy_accounts.tenant_seed.copied(), Some(9));
    assert_eq!(*buy_accounts.leg.team_escrow, 22);
    let sell_accounts = RiseSwapAccounts::try_from(&accounts[..22]).unwrap();
    assert!(sell_accounts.tenant_seed.is_none());
    assert_eq!(*sell_accounts.leg.mint_token, 9);

    let d = DecimalSerialized([7u8; 16]);
    let buy = RiseSwapData::BuyWithExactCashIn {
        new_shoulder_end: 11,
        floor_increase_ratio: d,
        max_new_floor: DecimalSerialized([8u8; 16]),
        max_area_shrinkage_tolerance_units: 12,
        min_liq_ratio: DecimalSerialized([9u8; 16]),
    };
    let ix = Rise::instruction(&buy_accounts, 1, 2, &buy);
    assert_eq!(ix.accounts.len(), 22);
    assert_eq!(layout(&ix)[8], (9, AccountRole::Readonly));
    assert_eq!(ix.data.len(), 88);
    assert_eq!(ix.data, cat(&[&BUY_WITH_EXACT_CASH_IN_DISCRIMINATOR, &1u64.to_le_bytes(), &2u64.to_le_bytes(), &11u64.to_le_bytes(), &[7u8; 16], &[8u8; 16], &12u64.to_le_bytes(), &[9u8; 16]]));
    let ix = Rise::instruction(&sell_accounts, 1, 2, &RiseSwapData::SellWithExactTokenIn);
    assert_eq!(ix.accounts.len(), 21);
    assert_eq!(ix.data, cat(&[&SELL_WITH_EXACT_TOKEN_IN_DISCRIMINATOR, &1u64.to_le_bytes(), &2u64.to_le_bytes()]));
}

#[test]
fn voltr_withdrawal_hands_the_authority_on_twice() {
    assert_eq!(VoltrSwapData::try_from(&[][..]).unwrap(), VoltrSwapData::DepositVault);
    assert_eq!(
        VoltrSwapData::try_from(&[1u8, 0][..]).unwrap(),
        VoltrSwapData::InstantWithdrawVault { is_amount_in_lp: true, is_withdraw_all: false }
    );
    assert_eq!(VoltrSwapData::try_from(&[1u8][..]).unwrap_err(), SwapError::InvalidInstructionData);

    let accounts: Vec<u32> = (0..14).collect();
    assert!(matches!(VoltrSwapAccounts::try_from(&accounts[..12]), Err(SwapError::NotEnoughAccountKeys)));
    let deposit = VoltrSwapAccounts::try_from(&accounts[..]).unwrap();
    let ix = Voltr::instruction(&deposit, 9, 8, &VoltrSwapData::DepositVault);
    assert_eq!(ix.accounts.len(), 13);
    assert_eq!(infos(&ix), (1..14).collect::<Vec<u32>>());
    assert_eq!(ix.data, cat(&[&DEPOSIT_VAULT_DISCRIMINATOR, &9u64.to_le_bytes()]));

    let withdraw = VoltrSwapAccounts::try_from(&accounts[..13]).unwrap();
    let data = VoltrSwapData::InstantWithdrawVault { is_amount_in_lp: false, is_withdraw_all: true };
    let ix = Voltr::instruction(&withdraw, 9, 8, &data);
    assert_eq!(ix.accounts.len(), 12);
    assert_eq!(layout(&ix)[7], (8, AccountRole::Writable));
    let mut expected: Vec<u32> = (1..13).collect();
    expected.push(1);
    assert_eq!(infos(&ix), expected);
    assert_eq!(ix.data, cat(&[&INSTANT_WITHDRAW_VAULT_DISCRIMINATOR, &9u64.to_le_bytes(), &[0, 1]]));
}

#[test]
fn synatra_stake_kind_follows_the_probe() {
    let accounts: Vec<u32> = (0..12).collect();
    assert!(matches!(SynatraSwapAccounts::try_from_probed(&accounts[..8], &YSOL_MINT), Err(SwapError::NotEnoughAccountKeys)));
    let sol = SynatraSwapAccounts::try_from_probed(&accounts[..9], &YSOL_MINT).unwrap();
    assert!(matches!(sol.swap_type, SynatraSwapType::StakeSol { user_receipt_ata, .. } if *user_receipt_ata == 5));
    let ix = Synatra::instruction(&sol, 40, 0, &());
    let l = layout(&ix);
    assert_eq!(l.len(), 8);
    assert_eq!(l[0], (1, AccountRole::Writable));
    assert_eq!(l[1], (2, AccountRole::WritableSigner));
    assert_eq!(l[5], (6, AccountRole::Readonly));
    assert_eq!(ix.data, cat(&[&STAKE_SOL_DISCRIMINATOR, &40u64.to_le_bytes()]));
    for n in 9..12 {
        assert!(matches!(SynatraSwapAccounts::try_from_probed(&accounts[..n], &OTHER_ADDRESS), Err(SwapError::NotEnoughAccountKeys)));
    }
    let token = SynatraSwapAccounts::try_from_probed(&accounts, &OTHER_ADDRESS).unwrap();
    let ix = Synatra::instruction(&token, 40, 0, &());
    assert_eq!(ix.accounts.len(), 11);
    assert_eq!(layout(&ix)[10], (11, AccountRole::Readonly));
    assert_eq!(&ix.data[0..8], &STAKE_TOKEN_DISCRIMINATOR);
}
