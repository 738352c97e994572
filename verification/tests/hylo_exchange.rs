use beethoven_swaps::cpi::{AccountRole, CpiInstruction, CpiProgram};
use beethoven_swaps::error::SwapError;
use beethoven_swaps::protocols::hylo_exchange::{
    build_instruction_data, mint_decimals_of, HyloExchange, HyloExchangeLeg,
    HyloExchangeSwapAccounts, HyloExchangeSwapData, SwapType, HYLO_EXCHANGE_PROGRAM_ID,
    MINT_STABLECOIN_DISCRIMINATOR, REDEEM_LEVERCOIN_DISCRIMINATOR,
    SWAP_STABLE_TO_LEVER_DISCRIMINATOR, HYUSD_STABLECOIN_AUTH,
};

const OTHER_ADDRESS: [u8; 32] = [7u8; 32];

fn layout(ix: &CpiInstruction<'_, u32>) -> Vec<(u32, AccountRole)> {
    ix.accounts.iter().map(|m| (*m.account, m.role)).collect()
}

fn expected_data(disc: [u8; 8], amount_in: u64, expected_out: u64, neg_decimals: u8) -> Vec<u8> {
    let mut v = disc.to_vec();
    v.extend_from_slice(&amount_in.to_le_bytes());
    v.push(1);
    v.extend_from_slice(&expected_out.to_le_bytes());
    v.push(neg_decimals);
    v.extend_from_slice(&20u64.to_le_bytes());
    v.push(0xfc);
    v
}

#[test]
fn hylo_swap_data_names_six_swap_types() {
    assert_eq!(HyloExchangeSwapData::try_from(&[0u8][..]).unwrap().swap_type, SwapType::MintStablecoin);
    assert_eq!(HyloExchangeSwapData::try_from(&[3u8][..]).unwrap().swap_type, SwapType::RedeemLevercoin);
    assert_eq!(HyloExchangeSwapData::try_from(&[5u8, 9][..]).unwrap().swap_type, SwapType::SwapLeverToStable);
    assert_eq!(HyloExchangeSwapData::try_from(&[6u8][..]).unwrap_err(), SwapError::InvalidInstructionData);
    assert_eq!(HyloExchangeSwapData::try_from(&[][..]).unwrap_err(), SwapError::InvalidInstructionData);
}

#[test]
fn hylo_legs_are_chosen_by_account_count() {
    let accounts: Vec<u32> = (0..20).collect();
    let mint = HyloExchangeSwapAccounts::try_from_probed(&accounts[..19], &HYUSD_STABLECOIN_AUTH).unwrap();
    assert_eq!(*mint.hylo_program, 0);
    match mint.leg {
        HyloExchangeLeg::MintStablecoin { user, stablecoin_auth, program, .. } => {
            assert_eq!((*user, *stablecoin_auth, *program), (1, 5, 18));
        }
        _ => panic!("expected a stablecoin mint"),
    }
    let redeem = HyloExchangeSwapAccounts::try_from_probed(&accounts[..19], &OTHER_ADDRESS).unwrap();
    assert!(matches!(redeem.leg, HyloExchangeLeg::RedeemLevercoin { lst_mint, .. } if *lst_mint == 12));
    let redeem_stable = HyloExchangeSwapAccounts::try_from_probed(&accounts[..18], &HYUSD_STABLECOIN_AUTH).unwrap();
    assert!(matches!(redeem_stable.leg, HyloExchangeLeg::RedeemStablecoin { program, .. } if *program == 17));
    let mint_lever = HyloExchangeSwapAccounts::try_from_probed(&accounts[..20], &OTHER_ADDRESS).unwrap();
    assert!(matches!(mint_lever.leg, HyloExchangeLeg::MintLevercoin { levercoin_mint, .. } if *levercoin_mint == 12));
    let rebalance = HyloExchangeSwapAccounts::try_from_probed(&accounts[..15], &OTHER_ADDRESS).unwrap();
    assert!(matches!(rebalance.leg, HyloExchangeLeg::Rebalance { user_levercoin_ta, .. } if *user_levercoin_ta == 11));
    for n in [0usize, 14, 16, 17] {
        assert!(matches!(
            HyloExchangeSwapAccounts::try_from_probed(&accounts[..n], &HYUSD_STABLECOIN_AUTH),
            Err(SwapError::NotEnoughAccountKeys)
        ));
    }
}

#[test]
fn hylo_instruction_data_has_expected_out_and_negated_decimals() {
    let bytes = build_instruction_data(MINT_STABLECOIN_DISCRIMINATOR, 1_000, 998, 6);
    assert_eq!(bytes.to_vec(), expected_data(MINT_STABLECOIN_DISCRIMINATOR, 1_000, 1_000, 250));
    let zero = build_instruction_data(REDEEM_LEVERCOIN_DISCRIMINATOR, 5, 0, 0);
    assert_eq!(zero.to_vec(), expected_data(REDEEM_LEVERCOIN_DISCRIMINATOR, 5, 0, 0));
    let nine = build_instruction_data(REDEEM_LEVERCOIN_DISCRIMINATOR, 5, 9_980, 9);
    assert_eq!(nine.to_vec(), expected_data(REDEEM_LEVERCOIN_DISCRIMINATOR, 5, 10_000, 247));
}

#[test]
fn hylo_slippage_round_trip_gives_back_the_minimum() {
    for min in [0u64, 1, 2, 500, 997, 998, 999, 12_345, 1_000_000_007] {
        let bytes = build_instruction_data(MINT_STABLECOIN_DISCRIMINATOR, 0, min, 6);
        let expected = u64::from_le_bytes(bytes[17..25].try_into().unwrap());
        assert!(expected >= min);
        assert_eq!(expected as u128 * 9_980 / 10_000, min as u128);
        if expected > 0 {
            assert!((expected as u128 - 1) * 9_980 / 10_000 < min as u128);
        }
    }
    let five_hundred = build_instruction_data(MINT_STABLECOIN_DISCRIMINATOR, 0, 500, 6);
    assert_eq!(u64::from_le_bytes(five_hundred[17..25].try_into().unwrap()), 502);
}

#[test]
fn hylo_rebalance_needs_a_rebalancing_swap_type() {
    let accounts: Vec<u32> = (0..15).collect();
    let ctx = HyloExchangeSwapAccounts::try_from_probed(&accounts, &OTHER_ADDRESS).unwrap();
    let wrong = HyloExchangeSwapData { swap_type: SwapType::MintStablecoin };
    assert_eq!(HyloExchange::instruction(&ctx, 1, 2, &wrong, 6).err(), Some(SwapError::InvalidInstructionData));
    assert_eq!(HyloExchange::leg_target(&ctx, &wrong).err(), Some(SwapError::InvalidInstructionData));
    let data = HyloExchangeSwapData { swap_type: SwapType::SwapStableToLever };
    let (disc, token_out) = HyloExchange::leg_target(&ctx, &data).unwrap();
    assert_eq!(disc, SWAP_STABLE_TO_LEVER_DISCRIMINATOR);
    assert_eq!(*token_out, 9);
    let ix = HyloExchange::instruction(&ctx, 7, 998, &data, 6).unwrap();
    assert!(matches!(ix.program, CpiProgram::Id(id) if id == HYLO_EXCHANGE_PROGRAM_ID));
    let l = layout(&ix);
    assert_eq!(l.len(), 14);
    assert_eq!(l[0], (1, AccountRole::WritableSigner));
    assert_eq!(l[3], (4, AccountRole::Writable));
    assert_eq!(l[13], (14, AccountRole::Readonly));
    assert_eq!(ix.data, expected_data(SWAP_STABLE_TO_LEVER_DISCRIMINATOR, 7, 1_000, 250));
    let infos: Vec<u32> = ix.account_infos.iter().map(|a| **a).collect();
    assert_eq!(infos, (1..15).collect::<Vec<u32>>());
}

#[test]
fn hylo_mint_stablecoin_instruction_lists_eighteen_accounts() {
    let accounts: Vec<u32> = (0..19).collect();
    let ctx = HyloExchangeSwapAccounts::try_from_probed(&accounts, &HYUSD_STABLECOIN_AUTH).unwrap();
    let data = HyloExchangeSwapData { swap_type: SwapType::MintStablecoin };
    let ix = HyloExchange::instruction(&ctx, 1, 2, &data, 6).unwrap();
    let l = layout(&ix);
    assert_eq!(l.len(), 18);
    assert_eq!(l[11], (12, AccountRole::Writable));
    assert_eq!(l[4], (5, AccountRole::Readonly));
    assert_eq!(&ix.data[0..8], &MINT_STABLECOIN_DISCRIMINATOR);
    let (_, token_out) = HyloExchange::leg_target(&ctx, &data).unwrap();
    assert_eq!(*token_out, 12);
}

#[test]
fn hylo_mint_decimals_sit_at_offset_forty_four() {
    let mut data = vec![0u8; 44];
    assert_eq!(mint_decimals_of(&data), None);
    data.push(9);
    assert_eq!(mint_decimals_of(&data), Some(9));
}

#[test]
fn hylo_minimum_too_large_to_scale_is_refused_after_the_swap_type() {
    let accounts: Vec<u32> = (0..15).collect();
    let ctx = HyloExchangeSwapAccounts::try_from_probed(&accounts, &OTHER_ADDRESS).unwrap();
    let wrong = HyloExchangeSwapData { swap_type: SwapType::MintStablecoin };
    assert_eq!(HyloExchange::instruction(&ctx, 1, u64::MAX, &wrong, 6).err(), Some(SwapError::InvalidInstructionData));
    let data = HyloExchangeSwapData { swap_type: SwapType::SwapLeverToStable };
    let limit = u64::MAX / 10_000;
    assert_eq!(HyloExchange::instruction(&ctx, 1, limit + 1, &data, 6).err(), Some(SwapError::ArithmeticOverflow));
    let ix = HyloExchange::instruction(&ctx, 1, limit, &data, 6).unwrap();
    let expected = u64::from_le_bytes(ix.data[17..25].try_into().unwrap());
    assert_eq!(expected as u128 * 9_980 / 10_000, limit as u128);
}
