use beethoven_swaps::cpi::{AccountRole, CpiInstruction};
use beethoven_swaps::error::SwapError;
use beethoven_swaps::protocols::fusion_amm::{
    AccountsType, FusionAmm, FusionAmmSwapAccounts, FusionAmmSwapData, RemainingAccountsInfo,
    RemainingAccountsSlice, SWAP_DISCRIMINATOR as FUSION_SWAP,
};
use beethoven_swaps::protocols::meteora_dlmm::{
    MeteoraDlmm, MeteoraDlmmSwapAccounts, MeteoraDlmmSwapData, METEORA_DLMM_PROGRAM_ID,
    SWAP2_DISCRIMINATOR as DLMM_SWAP2,
};
use beethoven_swaps::protocols::phoenix_legacy::{
    OrderPacketType, PhoenixLegacy, PhoenixLegacySwapAccounts, PhoenixLegacySwapData, Side,
};
use beethoven_swaps::protocols::raydium_clmm::{
    RaydiumClmm, RaydiumClmmSwapAccounts, RaydiumClmmSwapData, SWAP_V2_DISCRIMINATOR,
};
use beethoven_swaps::protocols::saros_dlmm::{
    SarosDlmm, SarosDlmmSwapAccounts, SarosDlmmSwapData, SwapType, SWAP_DISCRIMINATOR as SAROS_SWAP,
};

fn layout(ix: &CpiInstruction<'_, u32>) -> Vec<(u32, AccountRole)> {
    ix.accounts.iter().map(|m| (*m.account, m.role)).collect()
}

fn cat(parts: &[&[u8]]) -> Vec<u8> {
    parts.concat()
}

#[test]
fn meteora_dlmm_host_fee_account_is_read_only_when_it_is_the_program() {
    let accounts: Vec<u32> = (0..20).collect();
    assert!(matches!(MeteoraDlmmSwapAccounts::try_from(&accounts[..16]), Err(SwapError::NotEnoughAccountKeys)));
    let ctx = MeteoraDlmmSwapAccounts::try_from(&accounts).unwrap();
    assert_eq!(ctx.remaining_accounts, &[17, 18, 19]);
    let info = [0u8, 0, 0, 0];
    let data = MeteoraDlmmSwapData::try_from(&info).unwrap();
    let ix = MeteoraDlmm::instruction(&ctx, 10, 9, &data, &METEORA_DLMM_PROGRAM_ID).unwrap();
    let l = layout(&ix);
    assert_eq!(l.len(), 19);
    assert_eq!(l[9], (10, AccountRole::Readonly));
    assert_eq!(l[10], (11, AccountRole::ReadonlySigner));
    assert_eq!(l[16], (17, AccountRole::AsPassed));
    assert_eq!(ix.data, cat(&[&DLMM_SWAP2, &10u64.to_le_bytes(), &9u64.to_le_bytes(), &info]));
    let ix = MeteoraDlmm::instruction(&ctx, 10, 9, &data, &[3u8; 32]).unwrap();
    assert_eq!(layout(&ix)[9], (10, AccountRole::Writable));
}

#[test]
fn meteora_dlmm_refuses_more_than_eight_info_bytes() {
    let accounts: Vec<u32> = (0..17).collect();
    let ctx = MeteoraDlmmSwapAccounts::try_from(&accounts).unwrap();
    let eight = [1u8; 8];
    assert_eq!(MeteoraDlmm::instruction(&ctx, 1, 2, &MeteoraDlmmSwapData::try_from(&eight).unwrap(), &[3u8; 32]).unwrap().data.len(), 32);
    let nine = [1u8; 9];
    assert_eq!(
        MeteoraDlmm::instruction(&ctx, 1, 2, &MeteoraDlmmSwapData::try_from(&nine).unwrap(), &[3u8; 32]).err(),
        Some(SwapError::InvalidInstructionData)
    );
}

#[test]
fn raydium_clmm_orders_amounts_by_exact_side() {
    let mut raw = 0x0102_0304_0506_0708_090a_0b0c_0d0e_0f10u128.to_le_bytes().to_vec();
    raw.push(1);
    let data = RaydiumClmmSwapData::try_from(&raw).unwrap();
    assert_eq!(data, RaydiumClmmSwapData { sqrt_price_limit_x64: 0x0102_0304_0506_0708_090a_0b0c_0d0e_0f10, is_base_input: true });
    assert_eq!(RaydiumClmmSwapData::try_from(&raw[..16]).unwrap_err(), SwapError::InvalidInstructionData);

    let accounts: Vec<u32> = (0..16).collect();
    let ctx = RaydiumClmmSwapAccounts::try_from(&accounts).unwrap();
    let ix = RaydiumClmm::instruction(&ctx, 100, 90, &data);
    assert_eq!(ix.data, cat(&[&SWAP_V2_DISCRIMINATOR, &100u64.to_le_bytes(), &90u64.to_le_bytes(), &raw]));
    assert_eq!(layout(&ix).len(), 15);
    assert_eq!(layout(&ix)[0], (1, AccountRole::ReadonlySigner));
    assert_eq!(layout(&ix)[14], (15, AccountRole::AsPassed));
    let exact_out = RaydiumClmmSwapData { sqrt_price_limit_x64: 5, is_base_input: false };
    let ix = RaydiumClmm::instruction(&ctx, 100, 90, &exact_out);
    assert_eq!(&ix.data[8..24], &cat(&[&90u64.to_le_bytes(), &100u64.to_le_bytes()])[..]);
    assert_eq!(ix.data[40], 0);
    let (input, output) = RaydiumClmm::token_accounts(&ctx, &data);
    assert_eq!((*input, *output), (4, 5));
}

#[test]
fn saros_dlmm_swap_data_and_layout() {
    assert_eq!(SarosDlmmSwapData::try_from(&[1u8, 0]).unwrap(), SarosDlmmSwapData { swap_for_y: true, swap_type: SwapType::ExactInput });
    assert_eq!(SarosDlmmSwapData::try_from(&[2u8, 1]).unwrap(), SarosDlmmSwapData { swap_for_y: false, swap_type: SwapType::ExactOutput });
    assert_eq!(SarosDlmmSwapData::try_from(&[1u8, 2]).unwrap_err(), SwapError::InvalidInstructionData);
    assert_eq!(SarosDlmmSwapData::try_from(&[1u8]).unwrap_err(), SwapError::InvalidInstructionData);
    let accounts: Vec<u32> = (0..19).collect();
    assert!(matches!(SarosDlmmSwapAccounts::try_from(&accounts[..17]), Err(SwapError::NotEnoughAccountKeys)));
    let ctx = SarosDlmmSwapAccounts::try_from(&accounts).unwrap();
    let data = SarosDlmmSwapData { swap_for_y: true, swap_type: SwapType::ExactOutput };
    let ix = SarosDlmm::instruction(&ctx, 3, 4, &data);
    assert_eq!(ix.data, cat(&[&SAROS_SWAP, &3u64.to_le_bytes(), &4u64.to_le_bytes(), &[1, 1]]));
    let l = layout(&ix);
    assert_eq!(l.len(), 18);
    assert_eq!(l[9], (10, AccountRole::WritableSigner));
    assert_eq!(l[17], (18, AccountRole::AsPassed));
}

fn fusion_bytes(tag: u8, slices: &[(u8, u8)]) -> Vec<u8> {
    let mut v = 7u128.to_le_bytes().to_vec();
    v.extend_from_slice(&[1, 0, tag]);
    if tag != 0 {
        v.extend_from_slice(&(slices.len() as u32).to_le_bytes());
        for (t, l) in slices {
            v.push(*t);
            v.push(*l);
        }
    }
    v
}

#[test]
fn fusion_swap_data_reads_the_slices() {
    let plain = FusionAmmSwapData::try_from(&fusion_bytes(0, &[])).unwrap();
    assert_eq!((plain.sqrt_price_limit, plain.amount_specified_is_input, plain.a_to_b), (7, true, false));
    assert!(plain.remaining_accounts_info.is_none());
    let bytes = fusion_bytes(1, &[(5, 3), (7, 1)]);
    assert_eq!(FusionAmmSwapData::encoded_len(&bytes), Ok(27));
    let with = FusionAmmSwapData::try_from(&bytes).unwrap();
    let slices = with.remaining_accounts_info.unwrap().slices;
    assert_eq!(slices, vec![
        RemainingAccountsSlice { accounts_type: AccountsType::SupplementalTickArrays, length: 3 },
        RemainingAccountsSlice { accounts_type: AccountsType::SupplementalTickArraysTwo, length: 1 },
    ]);
    assert!(FusionAmmSwapData::try_from(&fusion_bytes(1, &[(8, 3)])).is_err());
    let mut trailing = fusion_bytes(0, &[]);
    trailing.push(0);
    assert!(FusionAmmSwapData::try_from(&trailing).is_err());
    assert_eq!(FusionAmmSwapData::encoded_len(&fusion_bytes(1, &[])[..21]), Err(SwapError::InvalidInstructionData));
    assert_eq!(FusionAmmSwapData::encoded_len(&[0u8; 18]), Err(SwapError::InvalidInstructionData));
    let mut short = fusion_bytes(1, &[(1, 1), (2, 2)]);
    short.pop();
    assert_eq!(FusionAmmSwapData::encoded_len(&short), Err(SwapError::InvalidInstructionData));
}

#[test]
fn fusion_instruction_data_carries_the_swap_data_back() {
    let accounts: Vec<u32> = (0..17).collect();
    let ctx = FusionAmmSwapAccounts::try_from(&accounts).unwrap();
    assert!(matches!(FusionAmmSwapAccounts::try_from(&accounts[..14]), Err(SwapError::NotEnoughAccountKeys)));
    let bytes = fusion_bytes(1, &[(0, 2), (6, 4)]);
    let data = FusionAmmSwapData::try_from(&bytes).unwrap();
    let ix = FusionAmm::instruction(&ctx, 11, 12, &data).unwrap();
    assert_eq!(ix.data, cat(&[&FUSION_SWAP, &11u64.to_le_bytes(), &12u64.to_le_bytes(), &bytes]));
    let again = FusionAmmSwapData::try_from(&ix.data[24..]).unwrap();
    assert_eq!(again.sqrt_price_limit, data.sqrt_price_limit);
    assert_eq!(again.remaining_accounts_info.unwrap().slices, data.remaining_accounts_info.unwrap().slices);
    let l = layout(&ix);
    assert_eq!(l.len(), 14);
    assert_eq!(l[3], (4, AccountRole::ReadonlySigner));
    assert_eq!(l[13], (14, AccountRole::Writable));
    let plain = FusionAmmSwapData::try_from(&fusion_bytes(0, &[])).unwrap();
    assert_eq!(FusionAmm::instruction(&ctx, 11, 12, &plain).unwrap().data.len(), 43);
    let mut odd_flag = fusion_bytes(0, &[]);
    odd_flag[16] = 2;
    let read = FusionAmmSwapData::try_from(&odd_flag).unwrap();
    let ix = FusionAmm::instruction(&ctx, 11, 12, &read).unwrap();
    assert_eq!(ix.data[24 + 16], 0);
}

#[test]
fn fusion_refuses_instruction_data_over_the_limit() {
    let accounts: Vec<u32> = (0..15).collect();
    let ctx = FusionAmmSwapAccounts::try_from(&accounts).unwrap();
    let slice = RemainingAccountsSlice { accounts_type: AccountsType::TransferHookA, length: 1 };
    let fits = FusionAmmSwapData {
        sqrt_price_limit: 0,
        amount_specified_is_input: true,
        a_to_b: true,
        remaining_accounts_info: Some(RemainingAccountsInfo { slices: vec![slice; 232] }),
    };
    assert_eq!(FusionAmm::instruction(&ctx, 1, 1, &fits).unwrap().data.len(), 511);
    let over = FusionAmmSwapData {
        sqrt_price_limit: 0,
        amount_specified_is_input: true,
        a_to_b: true,
        remaining_accounts_info: Some(RemainingAccountsInfo { slices: vec![slice; 233] }),
    };
    assert_eq!(FusionAmm::instruction(&ctx, 1, 1, &over).err(), Some(SwapError::InvalidInstructionData));
}

#[test]
fn accounts_type_bytes_round_trip() {
    for b in 0u8..8 {
        assert_eq!(AccountsType::from_byte(b).unwrap().to_byte(), b);
    }
    assert_eq!(AccountsType::from_byte(8), None);
}

fn phoenix_bytes() -> Vec<u8> {
    let mut v = vec![1u8];
    v.push(1);
    v.extend_from_slice(&500u64.to_le_bytes());
    v.extend_from_slice(&77u64.to_le_bytes());
    v.push(2);
    v.push(0);
    v.extend_from_slice(&[9u8; 8]);
    v.extend_from_slice(&3u64.to_le_bytes());
    v.extend_from_slice(&4u64.to_le_bytes());
    v.push(1);
    v.push(1);
    v.extend_from_slice(&900u64.to_le_bytes());
    v.push(0);
    v.extend_from_slice(&[0u8; 8]);
    v
}

#[test]
fn phoenix_swap_data_reads_options_and_order_id() {
    let raw = phoenix_bytes();
    assert_eq!(raw.len(), 63);
    let d = PhoenixLegacySwapData::try_from(&raw).unwrap();
    assert_eq!(d, PhoenixLegacySwapData {
        side: Side::Ask,
        price_in_ticks: Some(500),
        max_counterpart_lots: 77,
        self_trade_behavior: 2,
        match_limit: None,
        client_order_id: (4u128 << 64) | 3,
        use_only_deposited_funds: true,
        last_valid_slot: Some(900),
        last_valid_unix_timestamp_in_seconds: None,
    });
    assert_eq!(PhoenixLegacySwapData::try_from(&raw[..62]).unwrap_err(), SwapError::InvalidInstructionData);
    let mut bad = raw.clone();
    bad[0] = 2;
    assert_eq!(PhoenixLegacySwapData::try_from(&bad).unwrap_err(), SwapError::InvalidInstructionData);
}

#[test]
fn phoenix_sends_an_immediate_or_cancel_order() {
    assert_eq!(OrderPacketType::ImmediateOrCancel.to_byte(), 2);
    assert_eq!(OrderPacketType::PostOnly.to_byte(), 0);
    let accounts: Vec<u32> = (0..9).collect();
    assert!(matches!(PhoenixLegacySwapAccounts::try_from(&accounts[..8]), Err(SwapError::NotEnoughAccountKeys)));
    let ctx = PhoenixLegacySwapAccounts::try_from(&accounts).unwrap();
    let d = PhoenixLegacySwapData::try_from(&phoenix_bytes()).unwrap();
    let ix = PhoenixLegacy::instruction(&ctx, 1000, 50, &d);
    let expected = cat(&[
        &[0, 2, 1],
        &[1], &500u64.to_le_bytes(),
        &1000u64.to_le_bytes(), &77u64.to_le_bytes(), &0u64.to_le_bytes(), &50u64.to_le_bytes(),
        &[2],
        &[0],
        &3u64.to_le_bytes(), &4u64.to_le_bytes(),
        &[1],
        &[1], &900u64.to_le_bytes(),
        &[0],
    ]);
    assert_eq!(ix.data, expected);
    let l = layout(&ix);
    assert_eq!(l.len(), 9);
    assert_eq!(l[0], (0, AccountRole::Readonly));
    assert_eq!(l[3], (3, AccountRole::ReadonlySigner));
    let bid = PhoenixLegacySwapData { side: Side::Bid, price_in_ticks: None, match_limit: None, last_valid_slot: None, last_valid_unix_timestamp_in_seconds: None, ..d };
    let ix = PhoenixLegacy::instruction(&ctx, 1000, 50, &bid);
    assert_eq!(ix.data.len(), 57);
    assert_eq!(&ix.data[4..36], &cat(&[&77u64.to_le_bytes(), &1000u64.to_le_bytes(), &50u64.to_le_bytes(), &0u64.to_le_bytes()])[..]);
    let full = PhoenixLegacySwapData { price_in_ticks: Some(1), match_limit: Some(2), last_valid_slot: Some(3), last_valid_unix_timestamp_in_seconds: Some(4), ..d };
    assert_eq!(PhoenixLegacy::instruction(&ctx, 1, 2, &full).data.len(), 89);
}
