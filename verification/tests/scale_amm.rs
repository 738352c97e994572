use beethoven_swaps::cpi::AccountRole;
use beethoven_swaps::cpi::CpiProgram;
use beethoven_swaps::error::SwapError;
use beethoven_swaps::protocols::scale_amm::{
    build_instruction_data, ScaleAmm, ScaleAmmSide, ScaleAmmSwapAccounts, ScaleAmmSwapData,
    BUY_DISCRIMINATOR, SCALE_AMM_PROGRAM_ID, SELL_DISCRIMINATOR,
};

#[test]
fn test_parse_scale_amm_swap_data() {
    let buy = ScaleAmmSwapData::try_from(&[0u8][..]).unwrap();
    assert_eq!(buy.side, ScaleAmmSide::Buy);

    let sell = ScaleAmmSwapData::try_from(&[1u8][..]).unwrap();
    assert_eq!(sell.side, ScaleAmmSide::Sell);

    let empty: &[u8] = &[];

    assert_eq!(
        ScaleAmmSwapData::try_from(empty).unwrap_err(),
        SwapError::InvalidInstructionData
    );
    assert_eq!(
        ScaleAmmSwapData::try_from(&[2u8][..]).unwrap_err(),
        SwapError::InvalidInstructionData
    );
}

#[test]
fn test_instruction_data_layout() {
    let amount = 42u64;
    let min_out = 7u64;

    let buy = build_instruction_data(ScaleAmmSide::Buy, amount, min_out);
    assert_eq!(&buy[0..8], &BUY_DISCRIMINATOR);
    assert_eq!(&buy[8..16], &amount.to_le_bytes());
    assert_eq!(&buy[16..24], &min_out.to_le_bytes());

    let sell = build_instruction_data(ScaleAmmSide::Sell, amount, min_out);
    assert_eq!(&sell[0..8], &SELL_DISCRIMINATOR);
    assert_eq!(&sell[8..16], &amount.to_le_bytes());
    assert_eq!(&sell[16..24], &min_out.to_le_bytes());
}

#[test]
fn scale_amm_program_id_matches_its_base58_form() {
    let id = solana_address::Address::from_str_const("SCALEwAvEK5gtkdHiFzXfPgtk2YwJxPDzaV3aDmR7tA");
    assert_eq!(id.to_bytes(), SCALE_AMM_PROGRAM_ID);
}

#[test]
fn scale_amm_accounts_take_up_to_five_beneficiaries() {
    let accounts: Vec<u32> = (0..22).collect();
    assert!(matches!(
        ScaleAmmSwapAccounts::try_from(&accounts[..14]),
        Err(SwapError::NotEnoughAccountKeys)
    ));
    assert!(matches!(
        ScaleAmmSwapAccounts::try_from(&accounts[..21]),
        Err(SwapError::InvalidAccountData)
    ));
    let ctx = ScaleAmmSwapAccounts::try_from(&accounts[..17]).unwrap();
    assert_eq!(*ctx.pool, 1);
    assert_eq!(*ctx.config, 14);
    assert_eq!(ctx.beneficiary_accounts, &[15, 16]);
}

#[test]
fn scale_amm_instruction_lists_pool_first_and_beneficiaries_last() {
    let accounts: Vec<u32> = (0..17).collect();
    let ctx = ScaleAmmSwapAccounts::try_from(&accounts[..]).unwrap();
    let data = ScaleAmmSwapData { side: ScaleAmmSide::Sell };
    let ix = ScaleAmm::instruction(&ctx, 5, 6, &data).unwrap();
    assert!(matches!(ix.program, CpiProgram::Id(id) if id == SCALE_AMM_PROGRAM_ID));
    assert_eq!(ix.accounts.len(), 16);
    assert_eq!(*ix.accounts[0].account, 1);
    assert_eq!(ix.accounts[0].role, AccountRole::Writable);
    assert_eq!(ix.accounts[1].role, AccountRole::WritableSigner);
    assert_eq!(*ix.accounts[15].account, 16);
    assert_eq!(ix.accounts[15].role, AccountRole::Writable);
    let infos: Vec<u32> = ix.account_infos.iter().map(|a| **a).collect();
    assert_eq!(infos, (1..17).collect::<Vec<u32>>());
    let mut expected = SELL_DISCRIMINATOR.to_vec();
    expected.extend_from_slice(&5u64.to_le_bytes());
    expected.extend_from_slice(&6u64.to_le_bytes());
    assert_eq!(ix.data, expected);
}
