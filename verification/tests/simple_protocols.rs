use beethoven_swaps::cpi::{AccountRole, CpiInstruction, CpiProgram};
use beethoven_swaps::error::SwapError;
use beethoven_swaps::protocols::bisonfi;
use beethoven_swaps::protocols::fraudsworth_conversion_vault;
use beethoven_swaps::protocols::huma_finance;
use beethoven_swaps::protocols::meteora_damm;
use beethoven_swaps::protocols::meteora_damm_v2;
use beethoven_swaps::protocols::meteora_dynamic_bonding_curve;
use beethoven_swaps::protocols::obric_v2;
use beethoven_swaps::protocols::onre;
use beethoven_swaps::protocols::ore_lst;
use beethoven_swaps::protocols::oxedium;
use beethoven_swaps::protocols::raydium_amm_v4;
use beethoven_swaps::protocols::sanctum_staking;
use beethoven_swaps::protocols::saros_amm;
use beethoven_swaps::protocols::scorch;
use beethoven_swaps::protocols::solv_finance;
use beethoven_swaps::protocols::stabble_stable;
use beethoven_swaps::protocols::tessera_v;
use beethoven_swaps::protocols::unitas_vault;
use beethoven_swaps::protocols::xorca;
use beethoven_swaps::protocols::zerofi;
use beethoven_swaps::protocols::alphaq;

const A: u64 = 0x0102_0304_0506_0708;
const B: u64 = 77;

fn layout(ix: &CpiInstruction<'_, u32>) -> Vec<(u32, AccountRole)> {
    ix.accounts.iter().map(|m| (*m.account, m.role)).collect()
}

fn infos(ix: &CpiInstruction<'_, u32>) -> Vec<u32> {
    ix.account_infos.iter().map(|a| **a).collect()
}

fn cat(parts: &[&[u8]]) -> Vec<u8> {
    parts.concat()
}

#[test]
fn bisonfi_instruction_layout() {
    let accounts: Vec<u32> = (0..11).collect();
    assert!(matches!(bisonfi::BisonfiSwapAccounts::try_from(&accounts[..9]), Err(SwapError::NotEnoughAccountKeys)));
    assert!(matches!(bisonfi::BisonfiSwapAccounts::try_from(&accounts[..11]), Err(SwapError::NotEnoughAccountKeys)));
    let ctx = bisonfi::BisonfiSwapAccounts::try_from(&accounts[..10]).unwrap();
    let ix = bisonfi::Bisonfi::instruction(&ctx, A, B, &bisonfi::BisonfiSwapData::try_from(&[1u8, 0]).unwrap());
    assert_eq!(layout(&ix), vec![(1, AccountRole::WritableSigner), (2, AccountRole::Writable), (3, AccountRole::Writable), (4, AccountRole::Writable), (5, AccountRole::Writable), (6, AccountRole::Writable), (7, AccountRole::Readonly), (8, AccountRole::Readonly), (9, AccountRole::Readonly)]);
    assert_eq!(infos(&ix), layout(&ix).iter().map(|x| x.0).collect::<Vec<u32>>());
    assert!(matches!(ix.program, CpiProgram::Id(id) if id == bisonfi::BISONFI_PROGRAM_ID));
    assert_eq!(ix.data, cat(&[&[7], &A.to_le_bytes(), &B.to_le_bytes(), &[1, 0]]));
}

#[test]
fn fraudsworth_conversion_vault_instruction_layout() {
    let accounts: Vec<u32> = (0..19).collect();
    assert!(matches!(fraudsworth_conversion_vault::FraudsworthConversionVaultSwapAccounts::try_from(&accounts[..17]), Err(SwapError::NotEnoughAccountKeys)));
    assert!(matches!(fraudsworth_conversion_vault::FraudsworthConversionVaultSwapAccounts::try_from(&accounts[..19]), Err(SwapError::NotEnoughAccountKeys)));
    let ctx = fraudsworth_conversion_vault::FraudsworthConversionVaultSwapAccounts::try_from(&accounts[..18]).unwrap();
    let ix = fraudsworth_conversion_vault::FraudsworthConversionVault::instruction(&ctx, A, B, &fraudsworth_conversion_vault::FraudsworthConversionVaultSwapData::try_from(&55u64.to_le_bytes()).unwrap());
    assert_eq!(layout(&ix), vec![(1, AccountRole::ReadonlySigner), (2, AccountRole::Readonly), (3, AccountRole::Writable), (4, AccountRole::Writable), (5, AccountRole::Readonly), (6, AccountRole::Readonly), (7, AccountRole::Writable), (8, AccountRole::Writable), (9, AccountRole::Readonly), (10, AccountRole::Readonly), (11, AccountRole::Readonly), (12, AccountRole::Readonly), (13, AccountRole::Readonly), (14, AccountRole::Readonly), (15, AccountRole::Readonly), (16, AccountRole::Readonly), (17, AccountRole::Readonly)]);
    assert_eq!(infos(&ix), layout(&ix).iter().map(|x| x.0).collect::<Vec<u32>>());
    assert!(matches!(ix.program, CpiProgram::Id(id) if id == fraudsworth_conversion_vault::FRAUDSWORTH_CONVERSION_VAULT_PROGRAM_ID));
    assert_eq!(ix.data, cat(&[&fraudsworth_conversion_vault::CONVERT_V2_DISCRIMINATOR, &A.to_le_bytes(), &B.to_le_bytes(), &55u64.to_le_bytes()]));
}

#[test]
fn huma_finance_instruction_layout() {
    let accounts: Vec<u32> = (0..15).collect();
    assert!(matches!(huma_finance::HumaFinanceSwapAccounts::try_from(&accounts[..13]), Err(SwapError::NotEnoughAccountKeys)));
    assert!(matches!(huma_finance::HumaFinanceSwapAccounts::try_from(&accounts[..15]), Err(SwapError::NotEnoughAccountKeys)));
    let ctx = huma_finance::HumaFinanceSwapAccounts::try_from(&accounts[..14]).unwrap();
    let ix = huma_finance::HumaFinance::instruction(&ctx, A, B, &());
    assert_eq!(layout(&ix), vec![(1, AccountRole::WritableSigner), (2, AccountRole::Readonly), (3, AccountRole::Readonly), (4, AccountRole::Writable), (5, AccountRole::Readonly), (6, AccountRole::Writable), (7, AccountRole::Readonly), (8, AccountRole::Readonly), (9, AccountRole::Writable), (10, AccountRole::Writable), (11, AccountRole::Writable), (12, AccountRole::Readonly), (13, AccountRole::Readonly)]);
    assert_eq!(infos(&ix), layout(&ix).iter().map(|x| x.0).collect::<Vec<u32>>());
    assert!(matches!(ix.program, CpiProgram::Id(id) if id == huma_finance::HUMA_FINANCE_PROGRAM_ID));
    assert_eq!(ix.data, cat(&[&huma_finance::DEPOSIT_DISCRIMINATOR, &A.to_le_bytes(), &[13, 0, 0, 0], b"NO_COMMITMENT", &[0]]));
}

#[test]
fn meteora_damm_instruction_layout() {
    let accounts: Vec<u32> = (0..17).collect();
    assert!(matches!(meteora_damm::MeteoraDammSwapAccounts::try_from(&accounts[..15]), Err(SwapError::NotEnoughAccountKeys)));
    let ctx = meteora_damm::MeteoraDammSwapAccounts::try_from(&accounts[..16]).unwrap();
    let ix = meteora_damm::MeteoraDamm::instruction(&ctx, A, B, &());
    assert_eq!(layout(&ix), vec![(1, AccountRole::Writable), (2, AccountRole::Writable), (3, AccountRole::Writable), (4, AccountRole::Writable), (5, AccountRole::Writable), (6, AccountRole::Writable), (7, AccountRole::Writable), (8, AccountRole::Writable), (9, AccountRole::Writable), (10, AccountRole::Writable), (11, AccountRole::Writable), (12, AccountRole::Writable), (13, AccountRole::ReadonlySigner), (14, AccountRole::Readonly), (15, AccountRole::Readonly)]);
    assert_eq!(infos(&ix), layout(&ix).iter().map(|x| x.0).collect::<Vec<u32>>());
    assert!(matches!(ix.program, CpiProgram::Id(id) if id == meteora_damm::METEORA_DAMM_PROGRAM_ID));
    assert_eq!(ix.data, cat(&[&meteora_damm::SWAP_DISCRIMINATOR, &A.to_le_bytes(), &B.to_le_bytes()]));
}

#[test]
fn meteora_damm_v2_instruction_layout() {
    let accounts: Vec<u32> = (0..16).collect();
    assert!(matches!(meteora_damm_v2::MeteoraDammV2SwapAccounts::try_from(&accounts[..14]), Err(SwapError::NotEnoughAccountKeys)));
    let ctx = meteora_damm_v2::MeteoraDammV2SwapAccounts::try_from(&accounts[..15]).unwrap();
    let ix = meteora_damm_v2::MeteoraDammV2::instruction(&ctx, A, B, &meteora_damm_v2::MeteoraDammV2SwapData::try_from(&[2u8]).unwrap(), &[0u8; 32]);
    assert_eq!(layout(&ix), vec![(1, AccountRole::Readonly), (2, AccountRole::Writable), (3, AccountRole::Writable), (4, AccountRole::Writable), (5, AccountRole::Writable), (6, AccountRole::Writable), (7, AccountRole::Readonly), (8, AccountRole::Readonly), (9, AccountRole::ReadonlySigner), (10, AccountRole::Readonly), (11, AccountRole::Readonly), (12, AccountRole::Writable), (13, AccountRole::Readonly), (14, AccountRole::Readonly)]);
    assert_eq!(infos(&ix), layout(&ix).iter().map(|x| x.0).collect::<Vec<u32>>());
    assert!(matches!(ix.program, CpiProgram::Id(id) if id == meteora_damm_v2::METEORA_DAMM_V2_PROGRAM_ID));
    assert_eq!(ix.data, cat(&[&meteora_damm_v2::SWAP2_DISCRIMINATOR, &A.to_le_bytes(), &B.to_le_bytes(), &[2]]));
}

#[test]
fn meteora_dynamic_bonding_curve_instruction_layout() {
    let accounts: Vec<u32> = (0..17).collect();
    assert!(matches!(meteora_dynamic_bonding_curve::MeteoraDynamicBondingCurveSwapAccounts::try_from(&accounts[..15]), Err(SwapError::NotEnoughAccountKeys)));
    assert!(matches!(meteora_dynamic_bonding_curve::MeteoraDynamicBondingCurveSwapAccounts::try_from(&accounts[..17]), Err(SwapError::NotEnoughAccountKeys)));
    let ctx = meteora_dynamic_bonding_curve::MeteoraDynamicBondingCurveSwapAccounts::try_from(&accounts[..16]).unwrap();
    let ix = meteora_dynamic_bonding_curve::MeteoraDynamicBondingCurve::instruction(&ctx, A, B, &meteora_dynamic_bonding_curve::MeteoraDynamicBondingCurveSwapData::try_from(&[2u8]).unwrap(), &[0u8; 32]);
    assert_eq!(layout(&ix), vec![(1, AccountRole::Readonly), (2, AccountRole::Readonly), (3, AccountRole::Writable), (4, AccountRole::Writable), (5, AccountRole::Writable), (6, AccountRole::Writable), (7, AccountRole::Writable), (8, AccountRole::Readonly), (9, AccountRole::Readonly), (10, AccountRole::ReadonlySigner), (11, AccountRole::Readonly), (12, AccountRole::Readonly), (13, AccountRole::Writable), (14, AccountRole::Readonly), (15, AccountRole::Readonly)]);
    assert_eq!(infos(&ix), layout(&ix).iter().map(|x| x.0).collect::<Vec<u32>>());
    assert!(matches!(ix.program, CpiProgram::Id(id) if id == meteora_dynamic_bonding_curve::METEORA_DYNAMIC_BONDING_CURVE_PROGRAM_ID));
    assert_eq!(ix.data, cat(&[&meteora_dynamic_bonding_curve::SWAP2_DISCRIMINATOR, &B.to_le_bytes(), &A.to_le_bytes(), &[2]]));
}

#[test]
fn obric_v2_instruction_layout() {
    let accounts: Vec<u32> = (0..14).collect();
    assert!(matches!(obric_v2::ObricV2SwapAccounts::try_from(&accounts[..12]), Err(SwapError::NotEnoughAccountKeys)));
    let ctx = obric_v2::ObricV2SwapAccounts::try_from(&accounts[..13]).unwrap();
    let ix = obric_v2::ObricV2::instruction(&ctx, A, B, &obric_v2::ObricV2SwapData::try_from(&[1u8]).unwrap());
    assert_eq!(layout(&ix), vec![(1, AccountRole::Writable), (2, AccountRole::Readonly), (3, AccountRole::Readonly), (4, AccountRole::Writable), (5, AccountRole::Writable), (6, AccountRole::Writable), (7, AccountRole::Writable), (8, AccountRole::Writable), (9, AccountRole::Readonly), (10, AccountRole::Readonly), (11, AccountRole::WritableSigner), (12, AccountRole::Readonly)]);
    assert_eq!(infos(&ix), layout(&ix).iter().map(|x| x.0).collect::<Vec<u32>>());
    assert!(matches!(ix.program, CpiProgram::Id(id) if id == obric_v2::OBRIC_V2_PROGRAM_ID));
    assert_eq!(ix.data, cat(&[&obric_v2::SWAP2_DISCRIMINATOR, &[1], &A.to_le_bytes(), &B.to_le_bytes()]));
}

#[test]
fn onre_instruction_layout() {
    let accounts: Vec<u32> = (0..23).collect();
    assert!(matches!(onre::OnreSwapAccounts::try_from(&accounts[..21]), Err(SwapError::NotEnoughAccountKeys)));
    let ctx = onre::OnreSwapAccounts::try_from(&accounts[..22]).unwrap();
    let ix = onre::Onre::instruction(&ctx, A, B, &());
    assert_eq!(layout(&ix), vec![(1, AccountRole::Writable), (2, AccountRole::Readonly), (3, AccountRole::Readonly), (4, AccountRole::Readonly), (5, AccountRole::Writable), (6, AccountRole::Writable), (7, AccountRole::Readonly), (8, AccountRole::Writable), (9, AccountRole::Writable), (10, AccountRole::Writable), (11, AccountRole::Readonly), (12, AccountRole::Writable), (13, AccountRole::Readonly), (14, AccountRole::Writable), (15, AccountRole::Writable), (16, AccountRole::Writable), (17, AccountRole::Readonly), (18, AccountRole::Readonly), (19, AccountRole::WritableSigner), (20, AccountRole::Readonly), (21, AccountRole::Readonly)]);
    assert_eq!(infos(&ix), layout(&ix).iter().map(|x| x.0).collect::<Vec<u32>>());
    assert!(matches!(ix.program, CpiProgram::Id(id) if id == onre::ONRE_PROGRAM_ID));
    assert_eq!(ix.data, cat(&[&onre::TAKE_OFFER_PERMISSIONLESS_DISCRIMINATOR, &A.to_le_bytes(), &[0]]));
}

#[test]
fn ore_lst_instruction_layout() {
    let accounts: Vec<u32> = (0..18).collect();
    assert!(matches!(ore_lst::OreLstSwapAccounts::try_from(&accounts[..16]), Err(SwapError::NotEnoughAccountKeys)));
    assert!(matches!(ore_lst::OreLstSwapAccounts::try_from(&accounts[..18]), Err(SwapError::NotEnoughAccountKeys)));
    let ctx = ore_lst::OreLstSwapAccounts::try_from(&accounts[..17]).unwrap();
    let ix = ore_lst::OreLst::instruction(&ctx, A, B, &ore_lst::OreLstSwapData::try_from(&[1u8]).unwrap());
    assert_eq!(layout(&ix), vec![(1, AccountRole::WritableSigner), (2, AccountRole::WritableSigner), (3, AccountRole::Writable), (4, AccountRole::Writable), (5, AccountRole::Writable), (6, AccountRole::Writable), (7, AccountRole::Writable), (8, AccountRole::Writable), (9, AccountRole::Writable), (10, AccountRole::Writable), (11, AccountRole::Writable), (12, AccountRole::Writable), (13, AccountRole::Readonly), (14, AccountRole::Readonly), (15, AccountRole::Readonly), (16, AccountRole::Readonly)]);
    assert_eq!(infos(&ix), layout(&ix).iter().map(|x| x.0).collect::<Vec<u32>>());
    assert!(matches!(ix.program, CpiProgram::Id(id) if id == ore_lst::ORE_LST_PROGRAM_ID));
    assert_eq!(ix.data, cat(&[&[3], &A.to_le_bytes()]));
}

#[test]
fn oxedium_instruction_layout() {
    let accounts: Vec<u32> = (0..17).collect();
    assert!(matches!(oxedium::OxediumSwapAccounts::try_from(&accounts[..15]), Err(SwapError::NotEnoughAccountKeys)));
    let ctx = oxedium::OxediumSwapAccounts::try_from(&accounts[..16]).unwrap();
    let ix = oxedium::Oxedium::instruction(&ctx, A, B, &());
    assert_eq!(layout(&ix), vec![(1, AccountRole::WritableSigner), (2, AccountRole::Readonly), (3, AccountRole::Readonly), (4, AccountRole::Readonly), (5, AccountRole::Readonly), (6, AccountRole::Writable), (7, AccountRole::Writable), (8, AccountRole::Writable), (9, AccountRole::Writable), (10, AccountRole::Writable), (11, AccountRole::Writable), (12, AccountRole::Readonly), (13, AccountRole::Readonly), (14, AccountRole::Readonly), (15, AccountRole::Readonly)]);
    assert_eq!(infos(&ix), layout(&ix).iter().map(|x| x.0).collect::<Vec<u32>>());
    assert!(matches!(ix.program, CpiProgram::Id(id) if id == oxedium::OXEDIUM_PROGRAM_ID));
    assert_eq!(ix.data, cat(&[&oxedium::SWAP_DISCRIMINATOR, &A.to_le_bytes(), &B.to_le_bytes()]));
}

#[test]
fn raydium_amm_v4_instruction_layout() {
    let accounts: Vec<u32> = (0..10).collect();
    assert!(matches!(raydium_amm_v4::RaydiumAmmV4SwapAccounts::try_from(&accounts[..8]), Err(SwapError::NotEnoughAccountKeys)));
    let ctx = raydium_amm_v4::RaydiumAmmV4SwapAccounts::try_from(&accounts[..9]).unwrap();
    let ix = raydium_amm_v4::RaydiumAmmV4::instruction(&ctx, A, B, &());
    assert_eq!(layout(&ix), vec![(1, AccountRole::Readonly), (2, AccountRole::Writable), (3, AccountRole::Readonly), (4, AccountRole::Writable), (5, AccountRole::Writable), (6, AccountRole::Writable), (7, AccountRole::Writable), (8, AccountRole::WritableSigner)]);
    assert_eq!(infos(&ix), layout(&ix).iter().map(|x| x.0).collect::<Vec<u32>>());
    assert!(matches!(ix.program, CpiProgram::Id(id) if id == raydium_amm_v4::RAYDIUM_AMM_V4_PROGRAM_ID));
    assert_eq!(ix.data, cat(&[&[16], &A.to_le_bytes(), &B.to_le_bytes()]));
}

#[test]
fn sanctum_staking_instruction_layout() {
    let accounts: Vec<u32> = (0..10).collect();
    assert!(matches!(sanctum_staking::SanctumStakingSwapAccounts::try_from(&accounts[..8]), Err(SwapError::NotEnoughAccountKeys)));
    assert!(matches!(sanctum_staking::SanctumStakingSwapAccounts::try_from(&accounts[..10]), Err(SwapError::NotEnoughAccountKeys)));
    let ctx = sanctum_staking::SanctumStakingSwapAccounts::try_from(&accounts[..9]).unwrap();
    let ix = sanctum_staking::SanctumStaking::instruction(&ctx, A, B, &());
    assert_eq!(layout(&ix), vec![(1, AccountRole::ReadonlySigner), (2, AccountRole::Writable), (3, AccountRole::Writable), (4, AccountRole::Writable), (5, AccountRole::Writable), (6, AccountRole::Readonly), (7, AccountRole::Readonly), (8, AccountRole::Readonly)]);
    assert_eq!(infos(&ix), layout(&ix).iter().map(|x| x.0).collect::<Vec<u32>>());
    assert!(matches!(ix.program, CpiProgram::Id(id) if id == sanctum_staking::SANCTUM_STAKING_PROGRAM_ID));
    assert_eq!(ix.data, cat(&[&sanctum_staking::DEPOSIT_DISCRIMINATOR, &A.to_le_bytes()]));
}

#[test]
fn saros_amm_instruction_layout() {
    let accounts: Vec<u32> = (0..12).collect();
    assert!(matches!(saros_amm::SarosAmmSwapAccounts::try_from(&accounts[..10]), Err(SwapError::NotEnoughAccountKeys)));
    let ctx = saros_amm::SarosAmmSwapAccounts::try_from(&accounts[..11]).unwrap();
    let ix = saros_amm::SarosAmm::instruction(&ctx, A, B, &());
    assert_eq!(layout(&ix), vec![(1, AccountRole::Readonly), (2, AccountRole::Readonly), (3, AccountRole::WritableSigner), (4, AccountRole::Writable), (5, AccountRole::Writable), (6, AccountRole::Writable), (7, AccountRole::Writable), (8, AccountRole::Writable), (9, AccountRole::Writable), (10, AccountRole::Readonly)]);
    assert_eq!(infos(&ix), layout(&ix).iter().map(|x| x.0).collect::<Vec<u32>>());
    assert!(matches!(ix.program, CpiProgram::Id(id) if id == saros_amm::SAROS_AMM_PROGRAM_ID));
    assert_eq!(ix.data, cat(&[&[1], &A.to_le_bytes(), &B.to_le_bytes()]));
}

#[test]
fn scorch_instruction_layout() {
    let accounts: Vec<u32> = (0..19).collect();
    assert!(matches!(scorch::ScorchSwapAccounts::try_from(&accounts[..17]), Err(SwapError::NotEnoughAccountKeys)));
    assert!(matches!(scorch::ScorchSwapAccounts::try_from(&accounts[..19]), Err(SwapError::NotEnoughAccountKeys)));
    let ctx = scorch::ScorchSwapAccounts::try_from(&accounts[..18]).unwrap();
    let ix = scorch::Scorch::instruction(&ctx, A, B, &scorch::ScorchSwapData::try_from(&[4u8; 17]).unwrap());
    assert_eq!(layout(&ix), vec![(1, AccountRole::Writable), (2, AccountRole::WritableSigner), (3, AccountRole::Writable), (4, AccountRole::Writable), (5, AccountRole::Writable), (6, AccountRole::Writable), (7, AccountRole::Readonly), (8, AccountRole::Readonly), (9, AccountRole::Readonly), (10, AccountRole::Readonly), (11, AccountRole::Readonly), (12, AccountRole::Readonly), (13, AccountRole::Readonly), (14, AccountRole::Writable), (15, AccountRole::Writable), (16, AccountRole::Writable), (17, AccountRole::Readonly)]);
    assert_eq!(infos(&ix), layout(&ix).iter().map(|x| x.0).collect::<Vec<u32>>());
    assert!(matches!(ix.program, CpiProgram::Id(id) if id == scorch::SCORCH_PROGRAM_ID));
    assert_eq!(ix.data, cat(&[&[2], &[4u8; 17], &A.to_le_bytes(), &B.to_le_bytes()]));
}

#[test]
fn solv_finance_instruction_layout() {
    let accounts: Vec<u32> = (0..12).collect();
    assert!(matches!(solv_finance::SolvFinanceSwapAccounts::try_from(&accounts[..10]), Err(SwapError::NotEnoughAccountKeys)));
    let ctx = solv_finance::SolvFinanceSwapAccounts::try_from(&accounts[..11]).unwrap();
    let ix = solv_finance::SolvFinance::instruction(&ctx, A, B, &());
    assert_eq!(layout(&ix), vec![(1, AccountRole::WritableSigner), (2, AccountRole::Writable), (3, AccountRole::Writable), (4, AccountRole::Writable), (5, AccountRole::Readonly), (6, AccountRole::Readonly), (7, AccountRole::Writable), (8, AccountRole::Writable), (9, AccountRole::Readonly), (10, AccountRole::Readonly)]);
    assert_eq!(infos(&ix), layout(&ix).iter().map(|x| x.0).collect::<Vec<u32>>());
    assert!(matches!(ix.program, CpiProgram::Id(id) if id == solv_finance::SOLV_FINANCE_PROGRAM_ID));
    assert_eq!(ix.data, cat(&[&[0], &A.to_le_bytes(), &B.to_le_bytes()]));
}

#[test]
fn stabble_stable_instruction_layout() {
    let accounts: Vec<u32> = (0..17).collect();
    assert!(matches!(stabble_stable::StabbleStableSwapAccounts::try_from(&accounts[..15]), Err(SwapError::NotEnoughAccountKeys)));
    let ctx = stabble_stable::StabbleStableSwapAccounts::try_from(&accounts[..16]).unwrap();
    let ix = stabble_stable::StabbleStable::instruction(&ctx, A, B, &());
    assert_eq!(layout(&ix), vec![(1, AccountRole::WritableSigner), (2, AccountRole::Readonly), (3, AccountRole::Readonly), (4, AccountRole::Writable), (5, AccountRole::Writable), (6, AccountRole::Writable), (7, AccountRole::Writable), (8, AccountRole::Writable), (9, AccountRole::Writable), (10, AccountRole::Readonly), (11, AccountRole::Readonly), (12, AccountRole::Readonly), (13, AccountRole::Readonly), (14, AccountRole::Readonly), (15, AccountRole::Readonly)]);
    assert_eq!(infos(&ix), layout(&ix).iter().map(|x| x.0).collect::<Vec<u32>>());
    assert!(matches!(ix.program, CpiProgram::Id(id) if id == stabble_stable::STABBLE_STABLE_PROGRAM_ID));
    assert_eq!(ix.data, cat(&[&stabble_stable::SWAP_V2_DISCRIMINATOR, &[1], &A.to_le_bytes(), &B.to_le_bytes()]));
}

#[test]
fn tessera_v_instruction_layout() {
    let accounts: Vec<u32> = (0..14).collect();
    assert!(matches!(tessera_v::TesseraVSwapAccounts::try_from(&accounts[..12]), Err(SwapError::NotEnoughAccountKeys)));
    assert!(matches!(tessera_v::TesseraVSwapAccounts::try_from(&accounts[..14]), Err(SwapError::NotEnoughAccountKeys)));
    let ctx = tessera_v::TesseraVSwapAccounts::try_from(&accounts[..13]).unwrap();
    let ix = tessera_v::TesseraV::instruction(&ctx, A, B, &tessera_v::TesseraVSwapData::try_from(&[9u8]).unwrap());
    assert_eq!(layout(&ix), vec![(1, AccountRole::Readonly), (2, AccountRole::Writable), (3, AccountRole::WritableSigner), (4, AccountRole::Writable), (5, AccountRole::Writable), (6, AccountRole::Writable), (7, AccountRole::Writable), (8, AccountRole::Readonly), (9, AccountRole::Readonly), (10, AccountRole::Readonly), (11, AccountRole::Readonly), (12, AccountRole::Readonly)]);
    assert_eq!(infos(&ix), layout(&ix).iter().map(|x| x.0).collect::<Vec<u32>>());
    assert!(matches!(ix.program, CpiProgram::Id(id) if id == tessera_v::TESSERA_V_PROGRAM_ID));
    assert_eq!(ix.data, cat(&[&[16, 1], &A.to_le_bytes(), &B.to_le_bytes()]));
}

#[test]
fn unitas_vault_instruction_layout() {
    let accounts: Vec<u32> = (0..19).collect();
    assert!(matches!(unitas_vault::UnitasVaultSwapAccounts::try_from(&accounts[..17]), Err(SwapError::NotEnoughAccountKeys)));
    assert!(matches!(unitas_vault::UnitasVaultSwapAccounts::try_from(&accounts[..19]), Err(SwapError::NotEnoughAccountKeys)));
    let ctx = unitas_vault::UnitasVaultSwapAccounts::try_from(&accounts[..18]).unwrap();
    let ix = unitas_vault::UnitasVault::instruction(&ctx, A, B, &());
    assert_eq!(layout(&ix), vec![(1, AccountRole::WritableSigner), (2, AccountRole::WritableSigner), (3, AccountRole::Writable), (4, AccountRole::Writable), (5, AccountRole::Readonly), (6, AccountRole::Writable), (7, AccountRole::Readonly), (8, AccountRole::Writable), (9, AccountRole::Writable), (10, AccountRole::Readonly), (11, AccountRole::Writable), (12, AccountRole::Writable), (13, AccountRole::Readonly), (14, AccountRole::Readonly), (15, AccountRole::Readonly), (16, AccountRole::Readonly), (17, AccountRole::Readonly)]);
    assert_eq!(infos(&ix), layout(&ix).iter().map(|x| x.0).collect::<Vec<u32>>());
    assert!(matches!(ix.program, CpiProgram::Account(p) if *p == 0));
    assert_eq!(ix.data, cat(&[&unitas_vault::STAKE_USDU_MINT_SUSDU_DISCRIMINATOR, &A.to_le_bytes()]));
}

#[test]
fn xorca_instruction_layout() {
    let accounts: Vec<u32> = (0..10).collect();
    assert!(matches!(xorca::XorcaSwapAccounts::try_from(&accounts[..8]), Err(SwapError::NotEnoughAccountKeys)));
    assert!(matches!(xorca::XorcaSwapAccounts::try_from(&accounts[..10]), Err(SwapError::NotEnoughAccountKeys)));
    let ctx = xorca::XorcaSwapAccounts::try_from(&accounts[..9]).unwrap();
    let ix = xorca::Xorca::instruction(&ctx, A, B, &());
    assert_eq!(layout(&ix), vec![(1, AccountRole::WritableSigner), (2, AccountRole::Writable), (3, AccountRole::Writable), (4, AccountRole::Writable), (5, AccountRole::Writable), (6, AccountRole::Readonly), (7, AccountRole::Readonly), (8, AccountRole::Readonly)]);
    assert_eq!(infos(&ix), layout(&ix).iter().map(|x| x.0).collect::<Vec<u32>>());
    assert!(matches!(ix.program, CpiProgram::Id(id) if id == xorca::XORCA_PROGRAM_ID));
    assert_eq!(ix.data, cat(&[&[0], &A.to_le_bytes()]));
}

#[test]
fn zerofi_instruction_layout() {
    let accounts: Vec<u32> = (0..11).collect();
    assert!(matches!(zerofi::ZerofiSwapAccounts::try_from(&accounts[..9]), Err(SwapError::NotEnoughAccountKeys)));
    assert!(matches!(zerofi::ZerofiSwapAccounts::try_from(&accounts[..11]), Err(SwapError::NotEnoughAccountKeys)));
    let ctx = zerofi::ZerofiSwapAccounts::try_from(&accounts[..10]).unwrap();
    let ix = zerofi::Zerofi::instruction(&ctx, A, B, &());
    assert_eq!(layout(&ix), vec![(1, AccountRole::Writable), (2, AccountRole::Writable), (3, AccountRole::Writable), (4, AccountRole::Writable), (5, AccountRole::Writable), (6, AccountRole::Writable), (7, AccountRole::Writable), (8, AccountRole::Readonly), (9, AccountRole::Readonly)]);
    assert_eq!(infos(&ix), layout(&ix).iter().map(|x| x.0).collect::<Vec<u32>>());
    assert!(matches!(ix.program, CpiProgram::Id(id) if id == zerofi::ZEROFI_PROGRAM_ID));
    assert_eq!(ix.data, cat(&[&[6], &A.to_le_bytes(), &B.to_le_bytes()]));
}

#[test]
fn alphaq_instruction_layout() {
    let accounts: Vec<u32> = (0..14).collect();
    assert!(matches!(alphaq::AlphaqSwapAccounts::try_from(&accounts[..12]), Err(SwapError::NotEnoughAccountKeys)));
    assert!(matches!(alphaq::AlphaqSwapAccounts::try_from(&accounts[..14]), Err(SwapError::NotEnoughAccountKeys)));
    let ctx = alphaq::AlphaqSwapAccounts::try_from(&accounts[..13]).unwrap();
    let ix = alphaq::AlphaQ::instruction(&ctx, A, B, &alphaq::AlphaqSwapData::try_from(&[1u8]).unwrap());
    assert_eq!(layout(&ix), vec![(1, AccountRole::WritableSigner), (2, AccountRole::Writable), (3, AccountRole::Writable), (4, AccountRole::Writable), (5, AccountRole::Writable), (6, AccountRole::Writable), (7, AccountRole::Writable), (8, AccountRole::Writable), (9, AccountRole::Writable), (10, AccountRole::Writable), (11, AccountRole::Readonly), (12, AccountRole::Readonly)]);
    assert_eq!(infos(&ix), layout(&ix).iter().map(|x| x.0).collect::<Vec<u32>>());
    assert!(matches!(ix.program, CpiProgram::Id(id) if id == alphaq::ALPHAQ_PROGRAM_ID));
    assert_eq!(ix.data, cat(&[&[12, 1], &A.to_le_bytes(), &B.to_le_bytes()]));
}

#[test]
fn referral_account_is_read_only_when_it_is_the_program() {
    let account = 5u32;
    let none = meteora_damm_v2::referral_account_meta(&account, &meteora_damm_v2::METEORA_DAMM_V2_PROGRAM_ID);
    assert_eq!(none.role, AccountRole::Readonly);
    let some = meteora_damm_v2::referral_account_meta(&account, &[3u8; 32]);
    assert_eq!(some.role, AccountRole::Writable);
    let none = meteora_dynamic_bonding_curve::referral_account_meta(
        &account,
        &meteora_dynamic_bonding_curve::METEORA_DYNAMIC_BONDING_CURVE_PROGRAM_ID,
    );
    assert_eq!(none.role, AccountRole::Readonly);
    assert_eq!(*none.account, 5);
}
