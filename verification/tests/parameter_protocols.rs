use beethoven_swaps::cpi::{AccountRole, CpiInstruction, CpiProgram, SwapParameters};
use beethoven_swaps::error::SwapError;
use beethoven_swaps::protocols::aldrin::{self, Aldrin, AldrinSwapRemaining, ALDRIN_PROGRAM_ID};
use beethoven_swaps::protocols::aldrin_v2;
use beethoven_swaps::protocols::futarchy::{self, Futarchy};
use beethoven_swaps::protocols::gamma::{Gamma, GammaSwapRemaining};
use beethoven_swaps::protocols::heaven::{Heaven, HeavenSwapExtra, HeavenSwapRemaining, BUY_DISCRIMINATOR, SELL_DISCRIMINATOR};
use beethoven_swaps::protocols::manifest::{Manifest, ManifestSwapExtra};
use beethoven_swaps::protocols::perena::{Perena, PerenaSwapExtra};
use beethoven_swaps::protocols::solfi_v2::SolFiV2;

fn layout(ix: &CpiInstruction<'_, u32>) -> Vec<(u32, AccountRole)> {
    ix.accounts.iter().map(|m| (*m.account, m.role)).collect()
}

fn infos(ix: &CpiInstruction<'_, u32>) -> Vec<u32> {
    ix.account_infos.iter().map(|a| **a).collect()
}

fn cat(parts: &[&[u8]]) -> Vec<u8> {
    parts.concat()
}

const WALLET: u32 = 100;
const IN_ATA: u32 = 101;
const OUT_ATA: u32 = 102;

fn params(a: &[u32]) -> SwapParameters<'_, u32> {
    SwapParameters { user_wallet: &a[0], in_ata: &a[1], out_ata: &a[2] }
}

#[test]
fn sides_encode_as_zero_and_one() {
    assert_eq!(aldrin::Side::Bid.to_byte(), 0);
    assert_eq!(aldrin::Side::Ask.to_byte(), 1);
    assert_eq!(aldrin::Side::for_flag(true), aldrin::Side::Ask);
    assert_eq!(aldrin_v2::Side::for_flag(false), aldrin_v2::Side::Bid);
    assert_eq!(aldrin_v2::Side::Ask.to_byte(), 1);
    assert_eq!(futarchy::SwapType::for_flag(true).to_byte(), 1);
    assert_eq!(futarchy::SwapType::Buy.to_byte(), 0);
}

#[test]
fn aldrin_orders_user_accounts_by_side() {
    let user = [WALLET, IN_ATA, OUT_ATA];
    let p = params(&user);
    let accounts: Vec<u32> = (0..8).collect();
    assert!(matches!(Aldrin::try_parse_remaining(&accounts[..7]), Err(SwapError::NotEnoughAccountKeys)));
    let remaining: AldrinSwapRemaining<'_, u32> = Aldrin::try_parse_remaining(&accounts).unwrap();
    let ix = Aldrin::instruction(&p, &remaining, 10, 9, &(), true);
    assert!(matches!(ix.program, CpiProgram::Id(id) if id == ALDRIN_PROGRAM_ID));
    let l = layout(&ix);
    assert_eq!(l.len(), 10);
    assert_eq!(l[6], (WALLET, AccountRole::ReadonlySigner));
    assert_eq!((l[7].0, l[8].0), (IN_ATA, OUT_ATA));
    assert_eq!(ix.data, cat(&[&aldrin::SWAP_DISCRIMINATOR, &10u64.to_le_bytes(), &9u64.to_le_bytes(), &[1]]));
    let ix = Aldrin::instruction(&p, &remaining, 10, 9, &(), false);
    let l = layout(&ix);
    assert_eq!((l[7].0, l[8].0), (OUT_ATA, IN_ATA));
    assert_eq!(ix.data[24], 0);
    assert_eq!(infos(&ix), l.iter().map(|x| x.0).collect::<Vec<u32>>());
}

#[test]
fn futarchy_puts_the_direction_between_the_amounts() {
    let user = [WALLET, IN_ATA, OUT_ATA];
    let accounts: Vec<u32> = (0..7).collect();
    let remaining = Futarchy::try_parse_remaining(&accounts).unwrap();
    let ix = Futarchy::instruction(&params(&user), &remaining, 10, 9, &(), true);
    assert_eq!(ix.data, cat(&[&futarchy::SWAP_DISCRIMINATOR, &10u64.to_le_bytes(), &[1], &9u64.to_le_bytes()]));
    let l = layout(&ix);
    assert_eq!((l[1].0, l[2].0), (IN_ATA, OUT_ATA));
    assert_eq!(l[5], (WALLET, AccountRole::ReadonlySigner));
    let ix = Futarchy::instruction(&params(&user), &remaining, 10, 9, &(), false);
    assert_eq!(ix.data[16], 0);
}

#[test]
fn gamma_takes_the_in_and_out_accounts_in_place() {
    let user = [WALLET, IN_ATA, OUT_ATA];
    let accounts: Vec<u32> = (0..11).collect();
    assert!(matches!(Gamma::try_parse_remaining(&accounts[..10]), Err(SwapError::NotEnoughAccountKeys)));
    let remaining: GammaSwapRemaining<'_, u32> = Gamma::try_parse_remaining(&accounts).unwrap();
    let ix = Gamma::instruction(&params(&user), &remaining, 10, 9, &());
    let l = layout(&ix);
    assert_eq!(l.len(), 13);
    assert_eq!(l[0], (WALLET, AccountRole::ReadonlySigner));
    assert_eq!(l[4], (IN_ATA, AccountRole::Writable));
    assert_eq!(l[5], (OUT_ATA, AccountRole::Writable));
    assert_eq!(l[12], (10, AccountRole::Writable));
}

#[test]
fn heaven_sends_the_event_after_its_length() {
    let user = [WALLET, IN_ATA, OUT_ATA];
    let accounts: Vec<u32> = (0..14).collect();
    let remaining: HeavenSwapRemaining<'_, u32> = Heaven::try_parse_remaining(&accounts).unwrap();
    let event = [5u8, 6, 7];
    let extra = HeavenSwapExtra::try_from(&event).unwrap();
    let ix = Heaven::instruction(&params(&user), &remaining, 10, 9, &extra, true).unwrap();
    assert_eq!(ix.data, cat(&[&SELL_DISCRIMINATOR, &10u64.to_le_bytes(), &9u64.to_le_bytes(), &3u32.to_le_bytes(), &event]));
    let l = layout(&ix);
    assert_eq!(l.len(), 16);
    assert_eq!((l[8].0, l[9].0), (IN_ATA, OUT_ATA));
    let empty = HeavenSwapExtra::try_from(&[]).unwrap();
    let ix = Heaven::instruction(&params(&user), &remaining, 10, 9, &empty, false).unwrap();
    assert_eq!(ix.data, cat(&[&BUY_DISCRIMINATOR, &10u64.to_le_bytes(), &9u64.to_le_bytes(), &0u32.to_le_bytes()]));
    assert_eq!((layout(&ix)[8].0, layout(&ix)[9].0), (OUT_ATA, IN_ATA));
    let long = [0u8; 257];
    let extra = HeavenSwapExtra::try_from(&long).unwrap();
    assert_eq!(Heaven::instruction(&params(&user), &remaining, 10, 9, &extra, true).err(), Some(SwapError::InvalidInstructionData));
    let longest = [0u8; 256];
    let extra = HeavenSwapExtra::try_from(&longest).unwrap();
    assert_eq!(Heaven::instruction(&params(&user), &remaining, 10, 9, &extra, true).unwrap().data.len(), 28 + 256);
}

#[test]
fn manifest_sends_both_flags() {
    assert_eq!(ManifestSwapExtra::try_from(&[]).unwrap_err(), SwapError::InvalidInstructionData);
    let extra = ManifestSwapExtra::try_from(&[2u8]).unwrap();
    assert!(extra.is_exact_in);
    let user = [WALLET, IN_ATA, OUT_ATA];
    let accounts: Vec<u32> = (0..12).collect();
    let remaining = Manifest::try_parse_remaining(&accounts).unwrap();
    let ix = Manifest::instruction(&params(&user), &remaining, 10, 9, &extra, false);
    assert_eq!(ix.data, cat(&[&[13], &10u64.to_le_bytes(), &9u64.to_le_bytes(), &[0, 1]]));
    let l = layout(&ix);
    assert_eq!(l[0], (WALLET, AccountRole::WritableSigner));
    assert_eq!(l[1], (1, AccountRole::ReadonlySigner));
    assert_eq!((l[4].0, l[5].0), (OUT_ATA, IN_ATA));
}

#[test]
fn perena_sends_the_pool_indices_first() {
    assert_eq!(PerenaSwapExtra::try_from(&[1u8]).unwrap_err(), SwapError::InvalidInstructionData);
    let extra = PerenaSwapExtra::try_from(&[2u8, 0, 9]).unwrap();
    assert_eq!((extra.in_index, extra.out_index), (2, 0));
    let user = [WALLET, IN_ATA, OUT_ATA];
    let accounts: Vec<u32> = (0..9).collect();
    let remaining = Perena::try_parse_remaining(&accounts).unwrap();
    let ix = Perena::instruction(&params(&user), &remaining, 10, 9, &extra);
    assert_eq!(ix.data, cat(&[&[104, 104, 131, 86, 161, 189, 180, 216], &[2, 0], &10u64.to_le_bytes(), &9u64.to_le_bytes()]));
    assert_eq!(layout(&ix)[8], (WALLET, AccountRole::WritableSigner));
}

#[test]
fn solfi_v2_flags_quote_to_base_swaps() {
    let user = [WALLET, IN_ATA, OUT_ATA];
    let accounts: Vec<u32> = (0..11).collect();
    let remaining = SolFiV2::try_parse_remaining(&accounts).unwrap();
    let ix = SolFiV2::instruction(&params(&user), &remaining, 10, 9, &(), true);
    assert_eq!(ix.data, cat(&[&[7], &10u64.to_le_bytes(), &9u64.to_le_bytes(), &[0]]));
    assert_eq!((layout(&ix)[6].0, layout(&ix)[7].0), (IN_ATA, OUT_ATA));
    let ix = SolFiV2::instruction(&params(&user), &remaining, 10, 9, &(), false);
    assert_eq!(ix.data[17], 1);
    assert_eq!((layout(&ix)[6].0, layout(&ix)[7].0), (OUT_ATA, IN_ATA));
}
