use beethoven_swaps::error::SwapError;
use beethoven_swaps::runtime::same_mint_of;
use beethoven_swaps::router::{
    check_single_leg_exhausted, parse_program_instruction, parse_swap_leg, parse_swap_leg_header, split_data_checked,
    token_account_amount_of, DepositInstructionData, ProgramInstruction, RouteInstructionData,
    RouteLeg, RouteState, SwapInstructionData, SwapLegHeader, SwapWithParametersInstructionData,
};

fn amounts(a: u64, b: u64) -> Vec<u8> {
    let mut v = a.to_le_bytes().to_vec();
    v.extend_from_slice(&b.to_le_bytes());
    v
}

#[test]
fn program_instruction_is_named_by_its_first_byte() {
    let (kind, rest) = parse_program_instruction(&[0u8, 5, 6]).unwrap();
    assert_eq!(kind, ProgramInstruction::Deposit);
    assert_eq!(rest, &[5, 6]);
    let (kind, rest) = parse_program_instruction(&[1u8]).unwrap();
    assert_eq!(kind, ProgramInstruction::Swap);
    assert!(rest.is_empty());
    assert_eq!(parse_program_instruction(&[]).unwrap_err(), SwapError::InvalidInstructionData);
    assert_eq!(parse_program_instruction(&[2u8]).unwrap_err(), SwapError::InvalidInstructionData);
}

#[test]
fn deposit_data_is_an_amount() {
    assert_eq!(DepositInstructionData::try_from(&77u64.to_le_bytes()).unwrap(), DepositInstructionData { amount: 77 });
    assert_eq!(DepositInstructionData::try_from(&[1u8; 7]).unwrap_err(), SwapError::InvalidInstructionData);
}

#[test]
fn swap_data_splits_off_the_leg() {
    let mut raw = amounts(10, 9);
    raw.extend_from_slice(&[4, 0, 2, 0, 7, 8]);
    let d = SwapInstructionData::try_from(&raw).unwrap();
    assert_eq!((d.in_amount, d.minimum_out_amount), (10, 9));
    assert_eq!(d.extra_data, &[4, 0, 2, 0, 7, 8]);
    assert!(SwapInstructionData::try_from(&raw[..15]).is_err());
    let p = SwapWithParametersInstructionData::try_from(&raw).unwrap();
    assert_eq!((p.in_amount, p.minimum_out_amount, p.extra_data.len()), (10, 9, 6));
    assert!(SwapWithParametersInstructionData::try_from(&raw[..15]).is_err());
}

#[test]
fn route_data_counts_its_legs() {
    let mut raw = amounts(1_000, 950);
    raw.push(3);
    raw.extend_from_slice(&[9, 9]);
    let r = RouteInstructionData::try_from(&raw).unwrap();
    assert_eq!((r.initial_in_amount, r.minimum_final_out_amount, r.num_legs), (1_000, 950, 3));
    assert_eq!(r.extra_data, &[9, 9]);
    assert!(RouteInstructionData::try_from(&raw[..16]).is_err());
}

#[test]
fn leg_header_and_extra_data_are_split_exactly() {
    assert_eq!(split_data_checked(&[1u8, 2, 3], 3).unwrap(), (&[1u8, 2, 3][..], &[][..]));
    assert_eq!(split_data_checked(&[1u8, 2, 3], 4).unwrap_err(), SwapError::InvalidInstructionData);
    let leg = [12u8, 3, 2, 1, 5, 6, 7];
    let (header, rest) = parse_swap_leg_header(&leg).unwrap();
    assert_eq!(header, SwapLegHeader { protocol_tag: 12, remaining_accounts_len: 3, extra_data_len: 258 });
    assert_eq!(rest, &[5, 6, 7]);
    assert!(parse_swap_leg_header(&leg[..3]).is_err());
    assert!(parse_swap_leg(&leg).is_err());
    let leg = [12u8, 0, 2, 0, 5, 6, 7];
    let (header, extra, rest) = parse_swap_leg(&leg).unwrap();
    assert_eq!(header.extra_data_len, 2);
    assert_eq!(extra, &[5, 6]);
    assert_eq!(rest, &[7]);
}

#[test]
fn token_account_amount_is_at_offset_sixty_four() {
    let mut data = vec![0u8; 64];
    data.extend_from_slice(&123u64.to_le_bytes());
    assert_eq!(token_account_amount_of(&data), Ok(123));
    assert_eq!(token_account_amount_of(&data[..71]), Err(SwapError::InvalidAccountData));
}

#[test]
fn route_carries_each_output_into_the_next_leg() {
    let mut raw = amounts(1_000, 950);
    raw.push(2);
    let data = RouteInstructionData::try_from(&raw).unwrap();
    let mut state = RouteState::start(&data).unwrap();
    let a = [1u8; 32];
    let b = [2u8; 32];
    let c = [3u8; 32];
    assert!(!state.is_done());
    assert_eq!(state.begin_leg(&a).unwrap(), RouteLeg { in_amount: 1_000, minimum_out_amount: 0 });
    assert_eq!(state.finish_leg(b, 500, 400), Err(SwapError::InvalidAccountData));
    assert_eq!(state.leg_index, 0);
    assert_eq!(state.finish_leg(b, 400, 1_380), Ok(()));
    assert_eq!(state.begin_leg(&c).unwrap_err(), SwapError::InvalidAccountData);
    assert_eq!(state.begin_leg(&b).unwrap(), RouteLeg { in_amount: 980, minimum_out_amount: 950 });
    assert_eq!(state.finish_leg(c, 0, 960), Ok(()));
    assert!(state.is_done());
    assert_eq!(state.carried_in_amount, 960);
}

#[test]
fn route_of_no_legs_is_refused() {
    let mut raw = amounts(1, 1);
    raw.push(0);
    let data = RouteInstructionData::try_from(&raw).unwrap();
    assert_eq!(RouteState::start(&data).err(), Some(SwapError::InvalidInstructionData));
}


#[test]
fn swap_instruction_carries_exactly_one_leg() {
    let (header, extra, rest) = parse_swap_leg(&[3u8, 0, 2, 0, 8, 9]).unwrap();
    assert_eq!(header.protocol_tag, 3);
    assert_eq!(extra, &[8, 9]);
    let no_accounts: [u32; 0] = [];
    assert_eq!(check_single_leg_exhausted(&no_accounts, rest), Ok(()));
    let (_, _, rest) = parse_swap_leg(&[3u8, 0, 2, 0, 8, 9, 10]).unwrap();
    assert_eq!(check_single_leg_exhausted(&no_accounts, rest), Err(SwapError::InvalidInstructionData));
    assert_eq!(check_single_leg_exhausted(&[7u32], &[]), Err(SwapError::InvalidInstructionData));
    assert_eq!(check_single_leg_exhausted(&[7u32], &[1u8]), Err(SwapError::InvalidInstructionData));
    assert_eq!(parse_swap_leg(&[3u8, 0, 2, 0, 8]).unwrap_err(), SwapError::InvalidInstructionData);
}

#[test]
fn token_account_mint_is_its_first_thirty_two_bytes() {
    let mut data: Vec<u8> = (0..31).collect();
    assert_eq!(beethoven_swaps::runtime::token_account_mint_of(&data), None);
    data.push(31);
    data.extend_from_slice(&[7u8; 40]);
    let expected: Vec<u8> = (0..32).collect();
    assert_eq!(beethoven_swaps::runtime::token_account_mint_of(&data).unwrap().to_vec(), expected);
}

#[test]
fn same_mint_compares_the_first_thirty_two_bytes() {
    let mut a = vec![5u8; 32];
    a.extend_from_slice(&[1u8; 40]);
    let mut b = vec![5u8; 32];
    b.extend_from_slice(&[2u8; 10]);
    assert_eq!(same_mint_of(&a, &b), Ok(true));
    let mut c = b.clone();
    c[31] = 6;
    assert_eq!(same_mint_of(&a, &c), Ok(false));
    assert_eq!(same_mint_of(&a, &b[..31]), Err(SwapError::InvalidAccountData));
    assert_eq!(same_mint_of(&a[..0], &b), Err(SwapError::InvalidAccountData));
}
