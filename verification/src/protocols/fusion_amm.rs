use vstd::prelude::*;
use vstd::bytes::{
    spec_u128_from_le_bytes, spec_u128_to_le_bytes, spec_u32_from_le_bytes, spec_u32_to_le_bytes,
    spec_u64_to_le_bytes, u128_from_le_bytes, u32_from_le_bytes,
};
use solana_account_view::AccountView;
use solana_instruction_view::cpi::Signer;
use crate::bytes::{push_bytes, push_u128_le, push_u32_le, push_u64_le};
use crate::cpi::{
    CpiAccount, CpiInstruction, CpiProgram, infos_of, instruction, readonly, readonly_meta,
    readonly_signer, readonly_signer_meta, writable, writable_meta,
};
use crate::error::SwapError;
use crate::runtime::{invoke, invoked_with};

verus! {

pub const FUSION_AMM_PROGRAM_ID: [u8; 32] = [9, 219, 25, 229, 225, 255, 177, 235, 166, 15, 207, 253, 175, 170, 49, 70, 100, 161, 47, 108, 172, 138, 241, 84, 133, 181, 221, 217, 43, 111, 58, 230];

pub const SWAP_DISCRIMINATOR: [u8; 8] = [248, 198, 158, 145, 225, 117, 135, 200];

/// Discriminator, two amounts, price limit, two flags and the option tag.
pub const SWAP_PREFIX_LEN: usize = 43;
pub const VEC_HEADER_LEN: usize = 4;
pub const MAX_IX_DATA_LEN: usize = 512;

/// The kind of accounts a slice of the remaining accounts holds.
#[derive(Clone, Copy, Debug, PartialEq, Eq, Structural)]
pub enum AccountsType {
    TransferHookA,
    TransferHookB,
    TransferHookInput,
    TransferHookIntermediate,
    TransferHookOutput,
    SupplementalTickArrays,
    SupplementalTickArraysOne,
    SupplementalTickArraysTwo,
}

/// The byte of an accounts type: its place in the list, from zero.
pub open spec fn accounts_type_byte(t: AccountsType) -> u8 {
    match t {
        AccountsType::TransferHookA => 0u8,
        AccountsType::TransferHookB => 1u8,
        AccountsType::TransferHookInput => 2u8,
        AccountsType::TransferHookIntermediate => 3u8,
        AccountsType::TransferHookOutput => 4u8,
        AccountsType::SupplementalTickArrays => 5u8,
        AccountsType::SupplementalTickArraysOne => 6u8,
        AccountsType::SupplementalTickArraysTwo => 7u8,
    }
}

/// The accounts type whose byte is `b`, if there is one.
pub open spec fn accounts_type_of_byte(b: u8) -> Option<AccountsType> {
    if b == 0 {
        Some(AccountsType::TransferHookA)
    } else if b == 1 {
        Some(AccountsType::TransferHookB)
    } else if b == 2 {
        Some(AccountsType::TransferHookInput)
    } else if b == 3 {
        Some(AccountsType::TransferHookIntermediate)
    } else if b == 4 {
        Some(AccountsType::TransferHookOutput)
    } else if b == 5 {
        Some(AccountsType::SupplementalTickArrays)
    } else if b == 6 {
        Some(AccountsType::SupplementalTickArraysOne)
    } else if b == 7 {
        Some(AccountsType::SupplementalTickArraysTwo)
    } else {
        None
    }
}

impl AccountsType {
    /// The byte of `self`.
    pub fn to_byte(self) -> (r: u8)
        ensures
            r == accounts_type_byte(self),
    {
        match self {
            AccountsType::TransferHookA => 0,
            AccountsType::TransferHookB => 1,
            AccountsType::TransferHookInput => 2,
            AccountsType::TransferHookIntermediate => 3,
            AccountsType::TransferHookOutput => 4,
            AccountsType::SupplementalTickArrays => 5,
            AccountsType::SupplementalTickArraysOne => 6,
            AccountsType::SupplementalTickArraysTwo => 7,
        }
    }

    /// The accounts type whose byte is `b`; `None` above seven.
    pub fn from_byte(b: u8) -> (r: Option<Self>)
        ensures
            r == accounts_type_of_byte(b),
    {
        if b == 0 {
            Some(AccountsType::TransferHookA)
        } else if b == 1 {
            Some(AccountsType::TransferHookB)
        } else if b == 2 {
            Some(AccountsType::TransferHookInput)
        } else if b == 3 {
            Some(AccountsType::TransferHookIntermediate)
        } else if b == 4 {
            Some(AccountsType::TransferHookOutput)
        } else if b == 5 {
            Some(AccountsType::SupplementalTickArrays)
        } else if b == 6 {
            Some(AccountsType::SupplementalTickArraysOne)
        } else if b == 7 {
            Some(AccountsType::SupplementalTickArraysTwo)
        } else {
            None
        }
    }
}

/// An accounts type and how many of the remaining accounts it covers.
#[derive(Clone, Copy, Debug, PartialEq, Eq, Structural)]
pub struct RemainingAccountsSlice {
    pub accounts_type: AccountsType,
    pub length: u8,
}

impl RemainingAccountsSlice {
    pub const DATA_LEN: usize = 2;
}

pub struct RemainingAccountsInfo {
    pub slices: Vec<RemainingAccountsSlice>,
}

pub struct FusionAmmSwapData {
    pub sqrt_price_limit: u128,
    pub amount_specified_is_input: bool,
    pub a_to_b: bool,
    pub remaining_accounts_info: Option<RemainingAccountsInfo>,
}

/// The value of swap data: price limit, the two flags, and the slices where
/// there is remaining-accounts info.
pub type FusionAmmSwapModel = (u128, bool, bool, Option<Seq<RemainingAccountsSlice>>);

pub open spec fn fusion_amm_swap_model(d: FusionAmmSwapData) -> FusionAmmSwapModel {
    (d.sqrt_price_limit, d.amount_specified_is_input, d.a_to_b, match d.remaining_accounts_info {
        Some(info) => Some(info.slices@),
        None => None,
    })
}

/// The number of slices that the vector header at byte nineteen announces.
pub open spec fn fusion_slice_count(data: Seq<u8>) -> int {
    spec_u32_from_le_bytes(data.subrange(19, 23)) as int
}

/// The length of the swap data at the start of `data`: nineteen bytes where
/// the option tag (byte eighteen) is zero, else those, the four-byte vector
/// header and two bytes per slice; none where `data` is shorter.
pub open spec fn fusion_encoded_len(data: Seq<u8>) -> Option<int> {
    if data.len() < 19 {
        None
    } else if data[18] == 0 {
        Some(19)
    } else if data.len() < 23 {
        None
    } else if data.len() < 23 + 2 * fusion_slice_count(data) {
        None
    } else {
        Some(23 + 2 * fusion_slice_count(data))
    }
}

/// The slice encoded at the `i`-th pair of bytes after the vector header.
pub open spec fn fusion_slice_at(data: Seq<u8>, i: int) -> Option<RemainingAccountsSlice> {
    match accounts_type_of_byte(data[23 + 2 * i]) {
        Some(t) => Some(RemainingAccountsSlice { accounts_type: t, length: data[23 + 2 * i + 1] }),
        None => None,
    }
}

/// The swap data that `data` encodes, exactly: price limit (sixteen bytes,
/// little-endian), exact-in flag and direction flag (each set where the byte
/// is one), then an option tag and, where it is set, the slices.
pub open spec fn fusion_amm_swap_data_of(data: Seq<u8>) -> Option<FusionAmmSwapModel> {
    match fusion_encoded_len(data) {
        None => None,
        Some(total) => if data.len() != total {
            None
        } else if data[18] != 0 && exists|i: int| 0 <= i < fusion_slice_count(data) && #[trigger] fusion_slice_at(data, i) is None {
            None
        } else {
            Some((
                spec_u128_from_le_bytes(data.subrange(0, 16)),
                data[16] == 1,
                data[17] == 1,
                if data[18] == 0 {
                    None
                } else {
                    Some(Seq::new(fusion_slice_count(data) as nat, |i: int| fusion_slice_at(data, i)->0))
                },
            ))
        },
    }
}

/// The two bytes of the `i`-th slice after the vector header: its type's
/// byte and its length.
pub open spec fn fusion_slice_bytes_at(data: Seq<u8>, i: int) -> (u8, u8) {
    (data[23 + 2 * i], data[23 + 2 * i + 1])
}

/// Which bytes encode swap data, and what they encode, read field by field.
/// They do exactly where their length is what the option tag and the vector
/// header ask for and, where the tag is set, every slice's type byte names a
/// type (is at most seven). The price limit is then the first sixteen bytes,
/// little-endian; each flag is set where its byte is one; there is
/// remaining-accounts info where the tag is not zero, with as many slices as
/// the header says, each made of its two bytes.
pub proof fn lemma_fusion_amm_swap_data_of_reads_bytes(data: Seq<u8>)
    ensures
        fusion_amm_swap_data_of(data) is Some <==> (fusion_encoded_len(data) == Some(data.len() as int)
            && (data[18] == 0 || forall|i: int| 0 <= i < fusion_slice_count(data) ==> (#[trigger] fusion_slice_bytes_at(data, i)).0 <= 7)),
        fusion_amm_swap_data_of(data) matches Some(m) ==> {
            &&& m.0 == spec_u128_from_le_bytes(data.subrange(0, 16))
            &&& m.1 == (data[16] == 1)
            &&& m.2 == (data[17] == 1)
            &&& (m.3 is None <==> data[18] == 0)
            &&& (m.3 matches Some(slices) ==> {
                &&& slices.len() == fusion_slice_count(data)
                &&& forall|i: int| 0 <= i < slices.len() ==> {
                    &&& accounts_type_byte(#[trigger] slices[i].accounts_type) == fusion_slice_bytes_at(data, i).0
                    &&& slices[i].length == fusion_slice_bytes_at(data, i).1
                }
            })
        },
{
    assert forall|i: int| #![trigger fusion_slice_at(data, i)] #![trigger fusion_slice_bytes_at(data, i)]
        (fusion_slice_at(data, i) is Some <==> fusion_slice_bytes_at(data, i).0 <= 7) by {}
    if fusion_encoded_len(data) == Some(data.len() as int) && data[18] != 0 {
        let n = fusion_slice_count(data);
        if forall|i: int| 0 <= i < n ==> (#[trigger] fusion_slice_bytes_at(data, i)).0 <= 7 {
            assert forall|i: int| 0 <= i < n implies !(#[trigger] fusion_slice_at(data, i) is None) by {
                assert(fusion_slice_bytes_at(data, i).0 <= 7);
            }
            let slices = Seq::new(n as nat, |i: int| fusion_slice_at(data, i)->0);
            assert forall|i: int| 0 <= i < slices.len() implies {
                &&& accounts_type_byte(#[trigger] slices[i].accounts_type) == fusion_slice_bytes_at(data, i).0
                &&& slices[i].length == fusion_slice_bytes_at(data, i).1
            } by {
                assert(fusion_slice_at(data, i) is Some);
                lemma_accounts_type_of_byte_round_trip(data[23 + 2 * i]);
            }
        } else {
            let j = choose|i: int| 0 <= i < n && !((#[trigger] fusion_slice_bytes_at(data, i)).0 <= 7);
            assert(fusion_slice_at(data, j) is None);
        }
    }
}

impl FusionAmmSwapData {
    pub const DATA_LEN: usize = 19;

    /// The length of the swap data at the start of `data`.
    pub fn encoded_len(data: &[u8]) -> (r: Result<usize, SwapError>)
        ensures
            match fusion_encoded_len(data@) {
                Some(t) => r == Ok::<usize, SwapError>(t as usize),
                None => r == Err::<usize, SwapError>(SwapError::InvalidInstructionData),
            },
    {
        if data.len() < Self::DATA_LEN {
            return Err(SwapError::InvalidInstructionData);
        }
        if data[Self::DATA_LEN - 1] == 0 {
            return Ok(Self::DATA_LEN);
        }
        if data.len() < Self::DATA_LEN + VEC_HEADER_LEN {
            return Err(SwapError::InvalidInstructionData);
        }
        let n = u32_from_le_bytes(&data[19..23]) as usize;
        let slice_bytes = match n.checked_mul(RemainingAccountsSlice::DATA_LEN) {
            Some(b) => b,
            None => return Err(SwapError::InvalidInstructionData),
        };
        let total = match (Self::DATA_LEN + VEC_HEADER_LEN).checked_add(slice_bytes) {
            Some(t) => t,
            None => return Err(SwapError::InvalidInstructionData),
        };
        if data.len() < total {
            return Err(SwapError::InvalidInstructionData);
        }
        Ok(total)
    }

    /// The swap data that `data` encodes, which must be all of it.
    pub fn try_from(data: &[u8]) -> (r: Result<Self, SwapError>)
        ensures
            match fusion_amm_swap_data_of(data@) {
                Some(m) => r matches Ok(d) && fusion_amm_swap_model(d) == m,
                None => r matches Err(e) && e == SwapError::InvalidInstructionData,
            },
            r is Ok <==> (fusion_encoded_len(data@) == Some(data@.len() as int)
                && (data@[18] == 0 || forall|i: int| 0 <= i < fusion_slice_count(data@) ==> (#[trigger] fusion_slice_bytes_at(data@, i)).0 <= 7)),
            r matches Ok(d) ==> {
                &&& d.sqrt_price_limit == spec_u128_from_le_bytes(data@.subrange(0, 16))
                &&& d.amount_specified_is_input == (data@[16] == 1)
                &&& d.a_to_b == (data@[17] == 1)
                &&& (d.remaining_accounts_info is None <==> data@[18] == 0)
                &&& (d.remaining_accounts_info matches Some(info) ==> {
                    &&& info.slices@.len() == fusion_slice_count(data@)
                    &&& forall|i: int| 0 <= i < info.slices@.len() ==> {
                        &&& accounts_type_byte(#[trigger] info.slices@[i].accounts_type) == fusion_slice_bytes_at(data@, i).0
                        &&& info.slices@[i].length == fusion_slice_bytes_at(data@, i).1
                    }
                })
            },
    {
        proof {
            lemma_fusion_amm_swap_data_of_reads_bytes(data@);
        }
        let total = Self::encoded_len(data)?;
        if data.len() != total {
            return Err(SwapError::InvalidInstructionData);
        }
        let remaining_accounts_info = if data[Self::DATA_LEN - 1] == 0 {
            None
        } else {
            let n = u32_from_le_bytes(&data[19..23]) as usize;
            let mut slices: Vec<RemainingAccountsSlice> = Vec::new();
            let mut i: usize = 0;
            while i < n
                invariant
                    n == fusion_slice_count(data@),
                    data@.len() == 23 + 2 * n,
                    23 + 2 * n <= usize::MAX,
                    i <= n,
                    slices@.len() == i,
                    forall|j: int| 0 <= j < i ==> ((#[trigger] fusion_slice_at(data@, j)) matches Some(s) && slices@[j] == s),
                decreases n - i,
            {
                let tag = data[23 + 2 * i];
                match AccountsType::from_byte(tag) {
                    Some(t) => slices.push(RemainingAccountsSlice { accounts_type: t, length: data[23 + 2 * i + 1] }),
                    None => {
                        assert(fusion_slice_at(data@, i as int) is None);
                        proof {
                            lemma_fusion_amm_swap_data_of_reads_bytes(data@);
                        }
                        return Err(SwapError::InvalidInstructionData);
                    },
                }
                i = i + 1;
            }
            assert(slices@ =~= Seq::new(n as nat, |j: int| fusion_slice_at(data@, j)->0));
            Some(RemainingAccountsInfo { slices })
        };
        let sqrt_price_limit = u128_from_le_bytes(&data[0..16]);
        Ok(FusionAmmSwapData {
            sqrt_price_limit,
            amount_specified_is_input: data[16] == 1,
            a_to_b: data[17] == 1,
            remaining_accounts_info,
        })
    }
}

pub struct FusionAmm;

pub struct FusionAmmSwapAccounts<'info, A> {
    pub fusion_amm_program: &'info A,
    pub token_program_a: &'info A,
    pub token_program_b: &'info A,
    pub memo_program: &'info A,
    pub token_authority: &'info A,
    pub fusion_pool: &'info A,
    pub token_mint_a: &'info A,
    pub token_mint_b: &'info A,
    pub token_owner_account_a: &'info A,
    pub token_owner_account_b: &'info A,
    pub token_vault_a: &'info A,
    pub token_vault_b: &'info A,
    pub tick_array_0: &'info A,
    pub tick_array_1: &'info A,
    pub tick_array_2: &'info A,
    pub remaining_accounts: &'info [A],
}

/// `c` holds the accounts of `s`: fifteen in the order of its fields, then
/// the remaining ones.
pub open spec fn fusion_amm_accounts_laid_out<'info, A>(c: FusionAmmSwapAccounts<'info, A>, s: Seq<A>) -> bool {
    &&& *c.fusion_amm_program == s[0]
    &&& *c.token_program_a == s[1]
    &&& *c.token_program_b == s[2]
    &&& *c.memo_program == s[3]
    &&& *c.token_authority == s[4]
    &&& *c.fusion_pool == s[5]
    &&& *c.token_mint_a == s[6]
    &&& *c.token_mint_b == s[7]
    &&& *c.token_owner_account_a == s[8]
    &&& *c.token_owner_account_b == s[9]
    &&& *c.token_vault_a == s[10]
    &&& *c.token_vault_b == s[11]
    &&& *c.tick_array_0 == s[12]
    &&& *c.tick_array_1 == s[13]
    &&& *c.tick_array_2 == s[14]
    &&& c.remaining_accounts@ == s.subrange(15, s.len() as int)
}

impl<'info, A> FusionAmmSwapAccounts<'info, A> {
    /// The program, then the fourteen accounts of a Fusion swap.
    pub const NUM_ACCOUNTS: usize = 15;

    pub fn try_from(accounts: &'info [A]) -> (r: Result<Self, SwapError>)
        ensures
            accounts@.len() < Self::NUM_ACCOUNTS ==> r == Err::<Self, SwapError>(SwapError::NotEnoughAccountKeys),
            accounts@.len() >= Self::NUM_ACCOUNTS ==> (r matches Ok(c) && fusion_amm_accounts_laid_out(c, accounts@)),
    {
        if accounts.len() < Self::NUM_ACCOUNTS {
            return Err(SwapError::NotEnoughAccountKeys);
        }
        Ok(FusionAmmSwapAccounts {
            fusion_amm_program: &accounts[0],
            token_program_a: &accounts[1],
            token_program_b: &accounts[2],
            memo_program: &accounts[3],
            token_authority: &accounts[4],
            fusion_pool: &accounts[5],
            token_mint_a: &accounts[6],
            token_mint_b: &accounts[7],
            token_owner_account_a: &accounts[8],
            token_owner_account_b: &accounts[9],
            token_vault_a: &accounts[10],
            token_vault_b: &accounts[11],
            tick_array_0: &accounts[12],
            tick_array_1: &accounts[13],
            tick_array_2: &accounts[14],
            remaining_accounts: &accounts[15..accounts.len()],
        })
    }
}

/// The fourteen accounts of the swap; the remaining accounts are not passed on.
pub open spec fn fusion_amm_metas<'info, A>(ctx: FusionAmmSwapAccounts<'info, A>) -> Seq<CpiAccount<'info, A>> {
    seq![
        readonly_meta(ctx.token_program_a),
        readonly_meta(ctx.token_program_b),
        readonly_meta(ctx.memo_program),
        readonly_signer_meta(ctx.token_authority),
        writable_meta(ctx.fusion_pool),
        readonly_meta(ctx.token_mint_a),
        readonly_meta(ctx.token_mint_b),
        writable_meta(ctx.token_owner_account_a),
        writable_meta(ctx.token_owner_account_b),
        writable_meta(ctx.token_vault_a),
        writable_meta(ctx.token_vault_b),
        writable_meta(ctx.tick_array_0),
        writable_meta(ctx.tick_array_1),
        writable_meta(ctx.tick_array_2),
    ]
}

/// The two bytes of each slice, in order: its type's byte and its length.
pub open spec fn fusion_slices_bytes(slices: Seq<RemainingAccountsSlice>) -> Seq<u8> {
    Seq::new(2 * slices.len(), |k: int| if k % 2 == 0 { accounts_type_byte(slices[k / 2].accounts_type) } else { slices[k / 2].length })
}

/// The length of the instruction data.
pub open spec fn fusion_amm_data_len(m: FusionAmmSwapModel) -> int {
    match m.3 {
        Some(slices) => SWAP_PREFIX_LEN + VEC_HEADER_LEN + 2 * slices.len(),
        None => SWAP_PREFIX_LEN as int,
    }
}

/// Discriminator, the two amounts, the price limit, the two flags and the
/// option tag, then, where there is remaining-accounts info, the number of
/// slices (four bytes) and the slices; all little-endian.
pub open spec fn fusion_amm_data(in_amount: u64, minimum_out_amount: u64, m: FusionAmmSwapModel) -> Seq<u8> {
    SWAP_DISCRIMINATOR@ + spec_u64_to_le_bytes(in_amount) + spec_u64_to_le_bytes(minimum_out_amount)
        + spec_u128_to_le_bytes(m.0)
        + seq![if m.1 { 1u8 } else { 0u8 }, if m.2 { 1u8 } else { 0u8 }, if m.3 is Some { 1u8 } else { 0u8 }]
        + match m.3 {
            Some(slices) => spec_u32_to_le_bytes(slices.len() as u32) + fusion_slices_bytes(slices),
            None => Seq::empty(),
        }
}

impl FusionAmm {
    /// The Fusion AMM swap instruction; refused where the data would be longer
    /// than `MAX_IX_DATA_LEN`.
    pub fn instruction<'info, A>(ctx: &FusionAmmSwapAccounts<'info, A>, in_amount: u64, minimum_out_amount: u64, data: &FusionAmmSwapData) -> (r: Result<CpiInstruction<'info, A>, SwapError>)
        ensures
            fusion_amm_data_len(fusion_amm_swap_model(*data)) > MAX_IX_DATA_LEN ==> r == Err::<CpiInstruction<'info, A>, SwapError>(SwapError::InvalidInstructionData),
            fusion_amm_data_len(fusion_amm_swap_model(*data)) <= MAX_IX_DATA_LEN ==> (r matches Ok(ix) && {
                &&& ix.program == CpiProgram::<'info, A>::Id(FUSION_AMM_PROGRAM_ID)
                &&& ix.accounts@ == fusion_amm_metas(*ctx)
                &&& ix.account_infos@ == infos_of(ix.accounts@)
                &&& ix.data@ == fusion_amm_data(in_amount, minimum_out_amount, fusion_amm_swap_model(*data))
            }),
    {
        let ghost m = fusion_amm_swap_model(*data);
        match &data.remaining_accounts_info {
            Some(info) => {
                if info.slices.len() > (MAX_IX_DATA_LEN - SWAP_PREFIX_LEN - VEC_HEADER_LEN) / RemainingAccountsSlice::DATA_LEN {
                    return Err(SwapError::InvalidInstructionData);
                }
            },
            None => {},
        }
        let mut accounts: Vec<CpiAccount<'info, A>> = Vec::new();
        accounts.push(readonly(ctx.token_program_a));
        accounts.push(readonly(ctx.token_program_b));
        accounts.push(readonly(ctx.memo_program));
        accounts.push(readonly_signer(ctx.token_authority));
        accounts.push(writable(ctx.fusion_pool));
        accounts.push(readonly(ctx.token_mint_a));
        accounts.push(readonly(ctx.token_mint_b));
        accounts.push(writable(ctx.token_owner_account_a));
        accounts.push(writable(ctx.token_owner_account_b));
        accounts.push(writable(ctx.token_vault_a));
        accounts.push(writable(ctx.token_vault_b));
        accounts.push(writable(ctx.tick_array_0));
        accounts.push(writable(ctx.tick_array_1));
        accounts.push(writable(ctx.tick_array_2));
        let mut bytes: Vec<u8> = Vec::new();
        push_bytes(&mut bytes, &SWAP_DISCRIMINATOR);
        push_u64_le(&mut bytes, in_amount);
        push_u64_le(&mut bytes, minimum_out_amount);
        push_u128_le(&mut bytes, data.sqrt_price_limit);
        bytes.push(if data.amount_specified_is_input { 1u8 } else { 0u8 });
        bytes.push(if data.a_to_b { 1u8 } else { 0u8 });
        bytes.push(if data.remaining_accounts_info.is_some() { 1u8 } else { 0u8 });
        let ghost prefix = bytes@;
        match &data.remaining_accounts_info {
            Some(info) => {
                let slices = &info.slices;
                push_u32_le(&mut bytes, slices.len() as u32);
                let ghost head = bytes@;
                let mut i: usize = 0;
                while i < slices.len()
                    invariant
                        i <= slices@.len(),
                        bytes@ == head + fusion_slices_bytes(slices@.subrange(0, i as int)),
                    decreases slices@.len() - i,
                {
                    let s = slices[i];
                    bytes.push(s.accounts_type.to_byte());
                    bytes.push(s.length);
                    i = i + 1;
                    assert(fusion_slices_bytes(slices@.subrange(0, i as int)) =~= fusion_slices_bytes(slices@.subrange(0, i - 1))
                        + seq![accounts_type_byte(s.accounts_type), s.length]);
                }
                assert(slices@.subrange(0, i as int) =~= slices@);
            },
            None => {},
        }
        let ix = instruction(CpiProgram::Id(FUSION_AMM_PROGRAM_ID), accounts, bytes);
        assert(ix.accounts@ =~= fusion_amm_metas(*ctx));
        assert(ix.data@ =~= fusion_amm_data(in_amount, minimum_out_amount, m));
        Ok(ix)
    }

    /// Builds the swap instruction and invokes it with the given signer seeds.
    pub fn swap_signed(ctx: &FusionAmmSwapAccounts<'_, AccountView>, in_amount: u64, minimum_out_amount: u64, data: &FusionAmmSwapData, signer_seeds: &[Signer]) -> (r: Result<(), SwapError>)
        ensures
            fusion_amm_data_len(fusion_amm_swap_model(*data)) > MAX_IX_DATA_LEN ==> r == Err::<(), SwapError>(SwapError::InvalidInstructionData),
            fusion_amm_data_len(fusion_amm_swap_model(*data)) <= MAX_IX_DATA_LEN ==> (r matches Err(e) ==> e is Runtime),
            fusion_amm_data_len(fusion_amm_swap_model(*data)) <= MAX_IX_DATA_LEN ==> invoked_with(
                    CpiProgram::Id(FUSION_AMM_PROGRAM_ID),
                    fusion_amm_metas(*ctx),
                    infos_of(fusion_amm_metas(*ctx)),
                    fusion_amm_data(in_amount, minimum_out_amount, fusion_amm_swap_model(*data)),
                    signer_seeds,
                    r,
                ),
    {
        let ix = Self::instruction(ctx, in_amount, minimum_out_amount, data)?;
        invoke(&ix, signer_seeds)
    }

    /// `swap_signed` without signer seeds.
    pub fn swap(ctx: &FusionAmmSwapAccounts<'_, AccountView>, in_amount: u64, minimum_out_amount: u64, data: &FusionAmmSwapData) -> (r: Result<(), SwapError>)
        ensures
            fusion_amm_data_len(fusion_amm_swap_model(*data)) > MAX_IX_DATA_LEN ==> r == Err::<(), SwapError>(SwapError::InvalidInstructionData),
            fusion_amm_data_len(fusion_amm_swap_model(*data)) <= MAX_IX_DATA_LEN ==> (r matches Err(e) ==> e is Runtime),
            fusion_amm_data_len(fusion_amm_swap_model(*data)) <= MAX_IX_DATA_LEN ==> invoked_with(
                    CpiProgram::Id(FUSION_AMM_PROGRAM_ID),
                    fusion_amm_metas(*ctx),
                    infos_of(fusion_amm_metas(*ctx)),
                    fusion_amm_data(in_amount, minimum_out_amount, fusion_amm_swap_model(*data)),
                    &[],
                    r,
                ),
    {
        Self::swap_signed(ctx, in_amount, minimum_out_amount, data, &[])
    }
}

/// Reading an accounts type back from its byte gives that type.
pub proof fn lemma_accounts_type_byte_round_trip(t: AccountsType)
    ensures
        accounts_type_of_byte(accounts_type_byte(t)) == Some(t),
        accounts_type_byte(t) <= 7,
{
}

/// The instruction data from byte twenty-four on encodes exactly the swap
/// data the instruction was built from: parsing it back gives the same price
/// limit, flags and slices.
pub proof fn lemma_fusion_amm_data_round_trip(in_amount: u64, minimum_out_amount: u64, m: FusionAmmSwapModel)
    requires
        m.3 matches Some(slices) ==> slices.len() <= u32::MAX,
    ensures
        ({
            let bytes = fusion_amm_data(in_amount, minimum_out_amount, m);
            &&& bytes.len() == fusion_amm_data_len(m)
            &&& fusion_amm_swap_data_of(bytes.subrange(24, bytes.len() as int)) == Some(m)
        }),
{
    vstd::bytes::lemma_auto_spec_u64_to_from_le_bytes();
    vstd::bytes::lemma_auto_spec_u128_to_from_le_bytes();
    vstd::bytes::lemma_auto_spec_u32_to_from_le_bytes();
    let bytes = fusion_amm_data(in_amount, minimum_out_amount, m);
    let t = bytes.subrange(24, bytes.len() as int);
    assert(t.subrange(0, 16) =~= spec_u128_to_le_bytes(m.0));
    match m.3 {
        None => {
            assert(t.len() == 19);
        },
        Some(slices) => {
            let n = slices.len();
            assert(t.subrange(19, 23) =~= spec_u32_to_le_bytes(n as u32));
            assert(fusion_slice_count(t) == n);
            assert forall|i: int| 0 <= i < n implies #[trigger] fusion_slice_at(t, i) == Some(slices[i]) by {
                assert(t[23 + 2 * i] == fusion_slices_bytes(slices)[2 * i]);
                assert(t[23 + 2 * i + 1] == fusion_slices_bytes(slices)[2 * i + 1]);
                lemma_accounts_type_byte_round_trip(slices[i].accounts_type);
            }
            assert(Seq::new(n, |i: int| fusion_slice_at(t, i)->0) =~= slices);
        },
    }
}

/// Writing back an accounts type read from a byte gives that byte.
pub proof fn lemma_accounts_type_of_byte_round_trip(b: u8)
    requires
        accounts_type_of_byte(b) is Some,
    ensures
        accounts_type_byte(accounts_type_of_byte(b)->0) == b,
{
}

/// Swap data whose flag bytes and option tag are each zero or one is passed
/// on as it came: the instruction built from what it parses to carries,
/// after the discriminator and the two amounts, exactly those bytes.
pub proof fn lemma_fusion_amm_data_passes_bytes_on(in_amount: u64, minimum_out_amount: u64, bytes: Seq<u8>)
    requires
        fusion_amm_swap_data_of(bytes) is Some,
        bytes[16] <= 1,
        bytes[17] <= 1,
        bytes[18] <= 1,
    ensures
        fusion_amm_data(in_amount, minimum_out_amount, fusion_amm_swap_data_of(bytes)->0)
            == SWAP_DISCRIMINATOR@ + spec_u64_to_le_bytes(in_amount) + spec_u64_to_le_bytes(minimum_out_amount) + bytes,
{
    vstd::bytes::lemma_auto_spec_u64_to_from_le_bytes();
    vstd::bytes::lemma_auto_spec_u128_to_from_le_bytes();
    vstd::bytes::lemma_auto_spec_u32_to_from_le_bytes();
    let m = fusion_amm_swap_data_of(bytes)->0;
    let head = SWAP_DISCRIMINATOR@ + spec_u64_to_le_bytes(in_amount) + spec_u64_to_le_bytes(minimum_out_amount);
    let flags = seq![if m.1 { 1u8 } else { 0u8 }, if m.2 { 1u8 } else { 0u8 }, if m.3 is Some { 1u8 } else { 0u8 }];
    assert(spec_u128_to_le_bytes(m.0) == bytes.subrange(0, 16));
    assert(flags =~= bytes.subrange(16, 19));
    if bytes[18] == 0 {
        assert(bytes.len() == 19);
        assert(bytes =~= bytes.subrange(0, 16) + bytes.subrange(16, 19));
        assert(fusion_amm_data(in_amount, minimum_out_amount, m) =~= head + bytes);
    } else {
        let n = fusion_slice_count(bytes);
        let slices = m.3->0;
        assert(bytes.len() == 23 + 2 * n);
        assert(slices.len() == n);
        assert(spec_u32_to_le_bytes(slices.len() as u32) == bytes.subrange(19, 23)) by {
            assert(slices.len() as u32 == spec_u32_from_le_bytes(bytes.subrange(19, 23)));
        }
        assert forall|i: int| 0 <= i < n implies #[trigger] fusion_slice_at(bytes, i) is Some by {
            if fusion_slice_at(bytes, i) is None {
                assert(exists|j: int| 0 <= j < fusion_slice_count(bytes) && #[trigger] fusion_slice_at(bytes, j) is None);
            }
        }
        assert forall|k: int| 0 <= k < 2 * n implies #[trigger] fusion_slices_bytes(slices)[k] == bytes[23 + k] by {
            let i = k / 2;
            assert(0 <= i < n);
            assert(fusion_slice_at(bytes, i) is Some);
            assert(slices[i] == fusion_slice_at(bytes, i)->0);
            if k % 2 == 0 {
                assert(k == 2 * i);
                lemma_accounts_type_of_byte_round_trip(bytes[23 + 2 * i]);
            } else {
                assert(k == 2 * i + 1);
            }
        }
        assert(fusion_slices_bytes(slices) =~= bytes.subrange(23, bytes.len() as int));
        assert(bytes =~= bytes.subrange(0, 16) + bytes.subrange(16, 19) + bytes.subrange(19, 23) + bytes.subrange(23, bytes.len() as int));
        assert(fusion_amm_data(in_amount, minimum_out_amount, m) =~= head + bytes);
    }
}

} // verus!
