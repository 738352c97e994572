use vstd::prelude::*;
use solana_account_view::AccountView;
use solana_address::Address;
use solana_instruction_view::cpi::{invoke_signed_with_bounds, Signer};
use solana_instruction_view::{InstructionAccount, InstructionView};
use crate::cpi::{AccountRole, CpiAccount, CpiInstruction, CpiProgram};
use crate::error::SwapError;
use crate::bytes::bytes32_eq;

verus! {

#[verifier::external_type_specification]
#[verifier::external_body]
pub struct ExAccountView(AccountView);

#[verifier::external_type_specification]
#[verifier::external_body]
pub struct ExSigner<'a, 'b>(Signer<'a, 'b>);

/// Largest number of instruction accounts that an invocation takes.
pub const MAX_CPI_ACCOUNTS: usize = 64;

/// An instruction account with its writable and signer flags settled.
pub struct ResolvedAccount<'a> {
    pub account: &'a AccountView,
    pub is_writable: bool,
    pub is_signer: bool,
}

pub open spec fn role_is_writable(role: AccountRole) -> bool {
    role == AccountRole::Writable || role == AccountRole::WritableSigner
}

pub open spec fn role_is_signer(role: AccountRole) -> bool {
    role == AccountRole::ReadonlySigner || role == AccountRole::WritableSigner
}

/// Calls `AccountView::address` and copies the 32 address bytes. Nothing is
/// stated of them: they are read from the runtime's account memory.
#[verifier::external_body]
pub(crate) fn account_address(account: &AccountView) -> [u8; 32] {
    account.address().to_bytes()
}

/// `address` is what reading the address of `account` gives.
pub closed spec fn address_read(account: &AccountView, address: [u8; 32]) -> bool {
    call_ensures(account_address, (account,), address)
}

/// Reads the address of `account`.
pub fn read_address(account: &AccountView) -> (r: [u8; 32])
    ensures
        address_read(account, r),
{
    let read = account_address;
    read(account)
}

/// `data` is what reading the data of `account` gives.
pub closed spec fn data_read(account: &AccountView, data: Option<Vec<u8>>) -> bool {
    call_ensures(account_data, (account,), data)
}

/// Reads the data of `account`; `None` where it cannot be borrowed.
pub fn read_data(account: &AccountView) -> (r: Option<Vec<u8>>)
    ensures
        data_read(account, r),
{
    let read = account_data;
    read(account)
}

/// Reading the data of `a` and of `b` gives two token accounts' data, of at
/// least 32 bytes each, and `same` tells whether their first 32 bytes, the
/// mint, agree.
pub open spec fn same_mint_read(a: &AccountView, b: &AccountView, same: bool) -> bool {
    exists|da: Vec<u8>, db: Vec<u8>| #[trigger] data_read(a, Some(da)) && #[trigger] data_read(b, Some(db))
        && da@.len() >= 32 && db@.len() >= 32 && same == (da@.subrange(0, 32) == db@.subrange(0, 32))
}

/// Reading the data of `a` or of `b` fails, or gives fewer than 32 bytes,
/// too few to name a mint.
pub open spec fn mint_unreadable(a: &AccountView, b: &AccountView) -> bool {
    exists|d: Option<Vec<u8>>| #![trigger data_read(a, d)] #![trigger data_read(b, d)]
        (data_read(a, d) || data_read(b, d)) && (d matches Some(v) ==> v@.len() < 32)
}

/// Calls `AccountView::is_writable`. Nothing is stated of the flag: the runtime sets it.
#[verifier::external_body]
fn account_is_writable(account: &AccountView) -> bool {
    account.is_writable()
}

/// Calls `AccountView::is_signer`. Nothing is stated of the flag: the runtime sets it.
#[verifier::external_body]
fn account_is_signer(account: &AccountView) -> bool {
    account.is_signer()
}

/// Calls `AccountView::try_borrow` and copies the account's data; `None` where
/// `try_borrow` refuses, which it does where the data is already borrowed
/// mutably or no immutable borrow is left. Nothing is stated of the bytes:
/// they are read from the runtime's account memory.
#[verifier::external_body]
pub(crate) fn account_data(account: &AccountView) -> Option<Vec<u8>> {
    match account.try_borrow() {
        Ok(data) => Some(data.to_vec()),
        Err(_) => None,
    }
}

/// The code the runtime gives `ProgramError::InvalidArgument` (two, shifted
/// into the upper half of the word).
pub const RUNTIME_INVALID_ARGUMENT: u64 = 8589934592;

/// The code the runtime gives `ProgramError::NotEnoughAccountKeys` (eleven,
/// shifted into the upper half of the word).
pub const RUNTIME_NOT_ENOUGH_ACCOUNT_KEYS: u64 = 47244640256;

/// A failure that carries the runtime's error code `code`.
pub open spec fn runtime_failure(code: u64) -> Result<(), SwapError> {
    Err(SwapError::Runtime(code))
}

/// Makes an `InstructionAccount` of each resolved account (its address and
/// its two flags, in order) and calls
/// `solana_instruction_view::cpi::invoke_signed_with_bounds` on the
/// instruction made of the program id, those accounts and the data, with the
/// account views and the signer seeds; an error comes back as its runtime
/// code. As its source shows, the call refuses more than `MAX_CPI_ACCOUNTS`
/// accounts with `InvalidArgument`, then fewer views than accounts with
/// `NotEnoughAccountKeys`. It also fails with `InvalidArgument` where a view's
/// address is not that of its account, and with `AccountBorrowFailed` where a
/// writable account's data is borrowed; which of these arises, and whether the
/// invoked program succeeds, turns on the runtime's account memory and is left
/// unsaid. Where the invoked program fails, the runtime ends the transaction
/// and the call does not return.
#[verifier::external_body]
fn invoke_signed_with_accounts(program_id: &[u8; 32], resolved: &[ResolvedAccount], infos: &[&AccountView], data: &[u8], signers: &[Signer]) -> (r: Result<(), SwapError>)
    ensures
        r matches Err(e) ==> e is Runtime,
        resolved@.len() > MAX_CPI_ACCOUNTS ==> r == runtime_failure(RUNTIME_INVALID_ARGUMENT),
        resolved@.len() <= MAX_CPI_ACCOUNTS && infos@.len() < resolved@.len() ==> r == runtime_failure(RUNTIME_NOT_ENOUGH_ACCOUNT_KEYS),
{
    let id = Address::new_from_array(*program_id);
    let accounts: Vec<InstructionAccount> = resolved.iter()
        .map(|a| InstructionAccount::new(a.account.address(), a.is_writable, a.is_signer)).collect();
    let instruction = InstructionView { program_id: &id, accounts: &accounts, data };
    match invoke_signed_with_bounds::<MAX_CPI_ACCOUNTS, &AccountView>(&instruction, infos, signers) {
        Ok(()) => Ok(()),
        Err(e) => Err(SwapError::Runtime(u64::from(e))),
    }
}

/// The accounts of `metas` with their flags: those of the role, or, for an
/// account passed on as it came, the flags it came with.
pub fn resolve_accounts<'a>(metas: &Vec<CpiAccount<'a, AccountView>>) -> (r: Vec<ResolvedAccount<'a>>)
    ensures
        r@.len() == metas@.len(),
        forall|i: int| #![trigger r@[i]] 0 <= i < r@.len() ==> r@[i].account == metas@[i].account,
        forall|i: int| #![trigger r@[i]] 0 <= i < r@.len() && metas@[i].role != AccountRole::AsPassed ==> {
            &&& r@[i].is_writable == role_is_writable(metas@[i].role)
            &&& r@[i].is_signer == role_is_signer(metas@[i].role)
        },
{
    let mut r: Vec<ResolvedAccount<'a>> = Vec::new();
    let mut i: usize = 0;
    while i < metas.len()
        invariant
            i <= metas@.len(),
            r@.len() == i,
            forall|j: int| #![trigger r@[j]] 0 <= j < i ==> r@[j].account == metas@[j].account,
            forall|j: int| #![trigger r@[j]] 0 <= j < i && metas@[j].role != AccountRole::AsPassed ==> {
                &&& r@[j].is_writable == role_is_writable(metas@[j].role)
                &&& r@[j].is_signer == role_is_signer(metas@[j].role)
            },
        decreases metas@.len() - i,
    {
        let account = metas[i].account;
        let (is_writable, is_signer) = match metas[i].role {
            AccountRole::Readonly => (false, false),
            AccountRole::Writable => (true, false),
            AccountRole::ReadonlySigner => (false, true),
            AccountRole::WritableSigner => (true, true),
            AccountRole::AsPassed => (account_is_writable(account), account_is_signer(account)),
        };
        r.push(ResolvedAccount { account, is_writable, is_signer });
        i = i + 1;
    }
    r
}

/// The mint that an SPL token account's data names in its first 32 bytes;
/// `None` where the data is shorter.
pub fn token_account_mint_of(data: &[u8]) -> (r: Option<[u8; 32]>)
    ensures
        data@.len() < 32 ==> r is None,
        data@.len() >= 32 ==> (r matches Some(m) && m@ == data@.subrange(0, 32)),
{
    if data.len() < 32 {
        return None;
    }
    let m = [
        data[0], data[1], data[2], data[3], data[4], data[5], data[6], data[7],
        data[8], data[9], data[10], data[11], data[12], data[13], data[14], data[15],
        data[16], data[17], data[18], data[19], data[20], data[21], data[22], data[23],
        data[24], data[25], data[26], data[27], data[28], data[29], data[30], data[31],
    ];
    assert(m@ =~= data@.subrange(0, 32));
    Some(m)
}

/// Whether two SPL token accounts' data name the same mint in their first 32
/// bytes; an error where either is shorter.
pub fn same_mint_of(a: &[u8], b: &[u8]) -> (r: Result<bool, SwapError>)
    ensures
        a@.len() < 32 || b@.len() < 32 ==> r == Err::<bool, SwapError>(SwapError::InvalidAccountData),
        a@.len() >= 32 && b@.len() >= 32 ==> r == Ok::<bool, SwapError>(a@.subrange(0, 32) == b@.subrange(0, 32)),
{
    let mint_a = match token_account_mint_of(a) {
        Some(m) => m,
        None => return Err(SwapError::InvalidAccountData),
    };
    let mint_b = match token_account_mint_of(b) {
        Some(m) => m,
        None => return Err(SwapError::InvalidAccountData),
    };
    Ok(bytes32_eq(&mint_a, &mint_b))
}

/// Whether two token accounts name the same mint; an error where the data of
/// either cannot be read or is too short to name one.
pub fn same_token_mint(a: &AccountView, b: &AccountView) -> (r: Result<bool, SwapError>)
    ensures
        r matches Err(e) ==> e == SwapError::InvalidAccountData,
        r matches Ok(same) ==> same_mint_read(a, b, same),
        r is Err ==> mint_unreadable(a, b),
{
    let read_a = read_data(a);
    if read_a.is_none() {
        assert(data_read(a, read_a));
        return Err(SwapError::InvalidAccountData);
    }
    let read_b = read_data(b);
    if read_b.is_none() {
        assert(data_read(b, read_b));
        return Err(SwapError::InvalidAccountData);
    }
    let data_a = read_a.unwrap();
    let data_b = read_b.unwrap();
    let r = same_mint_of(data_a.as_slice(), data_b.as_slice());
    proof {
        assert(data_read(a, Some(data_a)) && data_read(b, Some(data_b)));
    }
    r
}

/// Invokes `ix` with the given signer seeds: its accounts go to the runtime
/// as `resolve_accounts` settles them, in order, with its account views and
/// its data.
pub fn invoke(ix: &CpiInstruction<'_, AccountView>, signers: &[Signer]) -> (r: Result<(), SwapError>)
    ensures
        r matches Err(e) ==> e is Runtime,
        ix.accounts@.len() > MAX_CPI_ACCOUNTS ==> r == runtime_failure(RUNTIME_INVALID_ARGUMENT),
        ix.accounts@.len() <= MAX_CPI_ACCOUNTS && ix.account_infos@.len() < ix.accounts@.len()
            ==> r == runtime_failure(RUNTIME_NOT_ENOUGH_ACCOUNT_KEYS),
{
    let program_id = match &ix.program {
        CpiProgram::Id(id) => *id,
        CpiProgram::Account(account) => account_address(account),
    };
    let resolved = resolve_accounts(&ix.accounts);
    invoke_signed_with_accounts(&program_id, resolved.as_slice(), ix.account_infos.as_slice(), ix.data.as_slice(), signers)
}

/// `r` is what invoking, with `signers`, an instruction for `program` with
/// these accounts, account views and data comes to.
pub open spec fn invoked_with<'a>(
    program: CpiProgram<'a, AccountView>,
    accounts: Seq<CpiAccount<'a, AccountView>>,
    infos: Seq<&'a AccountView>,
    data: Seq<u8>,
    signers: &[Signer],
    r: Result<(), SwapError>,
) -> bool {
    exists|ix: CpiInstruction<'a, AccountView>| #[trigger] call_ensures(invoke, (&ix, signers), r)
        && ix.program == program && ix.accounts@ == accounts && ix.account_infos@ == infos && ix.data@ == data
}

} // verus!
