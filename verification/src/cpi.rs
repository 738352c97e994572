use vstd::prelude::*;

verus! {

/// How an account is presented to the invoked program.
#[derive(Clone, Copy, Debug, PartialEq, Eq, Structural)]
pub enum AccountRole {
    Readonly,
    Writable,
    ReadonlySigner,
    WritableSigner,
    /// Writable and signer flags are taken over from the account as it was passed in.
    AsPassed,
}

/// One account of an instruction, with its role.
pub struct CpiAccount<'a, A> {
    pub account: &'a A,
    pub role: AccountRole,
}

/// The user's accounts that a routed swap hands to a protocol: the wallet
/// that signs, the token account paid from and the token account paid into.
pub struct SwapParameters<'info, A> {
    pub user_wallet: &'info A,
    pub in_ata: &'info A,
    pub out_ata: &'info A,
}

/// The program an instruction is addressed to.
pub enum CpiProgram<'a, A> {
    Id([u8; 32]),
    Account(&'a A),
}

/// A cross-program instruction, ready to be invoked.
pub struct CpiInstruction<'a, A> {
    pub program: CpiProgram<'a, A>,
    pub accounts: Vec<CpiAccount<'a, A>>,
    /// The accounts handed to the runtime next to the instruction.
    pub account_infos: Vec<&'a A>,
    pub data: Vec<u8>,
}

pub open spec fn meta<'a, A>(account: &'a A, role: AccountRole) -> CpiAccount<'a, A> {
    CpiAccount { account, role }
}

/// The accounts of a list of metas, in order.
pub open spec fn infos_of<'a, A>(metas: Seq<CpiAccount<'a, A>>) -> Seq<&'a A> {
    metas.map_values(|m: CpiAccount<'a, A>| m.account)
}

/// Collects the accounts of `metas`, in order.
pub fn account_infos_of<'a, A>(metas: &Vec<CpiAccount<'a, A>>) -> (r: Vec<&'a A>)
    ensures
        r@ == infos_of(metas@),
{
    let mut r: Vec<&'a A> = Vec::new();
    let mut i: usize = 0;
    while i < metas.len()
        invariant
            i <= metas@.len(),
            r@ == infos_of(metas@).subrange(0, i as int),
        decreases metas@.len() - i,
    {
        r.push(metas[i].account);
        i = i + 1;
        assert(r@ =~= infos_of(metas@).subrange(0, i as int));
    }
    assert(r@ =~= infos_of(metas@));
    r
}

/// An instruction whose account infos are its accounts, in the same order.
pub fn instruction<'a, A>(program: CpiProgram<'a, A>, accounts: Vec<CpiAccount<'a, A>>, data: Vec<u8>) -> (ix: CpiInstruction<'a, A>)
    ensures
        ix.program == program,
        ix.accounts@ == accounts@,
        ix.account_infos@ == infos_of(accounts@),
        ix.data@ == data@,
{
    let account_infos = account_infos_of(&accounts);
    CpiInstruction { program, accounts, account_infos, data }
}


pub open spec fn readonly_meta<'a, A>(account: &'a A) -> CpiAccount<'a, A> {
    meta(account, AccountRole::Readonly)
}

pub open spec fn writable_meta<'a, A>(account: &'a A) -> CpiAccount<'a, A> {
    meta(account, AccountRole::Writable)
}

pub open spec fn readonly_signer_meta<'a, A>(account: &'a A) -> CpiAccount<'a, A> {
    meta(account, AccountRole::ReadonlySigner)
}

pub open spec fn writable_signer_meta<'a, A>(account: &'a A) -> CpiAccount<'a, A> {
    meta(account, AccountRole::WritableSigner)
}

/// Each account of `s`, in order, with the given role.
pub open spec fn metas_with_role<'a, A>(s: Seq<A>, role: AccountRole) -> Seq<CpiAccount<'a, A>> {
    Seq::new(s.len(), |i: int| meta(&s[i], role))
}

pub fn readonly<'a, A>(account: &'a A) -> (r: CpiAccount<'a, A>)
    ensures
        r == readonly_meta(account),
{
    CpiAccount { account, role: AccountRole::Readonly }
}

pub fn writable<'a, A>(account: &'a A) -> (r: CpiAccount<'a, A>)
    ensures
        r == writable_meta(account),
{
    CpiAccount { account, role: AccountRole::Writable }
}

pub fn readonly_signer<'a, A>(account: &'a A) -> (r: CpiAccount<'a, A>)
    ensures
        r == readonly_signer_meta(account),
{
    CpiAccount { account, role: AccountRole::ReadonlySigner }
}

pub fn writable_signer<'a, A>(account: &'a A) -> (r: CpiAccount<'a, A>)
    ensures
        r == writable_signer_meta(account),
{
    CpiAccount { account, role: AccountRole::WritableSigner }
}

/// Appends each account of `accounts`, in order, with the given role.
pub fn push_all_with_role<'a, A>(v: &mut Vec<CpiAccount<'a, A>>, accounts: &'a [A], role: AccountRole)
    ensures
        final(v)@ == old(v)@ + metas_with_role(accounts@, role),
{
    let ghost start = v@;
    let mut i: usize = 0;
    while i < accounts.len()
        invariant
            i <= accounts@.len(),
            v@ == start + metas_with_role(accounts@, role).subrange(0, i as int),
        decreases accounts@.len() - i,
    {
        v.push(CpiAccount { account: &accounts[i], role });
        i = i + 1;
        assert(v@ =~= start + metas_with_role(accounts@, role).subrange(0, i as int));
    }
    assert(metas_with_role(accounts@, role).subrange(0, i as int) =~= metas_with_role(accounts@, role));
}

} // verus!
