use vstd::prelude::*;
use vstd::bytes::spec_u64_to_le_bytes;
use solana_account_view::AccountView;
use solana_instruction_view::cpi::Signer;
use crate::bytes::push_u64_le;
use crate::cpi::{
    CpiAccount, CpiInstruction, CpiProgram, infos_of, instruction, readonly, readonly_meta,
    writable, writable_meta, writable_signer, writable_signer_meta,
};
use crate::error::SwapError;
use crate::runtime::{invoke, invoked_with};

verus! {

pub const ALPHAQ_PROGRAM_ID: [u8; 32] = [138, 176, 104, 132, 97, 57, 126, 103, 156, 196, 123, 16, 0, 158, 80, 252, 24, 74, 89, 222, 97, 142, 204, 112, 187, 173, 151, 49, 236, 244, 174, 189];

pub const SWAP_DISCRIMINATOR: u8 = 12;

pub struct AlphaQ;

#[derive(Clone, Copy, Debug, PartialEq, Eq)]
pub struct AlphaqSwapData {
    pub a_to_b: bool,
}

impl AlphaqSwapData {
    pub const DATA_LEN: usize = 1;

    /// The direction is `a_to_b` unless the first byte is zero.
    pub fn try_from(data: &[u8]) -> (r: Result<Self, SwapError>)
        ensures
            data@.len() < Self::DATA_LEN ==> r == Err::<Self, SwapError>(SwapError::InvalidInstructionData),
            data@.len() >= Self::DATA_LEN ==> (r matches Ok(d) && d.a_to_b == (data@[0] != 0)),
    {
        if data.len() < Self::DATA_LEN {
            return Err(SwapError::InvalidInstructionData);
        }
        Ok(AlphaqSwapData { a_to_b: data[0] != 0 })
    }
}

pub struct AlphaqSwapAccounts<'info, A> {
    pub alphaq_program: &'info A,
    pub user: &'info A,
    pub market: &'info A,
    pub market_state: &'info A,
    pub user_token_account_a: &'info A,
    pub user_token_account_b: &'info A,
    pub vault_token_account_a: &'info A,
    pub vault_token_account_b: &'info A,
    pub token_authority_a: &'info A,
    pub token_authority_b: &'info A,
    pub vendor_key: &'info A,
    pub token_program: &'info A,
    pub instructions_sysvar: &'info A,
}

/// `c` holds the accounts of `s` in the order of its fields.
pub open spec fn alphaq_accounts_laid_out<'info, A>(c: AlphaqSwapAccounts<'info, A>, s: Seq<A>) -> bool {
    &&& *c.alphaq_program == s[0]
    &&& *c.user == s[1]
    &&& *c.market == s[2]
    &&& *c.market_state == s[3]
    &&& *c.user_token_account_a == s[4]
    &&& *c.user_token_account_b == s[5]
    &&& *c.vault_token_account_a == s[6]
    &&& *c.vault_token_account_b == s[7]
    &&& *c.token_authority_a == s[8]
    &&& *c.token_authority_b == s[9]
    &&& *c.vendor_key == s[10]
    &&& *c.token_program == s[11]
    &&& *c.instructions_sysvar == s[12]
}

impl<'info, A> AlphaqSwapAccounts<'info, A> {
    pub const NUM_ACCOUNTS: usize = 13;

    pub fn try_from(accounts: &'info [A]) -> (r: Result<Self, SwapError>)
        ensures
            accounts@.len() != 13 ==> r == Err::<Self, SwapError>(SwapError::NotEnoughAccountKeys),
            accounts@.len() == 13 ==> (r matches Ok(c) && alphaq_accounts_laid_out(c, accounts@)),
    {
        if accounts.len() != 13 {
            return Err(SwapError::NotEnoughAccountKeys);
        }
        Ok(AlphaqSwapAccounts {
            alphaq_program: &accounts[0],
            user: &accounts[1],
            market: &accounts[2],
            market_state: &accounts[3],
            user_token_account_a: &accounts[4],
            user_token_account_b: &accounts[5],
            vault_token_account_a: &accounts[6],
            vault_token_account_b: &accounts[7],
            token_authority_a: &accounts[8],
            token_authority_b: &accounts[9],
            vendor_key: &accounts[10],
            token_program: &accounts[11],
            instructions_sysvar: &accounts[12],
        })
    }
}

/// The twelve accounts of an AlphaQ swap; the program account is not passed on.
pub open spec fn alphaq_metas<'info, A>(ctx: AlphaqSwapAccounts<'info, A>) -> Seq<CpiAccount<'info, A>> {
    seq![
        writable_signer_meta(ctx.user),
        writable_meta(ctx.market),
        writable_meta(ctx.market_state),
        writable_meta(ctx.user_token_account_a),
        writable_meta(ctx.user_token_account_b),
        writable_meta(ctx.vault_token_account_a),
        writable_meta(ctx.vault_token_account_b),
        writable_meta(ctx.token_authority_a),
        writable_meta(ctx.token_authority_b),
        writable_meta(ctx.vendor_key),
        readonly_meta(ctx.token_program),
        readonly_meta(ctx.instructions_sysvar),
    ]
}

/// Discriminator, direction, then the two amounts, little-endian.
pub open spec fn alphaq_data(in_amount: u64, minimum_out_amount: u64, data: AlphaqSwapData) -> Seq<u8> {
    seq![SWAP_DISCRIMINATOR, if data.a_to_b { 1u8 } else { 0u8 }] + spec_u64_to_le_bytes(in_amount) + spec_u64_to_le_bytes(minimum_out_amount)
}

impl AlphaQ {
    /// The AlphaQ swap instruction.
    pub fn instruction<'info, A>(ctx: &AlphaqSwapAccounts<'info, A>, in_amount: u64, minimum_out_amount: u64, data: &AlphaqSwapData) -> (ix: CpiInstruction<'info, A>)
        ensures
            ix.program == CpiProgram::<'info, A>::Id(ALPHAQ_PROGRAM_ID),
            ix.accounts@ == alphaq_metas(*ctx),
            ix.account_infos@ == infos_of(ix.accounts@),
            ix.data@ == alphaq_data(in_amount, minimum_out_amount, *data),
    {
        let mut accounts: Vec<CpiAccount<'info, A>> = Vec::new();
        accounts.push(writable_signer(ctx.user));
        accounts.push(writable(ctx.market));
        accounts.push(writable(ctx.market_state));
        accounts.push(writable(ctx.user_token_account_a));
        accounts.push(writable(ctx.user_token_account_b));
        accounts.push(writable(ctx.vault_token_account_a));
        accounts.push(writable(ctx.vault_token_account_b));
        accounts.push(writable(ctx.token_authority_a));
        accounts.push(writable(ctx.token_authority_b));
        accounts.push(writable(ctx.vendor_key));
        accounts.push(readonly(ctx.token_program));
        accounts.push(readonly(ctx.instructions_sysvar));
        let mut bytes: Vec<u8> = Vec::new();
        bytes.push(SWAP_DISCRIMINATOR);
        bytes.push(if data.a_to_b { 1u8 } else { 0u8 });
        push_u64_le(&mut bytes, in_amount);
        push_u64_le(&mut bytes, minimum_out_amount);
        let ix = instruction(CpiProgram::Id(ALPHAQ_PROGRAM_ID), accounts, bytes);
        assert(ix.accounts@ =~= alphaq_metas(*ctx));
        assert(ix.data@ =~= alphaq_data(in_amount, minimum_out_amount, *data));
        ix
    }

    /// Builds the swap instruction and invokes it with the given signer seeds.
    pub fn swap_signed(ctx: &AlphaqSwapAccounts<'_, AccountView>, in_amount: u64, minimum_out_amount: u64, data: &AlphaqSwapData, signer_seeds: &[Signer]) -> (r: Result<(), SwapError>)
        ensures
            r matches Err(e) ==> e is Runtime,
            invoked_with(
                    CpiProgram::Id(ALPHAQ_PROGRAM_ID),
                    alphaq_metas(*ctx),
                    infos_of(alphaq_metas(*ctx)),
                    alphaq_data(in_amount, minimum_out_amount, *data),
                    signer_seeds,
                    r,
                ),
    {
        let ix = Self::instruction(ctx, in_amount, minimum_out_amount, data);
        invoke(&ix, signer_seeds)
    }

    /// `swap_signed` without signer seeds.
    pub fn swap(ctx: &AlphaqSwapAccounts<'_, AccountView>, in_amount: u64, minimum_out_amount: u64, data: &AlphaqSwapData) -> (r: Result<(), SwapError>)
        ensures
            r matches Err(e) ==> e is Runtime,
            invoked_with(
                    CpiProgram::Id(ALPHAQ_PROGRAM_ID),
                    alphaq_metas(*ctx),
                    infos_of(alphaq_metas(*ctx)),
                    alphaq_data(in_amount, minimum_out_amount, *data),
                    &[],
                    r,
                ),
    {
        Self::swap_signed(ctx, in_amount, minimum_out_amount, data, &[])
    }
}

} // verus!
