//! The token program as a collaborator: reading its accounts and building
//! the instructions that are sent to it.

use crate::bytes::u64_to_le;
use crate::pubkey::Pubkey;
use solana_program::program_pack::Pack;
use spl_token::instruction::AuthorityType;
use vstd::prelude::*;

verus! {

/// One account reference of an instruction for another program.
#[derive(Debug, Clone, Copy, PartialEq, Eq)]
pub struct AccountMeta {
    pub pubkey: Pubkey,
    pub is_signer: bool,
    pub is_writable: bool,
}

/// An account reference as a mathematical value.
pub struct AccountMetaView {
    pub pubkey: Seq<u8>,
    pub is_signer: bool,
    pub is_writable: bool,
}

impl View for AccountMeta {
    type V = AccountMetaView;

    open spec fn view(&self) -> AccountMetaView {
        AccountMetaView {
            pubkey: self.pubkey@,
            is_signer: self.is_signer,
            is_writable: self.is_writable,
        }
    }
}

/// An instruction for another program.
#[derive(Debug, Clone, PartialEq, Eq)]
pub struct Instruction {
    pub program_id: Pubkey,
    pub accounts: Vec<AccountMeta>,
    pub data: Vec<u8>,
}

/// An instruction as a mathematical value.
pub struct InstructionView {
    pub program_id: Seq<u8>,
    pub accounts: Seq<AccountMetaView>,
    pub data: Seq<u8>,
}

impl View for Instruction {
    type V = InstructionView;

    open spec fn view(&self) -> InstructionView {
        InstructionView {
            program_id: self.program_id@,
            accounts: Seq::new(self.accounts@.len(), |i: int| self.accounts@[i]@),
            data: self.data@,
        }
    }
}

/// What the logic reads of a token account: the amount it holds, and whether
/// it holds the native asset.
#[derive(Debug, Clone, Copy, PartialEq, Eq, Structural)]
pub struct TokenAccount {
    pub amount: u64,
    pub is_native: bool,
}

/// The address of the token program.
pub open spec fn token_program_key() -> Seq<u8> {
    seq![
        6u8, 221, 246, 225, 215, 101, 161, 147, 217, 203, 225, 70, 206, 235, 121, 172,
        28, 180, 133, 237, 95, 91, 55, 145, 58, 140, 245, 133, 126, 255, 0, 169,
    ]
}

/// The code under which the token program's instruction builders refuse a
/// program address that is not the token program's.
pub open spec fn incorrect_program_id_code() -> u64 {
    0x7_0000_0000
}

/// A reference to an account that the instruction may change.
pub open spec fn writable(key: Seq<u8>) -> AccountMetaView {
    AccountMetaView { pubkey: key, is_signer: false, is_writable: true }
}

/// A reference to an account that the instruction only reads.
pub open spec fn readonly(key: Seq<u8>, is_signer: bool) -> AccountMetaView {
    AccountMetaView { pubkey: key, is_signer, is_writable: false }
}

/// The token instruction that moves `amount` from `source` to `destination`.
pub open spec fn transfer_instruction(
    token_program: Seq<u8>,
    source: Seq<u8>,
    destination: Seq<u8>,
    authority: Seq<u8>,
    signer: Seq<u8>,
    amount: u64,
) -> InstructionView {
    InstructionView {
        program_id: token_program,
        accounts: seq![
            writable(source),
            writable(destination),
            readonly(authority, false),
            readonly(signer, true),
        ],
        data: seq![3u8] + u64_to_le(amount),
    }
}

/// The token instruction that closes `account` and pays its balance out to
/// `destination`.
pub open spec fn close_account_instruction(
    token_program: Seq<u8>,
    account: Seq<u8>,
    destination: Seq<u8>,
    owner: Seq<u8>,
    signer: Seq<u8>,
) -> InstructionView {
    InstructionView {
        program_id: token_program,
        accounts: seq![
            writable(account),
            writable(destination),
            readonly(owner, false),
            readonly(signer, true),
        ],
        data: seq![9u8],
    }
}

/// The token instruction that makes `new_owner` the owner of `account`.
pub open spec fn set_account_owner_instruction(
    token_program: Seq<u8>,
    account: Seq<u8>,
    new_owner: Seq<u8>,
    owner: Seq<u8>,
    signer: Seq<u8>,
) -> InstructionView {
    InstructionView {
        program_id: token_program,
        accounts: seq![writable(account), readonly(owner, false), readonly(signer, true)],
        data: seq![6u8, 2u8, 1u8] + new_owner,
    }
}

/// What the token program reads from the storage of one of its accounts:
/// the amount held and whether the asset is the native one, or the code of
/// the failure with which it refuses the bytes.
pub uninterp spec fn token_account_state(data: Seq<u8>) -> Result<TokenAccount, u64>;

/// `spl_token::id`: the address of the token program, which is the constant
/// [`token_program_key`].
#[verifier::external_body]
pub(crate) fn token_program_id() -> (key: Pubkey)
    ensures
        key@ == token_program_key(),
{
    Pubkey { bytes: spl_token::id().to_bytes() }
}

/// `spl_token::state::Account::unpack`: reads a token account from its
/// storage. The contract names the outcome [`token_account_state`]: it
/// depends on the bytes alone. A failure is handed on as its 64-bit code.
#[verifier::external_body]
pub(crate) fn unpack_token_account(data: &[u8]) -> (r: Result<TokenAccount, u64>)
    ensures
        r == token_account_state(data@),
{
    match spl_token::state::Account::unpack(data) {
        Ok(account) => Ok(
            TokenAccount { amount: account.amount, is_native: account.is_native.is_some() },
        ),
        Err(e) => Err(u64::from(e)),
    }
}

/// `spl_token::instruction::transfer` with one signer: for the token
/// program's own address the result is [`transfer_instruction`]; any other
/// program address is refused as an incorrect program id.
#[verifier::external_body]
pub(crate) fn transfer(
    token_program: &Pubkey,
    source: &Pubkey,
    destination: &Pubkey,
    authority: &Pubkey,
    signer: &Pubkey,
    amount: u64,
) -> (r: Result<Instruction, u64>)
    ensures
        match r {
            Ok(ix) => token_program@ == token_program_key() && ix@ == transfer_instruction(
                token_program@,
                source@,
                destination@,
                authority@,
                signer@,
                amount,
            ),
            Err(code) => token_program@ != token_program_key() && code
                == incorrect_program_id_code(),
        },
{
    let keys = [token_program, source, destination, authority, signer].map(|k| k.bytes.into());
    let ix = spl_token::instruction::transfer(
        &keys[0], &keys[1], &keys[2], &keys[3], &[&keys[4]], amount,
    ).map_err(u64::from)?;
    let accounts = ix.accounts.iter().map(|m| AccountMeta {
        pubkey: Pubkey { bytes: m.pubkey.to_bytes() },
        is_signer: m.is_signer,
        is_writable: m.is_writable,
    }).collect();
    Ok(Instruction { program_id: Pubkey { bytes: ix.program_id.to_bytes() }, accounts, data: ix.data })
}

/// `spl_token::instruction::close_account` with one signer: for the token
/// program's own address the result is [`close_account_instruction`]; any
/// other program address is refused as an incorrect program id.
#[verifier::external_body]
pub(crate) fn close_account(
    token_program: &Pubkey,
    account: &Pubkey,
    destination: &Pubkey,
    owner: &Pubkey,
    signer: &Pubkey,
) -> (r: Result<Instruction, u64>)
    ensures
        match r {
            Ok(ix) => token_program@ == token_program_key() && ix@ == close_account_instruction(
                token_program@,
                account@,
                destination@,
                owner@,
                signer@,
            ),
            Err(code) => token_program@ != token_program_key() && code
                == incorrect_program_id_code(),
        },
{
    let keys = [token_program, account, destination, owner, signer].map(|k| k.bytes.into());
    let ix = spl_token::instruction::close_account(
        &keys[0], &keys[1], &keys[2], &keys[3], &[&keys[4]],
    ).map_err(u64::from)?;
    let accounts = ix.accounts.iter().map(|m| AccountMeta {
        pubkey: Pubkey { bytes: m.pubkey.to_bytes() },
        is_signer: m.is_signer,
        is_writable: m.is_writable,
    }).collect();
    Ok(Instruction { program_id: Pubkey { bytes: ix.program_id.to_bytes() }, accounts, data: ix.data })
}

/// `spl_token::instruction::set_authority` for the authority type
/// `AccountOwner`, with a new owner and one signer: for the token program's
/// own address the result is [`set_account_owner_instruction`]; any other
/// program address is refused as an incorrect program id.
#[verifier::external_body]
pub(crate) fn set_account_owner(
    token_program: &Pubkey,
    account: &Pubkey,
    new_owner: &Pubkey,
    owner: &Pubkey,
    signer: &Pubkey,
) -> (r: Result<Instruction, u64>)
    ensures
        match r {
            Ok(ix) => token_program@ == token_program_key() && ix@ == set_account_owner_instruction(
                token_program@,
                account@,
                new_owner@,
                owner@,
                signer@,
            ),
            Err(code) => token_program@ != token_program_key() && code
                == incorrect_program_id_code(),
        },
{
    let keys = [token_program, account, new_owner, owner, signer].map(|k| k.bytes.into());
    let ix = spl_token::instruction::set_authority(
        &keys[0], &keys[1], Some(&keys[2]), AuthorityType::AccountOwner, &keys[3], &[&keys[4]],
    ).map_err(u64::from)?;
    let accounts = ix.accounts.iter().map(|m| AccountMeta {
        pubkey: Pubkey { bytes: m.pubkey.to_bytes() },
        is_signer: m.is_signer,
        is_writable: m.is_writable,
    }).collect();
    Ok(Instruction { program_id: Pubkey { bytes: ix.program_id.to_bytes() }, accounts, data: ix.data })
}

} // verus!
