//! What the host environment computes for the program: rent exemption and
//! derived program addresses.

use crate::error::{EscrowError, ProgramError};
use crate::pubkey::Pubkey;
use solana_program::account_info::AccountInfo;
use solana_program::sysvar::Sysvar;
use vstd::prelude::*;

verus! {

/// Bytes of storage that the host counts for an account before its data.
pub const ACCOUNT_STORAGE_OVERHEAD: u64 = 128;

/// What the host reads as the yearly rent per byte from the rent parameters
/// account with address `key` and storage `data`, or the code of the failure
/// with which it refuses the account.
pub uninterp spec fn rent_rate(key: Seq<u8>, data: Seq<u8>) -> Result<u64, u64>;

/// Whether, under the rent parameters in the account with address `key` and
/// storage `data`, an account with `data_len` bytes of storage and balance
/// `balance` is exempt from rent; or the code of the failure with which the
/// host refuses the parameters account.
pub uninterp spec fn rent_exemption(
    key: Seq<u8>,
    data: Seq<u8>,
    balance: u64,
    data_len: usize,
) -> Result<bool, u64>;

/// The address derived from `seed` for the program `program_id`, with the
/// bump that completes the seed, where such an address exists.
pub uninterp spec fn program_address(seed: Seq<u8>, program_id: Seq<u8>) -> Option<(Seq<u8>, u8)>;

/// Whether the storage size, overhead included, and its product with the
/// yearly rate both fit in 64 bits.
pub open spec fn rent_product_fits(data_len: usize, rate: u64) -> bool {
    &&& ACCOUNT_STORAGE_OVERHEAD + data_len <= u64::MAX
    &&& (ACCOUNT_STORAGE_OVERHEAD + data_len) * rate <= u64::MAX
}

/// `Rent::from_account_info` of `solana_program`, of whose result the
/// yearly rent per byte is handed out. The call looks at the address and the
/// storage of the account only. The contract names the outcome
/// [`rent_rate`]; a failure is handed on as its 64-bit code.
#[verifier::external_body]
pub(crate) fn rent_lamports_per_byte_year(key: &Pubkey, data: &[u8]) -> (r: Result<u64, u64>)
    ensures
        r == rent_rate(key@, data@),
{
    let key: solana_program::pubkey::Pubkey = key.bytes.into();
    let (mut lamports, mut data) = (0u64, data.to_vec());
    let info = AccountInfo::new(&key, false, false, &mut lamports, &mut data, &key, false, 0);
    match solana_program::rent::Rent::from_account_info(&info) {
        Ok(rent) => Ok(rent.lamports_per_byte_year),
        Err(e) => Err(u64::from(e)),
    }
}

/// `Rent::is_exempt` of `solana_program`, on the parameters that
/// `Rent::from_account_info` reads from the account. `is_exempt` adds the
/// overhead to the storage size and multiplies the sum by the yearly rate,
/// both in 64-bit arithmetic, so the contract admits only inputs on which
/// the sum and the product fit. The outcome is named [`rent_exemption`]; it
/// fails exactly where reading the parameters fails, with the same code.
#[verifier::external_body]
pub(crate) fn rent_is_exempt(key: &Pubkey, data: &[u8], balance: u64, data_len: usize) -> (r:
    Result<bool, u64>)
    requires
        rent_rate(key@, data@) is Ok ==> rent_product_fits(data_len, rent_rate(key@, data@)->Ok_0),
    ensures
        r == rent_exemption(key@, data@, balance, data_len),
        r is Err <==> rent_rate(key@, data@) is Err,
        r is Err ==> r->Err_0 == rent_rate(key@, data@)->Err_0,
{
    let key: solana_program::pubkey::Pubkey = key.bytes.into();
    let (mut lamports, mut data) = (0u64, data.to_vec());
    let info = AccountInfo::new(&key, false, false, &mut lamports, &mut data, &key, false, 0);
    match solana_program::rent::Rent::from_account_info(&info) {
        Ok(rent) => Ok(rent.is_exempt(balance, data_len)),
        Err(e) => Err(u64::from(e)),
    }
}

/// Whether an account with `data_len` bytes of storage and balance
/// `balance` is exempt from rent under the parameters in the account with
/// address `key` and storage `data`. It is an error where the host refuses
/// the parameters account, and an amount overflow where the storage size,
/// overhead included, or its product with the yearly rate leaves the 64-bit
/// range.
pub open spec fn spec_is_rent_exempt(
    key: Seq<u8>,
    data: Seq<u8>,
    balance: u64,
    data_len: usize,
) -> Result<bool, ProgramError> {
    if rent_rate(key, data) is Err {
        Err(ProgramError::spec_from_code(rent_rate(key, data)->Err_0))
    } else if !rent_product_fits(data_len, rent_rate(key, data)->Ok_0) {
        Err(ProgramError::escrow(EscrowError::AmountOverflow))
    } else {
        Ok(rent_exemption(key, data, balance, data_len)->Ok_0)
    }
}

/// Decides rent exemption under the parameters held by a rent account.
pub fn is_rent_exempt(key: &Pubkey, data: &[u8], balance: u64, data_len: usize) -> (r: Result<
    bool,
    ProgramError,
>)
    ensures
        r == spec_is_rent_exempt(key@, data@, balance, data_len),
{
    let rate = match rent_lamports_per_byte_year(key, data) {
        Ok(rate) => rate,
        Err(code) => {
            return Err(ProgramError::from_code(code));
        },
    };
    let fits = match ACCOUNT_STORAGE_OVERHEAD.checked_add(data_len as u64) {
        Some(size) => size.checked_mul(rate).is_some(),
        None => false,
    };
    if !fits {
        return Err(ProgramError::Custom(EscrowError::AmountOverflow.code()));
    }
    match rent_is_exempt(key, data, balance, data_len) {
        Ok(exempt) => Ok(exempt),
        Err(code) => Err(ProgramError::from_code(code)),
    }
}

/// `Pubkey::try_find_program_address` of `solana_program` with one seed.
/// The contract names the outcome [`program_address`]: it depends on the
/// seed and the program address alone.
#[verifier::external_body]
pub(crate) fn find_program_address(seed: &[u8], program_id: &Pubkey) -> (r: Option<(Pubkey, u8)>)
    ensures
        match r {
            Some((key, bump)) => program_address(seed@, program_id@) == Some((key@, bump)),
            None => program_address(seed@, program_id@) is None,
        },
{
    solana_program::pubkey::Pubkey::try_find_program_address(&[seed], &program_id.bytes.into())
        .map(|(key, bump)| (Pubkey { bytes: key.to_bytes() }, bump))
}

} // verus!
