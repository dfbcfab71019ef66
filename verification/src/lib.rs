//! An escrow that holds a payer's funds under a derived, keyless custody
//! address until the authority settles it.

pub mod account;
pub mod bytes;
pub mod error;
pub mod fixed_fee;
pub mod host;
pub mod instruction;
pub mod lifecycle;
pub mod processor;
pub mod pubkey;
pub mod state;
pub mod token;

use crate::error::{EscrowError, ProgramError};
use crate::pubkey::Pubkey;
use vstd::prelude::*;

verus! {

/// The address of this program.
pub open spec fn program_key() -> Seq<u8> {
    seq![
        5u8, 94, 239, 130, 100, 57, 68, 80, 182, 115, 14, 143, 170, 154, 71, 91,
        176, 115, 177, 21, 121, 209, 0, 80, 135, 3, 128, 0, 0, 0, 0, 0,
    ]
}

/// The address of this program.
pub fn id() -> (key: Pubkey)
    ensures
        key@ == program_key(),
{
    let bytes: [u8; 32] = [
        5, 94, 239, 130, 100, 57, 68, 80, 182, 115, 14, 143, 170, 154, 71, 91,
        176, 115, 177, 21, 121, 209, 0, 80, 135, 3, 128, 0, 0, 0, 0, 0,
    ];
    assert(bytes@ =~= program_key());
    Pubkey::new_from_array(bytes)
}

/// Checks that the supplied authority is this program.
pub fn check_authority_account(escrow_authority_id: &Pubkey) -> (r: Result<(), ProgramError>)
    ensures
        escrow_authority_id@ == program_key() ==> r is Ok,
        escrow_authority_id@ != program_key() ==> r is Err && r->Err_0 == ProgramError::escrow(
            EscrowError::InvalidAuthorityId,
        ),
{
    if !escrow_authority_id.same(&id()) {
        return Err(ProgramError::Custom(EscrowError::InvalidAuthorityId.code()));
    }
    Ok(())
}

} // verus!
