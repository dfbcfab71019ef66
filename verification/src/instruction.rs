//! The operations of the program and their byte encoding.

use crate::bytes::{read_u64_le, u64_from_le};
use crate::error::{EscrowError, ProgramError};
use vstd::prelude::*;
use vstd::slice::slice_subrange;

verus! {

/// An operation on an escrow, as decoded from instruction bytes.
///
/// The first byte selects the operation; the amount that follows, where
/// there is one, is an unsigned 64-bit number, least significant byte first.
#[derive(Debug, Clone, Copy, PartialEq, Eq, Structural)]
pub enum EscrowInstruction {
    /// Opens an escrow over a funded custody account and hands the custody
    /// account to the program's derived address.
    ///
    /// Accounts, in order: the payer (signer); the custody account holding
    /// the funds; the settlement authority (signer); the escrow account; the
    /// rent parameters account; the token program.
    InitEscrow {
        /// The amount that the custody account must hold.
        amount: u64,
    },
    /// Releases the funds: the fee to the fee taker, the rest to the taker.
    ///
    /// Accounts, in order: the authority (signer); the taker's account; the
    /// fee taker's account; the custody account; the escrow account; the
    /// account that receives the custody account's rent; the token program;
    /// the derived custody address.
    Settle {
        /// The part of the held amount that goes to the fee taker.
        fee: u64,
    },
    /// Reclaims the escrow account of a settled escrow.
    ///
    /// Accounts, in order: the authority (signer); the escrow account; the
    /// account that receives the escrow account's balance.
    Close,
}

/// The amount at the head of `input`, if `input` has the eight bytes for it.
pub open spec fn spec_unpack_amount(input: Seq<u8>) -> Option<u64> {
    if input.len() >= 8 {
        Some(u64_from_le(input.subrange(0, 8)) as u64)
    } else {
        None
    }
}

/// The operation that `input` encodes, if it encodes one.
pub open spec fn spec_unpack(input: Seq<u8>) -> Option<EscrowInstruction> {
    if input.len() == 0 {
        None
    } else if input[0] == 0 {
        match spec_unpack_amount(input.subrange(1, input.len() as int)) {
            Some(amount) => Some(EscrowInstruction::InitEscrow { amount }),
            None => None,
        }
    } else if input[0] == 1 {
        match spec_unpack_amount(input.subrange(1, input.len() as int)) {
            Some(fee) => Some(EscrowInstruction::Settle { fee }),
            None => None,
        }
    } else if input[0] == 2 {
        Some(EscrowInstruction::Close)
    } else {
        None
    }
}

impl EscrowInstruction {
    /// Decodes instruction bytes. Bytes beyond those that the operation
    /// needs are ignored; any other input is an invalid instruction.
    pub fn unpack(input: &[u8]) -> (r: Result<EscrowInstruction, ProgramError>)
        ensures
            match spec_unpack(input@) {
                Some(instruction) => r is Ok && r->Ok_0 == instruction,
                None => r is Err && r->Err_0 == ProgramError::escrow(
                    EscrowError::InvalidInstruction,
                ),
            },
    {
        if input.len() == 0 {
            return Err(ProgramError::Custom(EscrowError::InvalidInstruction.code()));
        }
        let tag = input[0];
        let rest = slice_subrange(input, 1, input.len());
        match tag {
            0 => {
                let amount = Self::unpack_amount(rest)?;
                Ok(EscrowInstruction::InitEscrow { amount })
            },
            1 => {
                let fee = Self::unpack_amount(rest)?;
                Ok(EscrowInstruction::Settle { fee })
            },
            2 => Ok(EscrowInstruction::Close),
            _ => Err(ProgramError::Custom(EscrowError::InvalidInstruction.code())),
        }
    }

    /// Decodes the amount at the head of `input`.
    pub fn unpack_amount(input: &[u8]) -> (r: Result<u64, ProgramError>)
        ensures
            match spec_unpack_amount(input@) {
                Some(amount) => r is Ok && r->Ok_0 == amount,
                None => r is Err && r->Err_0 == ProgramError::escrow(
                    EscrowError::InvalidInstruction,
                ),
            },
    {
        if input.len() < 8 {
            return Err(ProgramError::Custom(EscrowError::InvalidInstruction.code()));
        }
        proof {
            crate::bytes::lemma_u64_from_le_bounds(input@.subrange(0, 8));
        }
        Ok(read_u64_le(input, 0))
    }
}

} // verus!
