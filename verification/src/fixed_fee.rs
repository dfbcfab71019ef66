//! The compact schema, in which the fee is fixed when the escrow is opened.
//!
//! Its instructions carry the fee with the amount, and settling carries
//! nothing. Its record has no settled flag and no fee taker, and names the
//! payer's receiving account in place of a payee:
//!
//! | bytes      | field                              |
//! |------------|------------------------------------|
//! | 0          | initialized flag (0 or 1)          |
//! | 1 – 32     | payer                              |
//! | 33 – 64    | payer's receiving account          |
//! | 65 – 96    | payer's custody account            |
//! | 97 – 128   | authority                          |
//! | 129 – 136  | amount, least significant first    |
//! | 137 – 144  | fee, least significant first       |
//!
//! Records and instructions of the two schemas are not interchangeable.

use crate::bytes::{
    lemma_u64_from_le_bounds, lemma_u64_le_bytes_round_trip, lemma_u64_le_round_trip,
    read_u64_le, u64_from_le, u64_le_bytes, u64_to_le,
};
use crate::error::{EscrowError, ProgramError};
use crate::instruction::spec_unpack_amount;
use crate::pubkey::Pubkey;
use crate::state::{flag_byte, write_bytes};
use vstd::prelude::*;
use vstd::slice::slice_subrange;

verus! {

/// Number of bytes of a packed record of the compact schema.
pub const ESCROW_LEN: usize = 145;

/// An operation of the compact schema.
#[derive(Debug, Clone, Copy, PartialEq, Eq, Structural)]
pub enum EscrowInstruction {
    /// Opens an escrow over a funded custody account.
    InitEscrow {
        /// The amount that the custody account must hold.
        amount: u64,
        /// The part of the amount that goes to the fee taker.
        fee: u64,
    },
    /// Releases the funds with the fee that was fixed at opening.
    Settle,
}

/// The operation that `input` encodes in the compact schema, if any.
pub open spec fn spec_unpack_instruction(input: Seq<u8>) -> Option<EscrowInstruction> {
    if input.len() == 0 {
        None
    } else if input[0] == 0 {
        if input.len() >= 17 {
            Some(
                EscrowInstruction::InitEscrow {
                    amount: u64_from_le(input.subrange(1, 9)) as u64,
                    fee: u64_from_le(input.subrange(9, 17)) as u64,
                },
            )
        } else {
            None
        }
    } else if input[0] == 1 {
        Some(EscrowInstruction::Settle)
    } else {
        None
    }
}

impl EscrowInstruction {
    /// Decodes instruction bytes. Bytes beyond those that the operation
    /// needs are ignored; any other input is an invalid instruction.
    pub fn unpack(input: &[u8]) -> (r: Result<EscrowInstruction, ProgramError>)
        ensures
            match spec_unpack_instruction(input@) {
                Some(instruction) => r is Ok && r->Ok_0 == instruction,
                None => r is Err && r->Err_0 == ProgramError::escrow(
                    EscrowError::InvalidInstruction,
                ),
            },
    {
        if input.len() == 0 {
            return Err(ProgramError::Custom(EscrowError::InvalidInstruction.code()));
        }
        let tag = input[0];
        let rest = slice_subrange(input, 1, input.len());
        match tag {
            0 => {
                let amount = Self::unpack_amount(rest)?;
                let fee = Self::unpack_amount(slice_subrange(rest, 8, rest.len()))?;
                assert(rest@.subrange(0, 8) =~= input@.subrange(1, 9));
                assert(rest@.subrange(8, rest@.len() as int).subrange(0, 8) =~= input@.subrange(
                    9,
                    17,
                ));
                Ok(EscrowInstruction::InitEscrow { amount, fee })
            },
            1 => Ok(EscrowInstruction::Settle),
            _ => Err(ProgramError::Custom(EscrowError::InvalidInstruction.code())),
        }
    }

    /// Decodes the amount at the head of `input`.
    pub fn unpack_amount(input: &[u8]) -> (r: Result<u64, ProgramError>)
        ensures
            match spec_unpack_amount(input@) {
                Some(amount) => r is Ok && r->Ok_0 == amount,
                None => r is Err && r->Err_0 == ProgramError::escrow(
                    EscrowError::InvalidInstruction,
                ),
            },
    {
        crate::instruction::EscrowInstruction::unpack_amount(input)
    }
}

/// The state of one escrow in the compact schema.
#[derive(Debug, Clone, Copy, PartialEq, Eq)]
pub struct Escrow {
    pub is_initialized: bool,
    pub payer_pubkey: Pubkey,
    pub payer_receiving_token_account_pubkey: Pubkey,
    pub payer_temp_token_account_pubkey: Pubkey,
    pub authority_pubkey: Pubkey,
    pub amount: u64,
    pub fee: u64,
}

/// A record of the compact schema as a mathematical value.
pub struct EscrowView {
    pub is_initialized: bool,
    pub payer_pubkey: Seq<u8>,
    pub payer_receiving_token_account_pubkey: Seq<u8>,
    pub payer_temp_token_account_pubkey: Seq<u8>,
    pub authority_pubkey: Seq<u8>,
    pub amount: u64,
    pub fee: u64,
}

impl EscrowView {
    /// Every address of the record has thirty-two bytes.
    pub open spec fn wf(self) -> bool {
        &&& self.payer_pubkey.len() == 32
        &&& self.payer_receiving_token_account_pubkey.len() == 32
        &&& self.payer_temp_token_account_pubkey.len() == 32
        &&& self.authority_pubkey.len() == 32
    }
}

impl View for Escrow {
    type V = EscrowView;

    open spec fn view(&self) -> EscrowView {
        EscrowView {
            is_initialized: self.is_initialized,
            payer_pubkey: self.payer_pubkey@,
            payer_receiving_token_account_pubkey: self.payer_receiving_token_account_pubkey@,
            payer_temp_token_account_pubkey: self.payer_temp_token_account_pubkey@,
            authority_pubkey: self.authority_pubkey@,
            amount: self.amount,
            fee: self.fee,
        }
    }
}

/// The packed form of a record.
pub open spec fn spec_pack(e: EscrowView) -> Seq<u8> {
    seq![flag_byte(e.is_initialized)] + e.payer_pubkey + e.payer_receiving_token_account_pubkey
        + e.payer_temp_token_account_pubkey + e.authority_pubkey + u64_to_le(e.amount)
        + u64_to_le(e.fee)
}

/// The record that the first 145 bytes of `src` hold, unless the flag byte
/// is neither 0 nor 1.
pub open spec fn spec_unpack_from_slice(src: Seq<u8>) -> Option<EscrowView>
    recommends
        src.len() >= 145,
{
    if src[0] > 1 {
        None
    } else {
        Some(
            EscrowView {
                is_initialized: src[0] == 1,
                payer_pubkey: src.subrange(1, 33),
                payer_receiving_token_account_pubkey: src.subrange(33, 65),
                payer_temp_token_account_pubkey: src.subrange(65, 97),
                authority_pubkey: src.subrange(97, 129),
                amount: u64_from_le(src.subrange(129, 137)) as u64,
                fee: u64_from_le(src.subrange(137, 145)) as u64,
            },
        )
    }
}

/// What reading a record without regard to its initialized flag gives.
pub open spec fn spec_unpack_unchecked(input: Seq<u8>) -> Result<EscrowView, ProgramError> {
    if input.len() != 145 {
        Err(ProgramError::InvalidAccountData)
    } else {
        match spec_unpack_from_slice(input) {
            Some(e) => Ok(e),
            None => Err(ProgramError::InvalidAccountData),
        }
    }
}

/// What reading a record gives: a record that is not initialized is
/// refused.
pub open spec fn spec_unpack(input: Seq<u8>) -> Result<EscrowView, ProgramError> {
    match spec_unpack_unchecked(input) {
        Ok(e) => if e.is_initialized {
            Ok(e)
        } else {
            Err(ProgramError::UninitializedAccount)
        },
        Err(e) => Err(e),
    }
}

impl Escrow {
    /// Number of bytes of a packed record.
    pub fn get_packed_len() -> (len: usize)
        ensures
            len == 145,
    {
        ESCROW_LEN
    }

    /// Whether the record has been populated.
    pub fn is_initialized(&self) -> (flag: bool)
        ensures
            flag == self.is_initialized,
    {
        self.is_initialized
    }

    /// Reads a record from the first 145 bytes of `src`.
    pub fn unpack_from_slice(src: &[u8]) -> (r: Result<Escrow, ProgramError>)
        requires
            src.len() >= 145,
        ensures
            match spec_unpack_from_slice(src@) {
                Some(e) => r is Ok && r->Ok_0@ == e,
                None => r is Err && r->Err_0 == ProgramError::InvalidAccountData,
            },
    {
        let is_initialized = match src[0] {
            0 => false,
            1 => true,
            _ => {
                return Err(ProgramError::InvalidAccountData);
            },
        };
        proof {
            lemma_u64_from_le_bounds(src@.subrange(129, 137));
            lemma_u64_from_le_bounds(src@.subrange(137, 145));
        }
        Ok(
            Escrow {
                is_initialized,
                payer_pubkey: Pubkey::from_slice(src, 1),
                payer_receiving_token_account_pubkey: Pubkey::from_slice(src, 33),
                payer_temp_token_account_pubkey: Pubkey::from_slice(src, 65),
                authority_pubkey: Pubkey::from_slice(src, 97),
                amount: read_u64_le(src, 129),
                fee: read_u64_le(src, 137),
            },
        )
    }

    /// Writes the record over the first 145 bytes of `dst`.
    pub fn pack_into_slice(&self, dst: &mut [u8])
        requires
            old(dst).len() >= 145,
        ensures
            final(dst)@ == spec_pack(self@) + old(dst)@.subrange(145, old(dst).len() as int),
    {
        let flag: [u8; 1] = [
            if self.is_initialized {
                1
            } else {
                0
            },
        ];
        let amount = u64_le_bytes(self.amount);
        let fee = u64_le_bytes(self.fee);
        write_bytes(dst, 0, flag.as_slice());
        write_bytes(dst, 1, self.payer_pubkey.bytes.as_slice());
        write_bytes(dst, 33, self.payer_receiving_token_account_pubkey.bytes.as_slice());
        write_bytes(dst, 65, self.payer_temp_token_account_pubkey.bytes.as_slice());
        write_bytes(dst, 97, self.authority_pubkey.bytes.as_slice());
        write_bytes(dst, 129, amount.as_slice());
        write_bytes(dst, 137, fee.as_slice());
        assert(dst@ =~= spec_pack(self@) + old(dst)@.subrange(145, old(dst).len() as int));
    }

    /// Reads a record that must be initialized.
    pub fn unpack(input: &[u8]) -> (r: Result<Escrow, ProgramError>)
        ensures
            match spec_unpack(input@) {
                Ok(e) => r is Ok && r->Ok_0@ == e,
                Err(e) => r is Err && r->Err_0 == e,
            },
    {
        let value = Self::unpack_unchecked(input)?;
        if value.is_initialized() {
            Ok(value)
        } else {
            Err(ProgramError::UninitializedAccount)
        }
    }

    /// Reads a record, initialized or not.
    pub fn unpack_unchecked(input: &[u8]) -> (r: Result<Escrow, ProgramError>)
        ensures
            match spec_unpack_unchecked(input@) {
                Ok(e) => r is Ok && r->Ok_0@ == e,
                Err(e) => r is Err && r->Err_0 == e,
            },
    {
        if input.len() != ESCROW_LEN {
            return Err(ProgramError::InvalidAccountData);
        }
        Self::unpack_from_slice(input)
    }

    /// Writes the record into `dst`, which must have exactly 145 bytes;
    /// otherwise `dst` is left as it is and the data is reported invalid.
    pub fn pack(src: Escrow, dst: &mut [u8]) -> (r: Result<(), ProgramError>)
        ensures
            old(dst).len() == 145 ==> r is Ok && final(dst)@ == spec_pack(src@),
            old(dst).len() != 145 ==> r is Err && r->Err_0 == ProgramError::InvalidAccountData
                && final(dst)@ == old(dst)@,
    {
        if dst.len() != ESCROW_LEN {
            return Err(ProgramError::InvalidAccountData);
        }
        src.pack_into_slice(dst);
        assert(dst@ =~= spec_pack(src@));
        Ok(())
    }
}

/// The parts of a record's layout can be read back from their places.
proof fn lemma_layout_parts(
    flag: Seq<u8>,
    payer: Seq<u8>,
    receiving: Seq<u8>,
    custody: Seq<u8>,
    authority: Seq<u8>,
    amount: Seq<u8>,
    fee: Seq<u8>,
)
    requires
        flag.len() == 1,
        payer.len() == 32,
        receiving.len() == 32,
        custody.len() == 32,
        authority.len() == 32,
        amount.len() == 8,
        fee.len() == 8,
    ensures
        ({
            let b = flag + payer + receiving + custody + authority + amount + fee;
            &&& b.len() == 145
            &&& b[0] == flag[0]
            &&& b.subrange(1, 33) == payer
            &&& b.subrange(33, 65) == receiving
            &&& b.subrange(65, 97) == custody
            &&& b.subrange(97, 129) == authority
            &&& b.subrange(129, 137) == amount
            &&& b.subrange(137, 145) == fee
        }),
{
    let b = flag + payer + receiving + custody + authority + amount + fee;
    assert(b.subrange(1, 33) =~= payer);
    assert(b.subrange(33, 65) =~= receiving);
    assert(b.subrange(65, 97) =~= custody);
    assert(b.subrange(97, 129) =~= authority);
    assert(b.subrange(129, 137) =~= amount);
    assert(b.subrange(137, 145) =~= fee);
}

/// Unpacking a packed record gives the record back.
pub proof fn lemma_unpack_pack(e: EscrowView)
    requires
        e.wf(),
    ensures
        spec_pack(e).len() == 145,
        spec_unpack_unchecked(spec_pack(e)) is Ok,
        spec_unpack_unchecked(spec_pack(e))->Ok_0 == e,
{
    lemma_u64_le_round_trip(e.amount);
    lemma_u64_le_round_trip(e.fee);
    lemma_layout_parts(
        seq![flag_byte(e.is_initialized)],
        e.payer_pubkey,
        e.payer_receiving_token_account_pubkey,
        e.payer_temp_token_account_pubkey,
        e.authority_pubkey,
        u64_to_le(e.amount),
        u64_to_le(e.fee),
    );
}

/// Packing the record read from 145 bytes gives those bytes back.
pub proof fn lemma_pack_unpack(input: Seq<u8>)
    requires
        spec_unpack_unchecked(input) is Ok,
    ensures
        spec_pack(spec_unpack_unchecked(input)->Ok_0) == input,
        spec_unpack_unchecked(input)->Ok_0.wf(),
{
    let e = spec_unpack_unchecked(input)->Ok_0;
    lemma_u64_le_bytes_round_trip(input.subrange(129, 137));
    lemma_u64_le_bytes_round_trip(input.subrange(137, 145));
    assert(spec_pack(e) =~= input);
}

} // verus!
