//! The escrow record and its fixed-width byte layout.
//!
//! | bytes      | field                              |
//! |------------|------------------------------------|
//! | 0          | initialized flag (0 or 1)          |
//! | 1          | settled flag (0 or 1)              |
//! | 2 – 33     | payer                              |
//! | 34 – 65    | payee                              |
//! | 66 – 97    | payer's custody account            |
//! | 98 – 129   | authority                          |
//! | 130 – 161  | fee taker                          |
//! | 162 – 169  | amount, least significant first    |
//! | 170 – 177  | fee, least significant first       |

use crate::bytes::{
    lemma_u64_from_le_bounds, lemma_u64_le_bytes_round_trip, lemma_u64_le_round_trip,
    read_u64_le, u64_from_le, u64_le_bytes, u64_to_le,
};
use crate::error::ProgramError;
use crate::pubkey::Pubkey;
use vstd::prelude::*;

verus! {

/// Number of bytes of a packed escrow record.
pub const ESCROW_LEN: usize = 178;

/// The state of one escrow.
#[derive(Debug, Clone, Copy, PartialEq, Eq)]
pub struct Escrow {
    pub is_initialized: bool,
    pub is_settled: bool,
    pub payer_pubkey: Pubkey,
    pub payee_pubkey: Pubkey,
    pub payer_temp_token_account_pubkey: Pubkey,
    pub authority_pubkey: Pubkey,
    pub fee_taker_pubkey: Pubkey,
    pub amount: u64,
    pub fee: u64,
}

/// An escrow record as a mathematical value: addresses are byte sequences.
pub struct EscrowView {
    pub is_initialized: bool,
    pub is_settled: bool,
    pub payer_pubkey: Seq<u8>,
    pub payee_pubkey: Seq<u8>,
    pub payer_temp_token_account_pubkey: Seq<u8>,
    pub authority_pubkey: Seq<u8>,
    pub fee_taker_pubkey: Seq<u8>,
    pub amount: u64,
    pub fee: u64,
}

impl EscrowView {
    /// Every address of the record has thirty-two bytes.
    pub open spec fn wf(self) -> bool {
        &&& self.payer_pubkey.len() == 32
        &&& self.payee_pubkey.len() == 32
        &&& self.payer_temp_token_account_pubkey.len() == 32
        &&& self.authority_pubkey.len() == 32
        &&& self.fee_taker_pubkey.len() == 32
    }
}

impl View for Escrow {
    type V = EscrowView;

    open spec fn view(&self) -> EscrowView {
        EscrowView {
            is_initialized: self.is_initialized,
            is_settled: self.is_settled,
            payer_pubkey: self.payer_pubkey@,
            payee_pubkey: self.payee_pubkey@,
            payer_temp_token_account_pubkey: self.payer_temp_token_account_pubkey@,
            authority_pubkey: self.authority_pubkey@,
            fee_taker_pubkey: self.fee_taker_pubkey@,
            amount: self.amount,
            fee: self.fee,
        }
    }
}

/// The byte that stores a flag.
pub open spec fn flag_byte(flag: bool) -> u8 {
    if flag {
        1
    } else {
        0
    }
}

/// The packed form of a record.
pub open spec fn spec_pack(e: EscrowView) -> Seq<u8> {
    seq![flag_byte(e.is_initialized), flag_byte(e.is_settled)] + e.payer_pubkey + e.payee_pubkey
        + e.payer_temp_token_account_pubkey + e.authority_pubkey + e.fee_taker_pubkey
        + u64_to_le(e.amount) + u64_to_le(e.fee)
}

/// The record that the first 178 bytes of `src` hold, unless one of the two
/// flag bytes is neither 0 nor 1.
pub open spec fn spec_unpack_from_slice(src: Seq<u8>) -> Option<EscrowView>
    recommends
        src.len() >= 178,
{
    if src[0] > 1 || src[1] > 1 {
        None
    } else {
        Some(
            EscrowView {
                is_initialized: src[0] == 1,
                is_settled: src[1] == 1,
                payer_pubkey: src.subrange(2, 34),
                payee_pubkey: src.subrange(34, 66),
                payer_temp_token_account_pubkey: src.subrange(66, 98),
                authority_pubkey: src.subrange(98, 130),
                fee_taker_pubkey: src.subrange(130, 162),
                amount: u64_from_le(src.subrange(162, 170)) as u64,
                fee: u64_from_le(src.subrange(170, 178)) as u64,
            },
        )
    }
}

/// What reading a record without regard to its initialized flag gives:
/// the record, or invalid account data where `input` has the wrong length
/// or a malformed flag.
pub open spec fn spec_unpack_unchecked(input: Seq<u8>) -> Result<EscrowView, ProgramError> {
    if input.len() != 178 {
        Err(ProgramError::InvalidAccountData)
    } else {
        match spec_unpack_from_slice(input) {
            Some(e) => Ok(e),
            None => Err(ProgramError::InvalidAccountData),
        }
    }
}

/// What reading a record gives: as [`spec_unpack_unchecked`], but a record
/// that is not initialized is refused.
pub open spec fn spec_unpack(input: Seq<u8>) -> Result<EscrowView, ProgramError> {
    match spec_unpack_unchecked(input) {
        Ok(e) => if e.is_initialized {
            Ok(e)
        } else {
            Err(ProgramError::UninitializedAccount)
        },
        Err(e) => Err(e),
    }
}

/// Copies `src` over `dst[offset .. offset + src.len()]`.
pub(crate) fn write_bytes(dst: &mut [u8], offset: usize, src: &[u8])
    requires
        offset + src.len() <= old(dst).len(),
    ensures
        final(dst)@ == old(dst)@.subrange(0, offset as int) + src@ + old(dst)@.subrange(
            offset + src.len(),
            old(dst).len() as int,
        ),
{
    let mut i: usize = 0;
    while i < src.len()
        invariant
            i <= src.len(),
            dst.len() == old(dst).len(),
            offset + src.len() <= dst.len(),
            forall|j: int| 0 <= j < offset ==> dst@[j] == old(dst)@[j],
            forall|j: int| 0 <= j < i ==> dst@[offset + j] == src@[j],
            forall|j: int| offset + i <= j < dst.len() ==> dst@[j] == old(dst)@[j],
        decreases src.len() - i,
    {
        dst[offset + i] = src[i];
        i += 1;
    }
    assert(dst@ =~= old(dst)@.subrange(0, offset as int) + src@ + old(dst)@.subrange(
        offset + src.len(),
        old(dst).len() as int,
    ));
}

impl Escrow {
    /// Number of bytes of a packed record.
    pub fn get_packed_len() -> (len: usize)
        ensures
            len == 178,
    {
        ESCROW_LEN
    }

    /// Whether the record has been populated.
    pub fn is_initialized(&self) -> (flag: bool)
        ensures
            flag == self.is_initialized,
    {
        self.is_initialized
    }

    /// Whether the escrow has been settled.
    pub fn is_settled(&self) -> (flag: bool)
        ensures
            flag == self.is_settled,
    {
        self.is_settled
    }

    /// Reads a record from the first 178 bytes of `src`.
    pub fn unpack_from_slice(src: &[u8]) -> (r: Result<Escrow, ProgramError>)
        requires
            src.len() >= 178,
        ensures
            match spec_unpack_from_slice(src@) {
                Some(e) => r is Ok && r->Ok_0@ == e,
                None => r is Err && r->Err_0 == ProgramError::InvalidAccountData,
            },
    {
        let is_initialized = match src[0] {
            0 => false,
            1 => true,
            _ => {
                return Err(ProgramError::InvalidAccountData);
            },
        };
        let is_settled = match src[1] {
            0 => false,
            1 => true,
            _ => {
                return Err(ProgramError::InvalidAccountData);
            },
        };
        proof {
            lemma_u64_from_le_bounds(src@.subrange(162, 170));
            lemma_u64_from_le_bounds(src@.subrange(170, 178));
        }
        Ok(
            Escrow {
                is_initialized,
                is_settled,
                payer_pubkey: Pubkey::from_slice(src, 2),
                payee_pubkey: Pubkey::from_slice(src, 34),
                payer_temp_token_account_pubkey: Pubkey::from_slice(src, 66),
                authority_pubkey: Pubkey::from_slice(src, 98),
                fee_taker_pubkey: Pubkey::from_slice(src, 130),
                amount: read_u64_le(src, 162),
                fee: read_u64_le(src, 170),
            },
        )
    }

    /// Writes the record over the first 178 bytes of `dst`.
    pub fn pack_into_slice(&self, dst: &mut [u8])
        requires
            old(dst).len() >= 178,
        ensures
            final(dst)@ == spec_pack(self@) + old(dst)@.subrange(178, old(dst).len() as int),
    {
        let flags: [u8; 2] = [
            if self.is_initialized {
                1
            } else {
                0
            },
            if self.is_settled {
                1
            } else {
                0
            },
        ];
        let amount = u64_le_bytes(self.amount);
        let fee = u64_le_bytes(self.fee);
        write_bytes(dst, 0, flags.as_slice());
        write_bytes(dst, 2, self.payer_pubkey.bytes.as_slice());
        write_bytes(dst, 34, self.payee_pubkey.bytes.as_slice());
        write_bytes(dst, 66, self.payer_temp_token_account_pubkey.bytes.as_slice());
        write_bytes(dst, 98, self.authority_pubkey.bytes.as_slice());
        write_bytes(dst, 130, self.fee_taker_pubkey.bytes.as_slice());
        write_bytes(dst, 162, amount.as_slice());
        write_bytes(dst, 170, fee.as_slice());
        assert(dst@ =~= spec_pack(self@) + old(dst)@.subrange(178, old(dst).len() as int));
    }

    /// Reads a record that must be initialized.
    pub fn unpack(input: &[u8]) -> (r: Result<Escrow, ProgramError>)
        ensures
            match spec_unpack(input@) {
                Ok(e) => r is Ok && r->Ok_0@ == e,
                Err(e) => r is Err && r->Err_0 == e,
            },
    {
        let value = Self::unpack_unchecked(input)?;
        if value.is_initialized() {
            Ok(value)
        } else {
            Err(ProgramError::UninitializedAccount)
        }
    }

    /// Reads a record, initialized or not.
    pub fn unpack_unchecked(input: &[u8]) -> (r: Result<Escrow, ProgramError>)
        ensures
            match spec_unpack_unchecked(input@) {
                Ok(e) => r is Ok && r->Ok_0@ == e,
                Err(e) => r is Err && r->Err_0 == e,
            },
    {
        if input.len() != ESCROW_LEN {
            return Err(ProgramError::InvalidAccountData);
        }
        Self::unpack_from_slice(input)
    }

    /// Writes the record into `dst`, which must have exactly 178 bytes;
    /// otherwise `dst` is left as it is and the data is reported invalid.
    pub fn pack(src: Escrow, dst: &mut [u8]) -> (r: Result<(), ProgramError>)
        ensures
            old(dst).len() == 178 ==> r is Ok && final(dst)@ == spec_pack(src@),
            old(dst).len() != 178 ==> r is Err && r->Err_0 == ProgramError::InvalidAccountData
                && final(dst)@ == old(dst)@,
    {
        if dst.len() != ESCROW_LEN {
            return Err(ProgramError::InvalidAccountData);
        }
        src.pack_into_slice(dst);
        assert(dst@ =~= spec_pack(src@));
        Ok(())
    }

    /// The packed record as a fresh buffer.
    pub fn to_bytes(&self) -> (data: Vec<u8>)
        ensures
            data@ == spec_pack(self@),
    {
        let mut data: Vec<u8> = vec![0u8; 178];
        self.pack_into_slice(data.as_mut_slice());
        assert(data@ =~= spec_pack(self@));
        data
    }
}

/// The parts of a record's layout can be read back from their places.
proof fn lemma_layout_parts(
    flags: Seq<u8>,
    payer: Seq<u8>,
    payee: Seq<u8>,
    custody: Seq<u8>,
    authority: Seq<u8>,
    fee_taker: Seq<u8>,
    amount: Seq<u8>,
    fee: Seq<u8>,
)
    requires
        flags.len() == 2,
        payer.len() == 32,
        payee.len() == 32,
        custody.len() == 32,
        authority.len() == 32,
        fee_taker.len() == 32,
        amount.len() == 8,
        fee.len() == 8,
    ensures
        ({
            let b = flags + payer + payee + custody + authority + fee_taker + amount + fee;
            &&& b.len() == 178
            &&& b[0] == flags[0]
            &&& b[1] == flags[1]
            &&& b.subrange(2, 34) == payer
            &&& b.subrange(34, 66) == payee
            &&& b.subrange(66, 98) == custody
            &&& b.subrange(98, 130) == authority
            &&& b.subrange(130, 162) == fee_taker
            &&& b.subrange(162, 170) == amount
            &&& b.subrange(170, 178) == fee
        }),
{
    let b = flags + payer + payee + custody + authority + fee_taker + amount + fee;
    assert(b.subrange(2, 34) =~= payer);
    assert(b.subrange(34, 66) =~= payee);
    assert(b.subrange(66, 98) =~= custody);
    assert(b.subrange(98, 130) =~= authority);
    assert(b.subrange(130, 162) =~= fee_taker);
    assert(b.subrange(162, 170) =~= amount);
    assert(b.subrange(170, 178) =~= fee);
}

/// Unpacking a packed record gives the record back.
pub proof fn lemma_unpack_pack(e: EscrowView)
    requires
        e.wf(),
    ensures
        spec_pack(e).len() == 178,
        spec_unpack_unchecked(spec_pack(e)) is Ok,
        spec_unpack_unchecked(spec_pack(e))->Ok_0 == e,
{
    lemma_u64_le_round_trip(e.amount);
    lemma_u64_le_round_trip(e.fee);
    lemma_layout_parts(
        seq![flag_byte(e.is_initialized), flag_byte(e.is_settled)],
        e.payer_pubkey,
        e.payee_pubkey,
        e.payer_temp_token_account_pubkey,
        e.authority_pubkey,
        e.fee_taker_pubkey,
        u64_to_le(e.amount),
        u64_to_le(e.fee),
    );
}

/// Packing the record read from 178 bytes gives those bytes back.
pub proof fn lemma_pack_unpack(input: Seq<u8>)
    requires
        spec_unpack_unchecked(input) is Ok,
    ensures
        spec_pack(spec_unpack_unchecked(input)->Ok_0) == input,
        spec_unpack_unchecked(input)->Ok_0.wf(),
{
    let e = spec_unpack_unchecked(input)->Ok_0;
    lemma_u64_le_bytes_round_trip(input.subrange(162, 170));
    lemma_u64_le_bytes_round_trip(input.subrange(170, 178));
    assert(spec_pack(e) =~= input);
}

} // verus!
