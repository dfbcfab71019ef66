//! Typed failures and their stable numeric codes.

use vstd::prelude::*;

verus! {

/// Failures specific to the escrow program.
#[derive(Debug, Clone, Copy, PartialEq, Eq, Structural)]
pub enum EscrowError {
    /// The instruction bytes name no known operation or are too short.
    InvalidInstruction,
    /// The escrow account's balance is below the rent-exempt minimum.
    NotRentExempt,
    /// The custody account does not hold the amount named at creation.
    ExpectedAmountMismatch,
    /// The supplied authority is not this program.
    InvalidAuthorityId,
    /// A balance computation would leave the 64-bit range.
    AmountOverflow,
    /// The escrow has already been settled.
    AccountAlreadySettled,
    /// The fee exceeds the amount it is taken from.
    FeeOverflow,
    /// The escrow has not been settled yet.
    AccountNotSettled,
    /// The custody and receiving accounts hold different kinds of asset.
    InvalidMintAddress,
}

impl EscrowError {
    /// The number under which the failure is reported to the caller.
    pub open spec fn spec_code(self) -> u32 {
        match self {
            EscrowError::InvalidInstruction => 0,
            EscrowError::NotRentExempt => 1,
            EscrowError::ExpectedAmountMismatch => 2,
            EscrowError::InvalidAuthorityId => 3,
            EscrowError::AmountOverflow => 4,
            EscrowError::AccountAlreadySettled => 5,
            EscrowError::FeeOverflow => 6,
            EscrowError::AccountNotSettled => 7,
            EscrowError::InvalidMintAddress => 8,
        }
    }

    /// The number under which the failure is reported to the caller.
    pub fn code(self) -> (code: u32)
        ensures
            code == self.spec_code(),
    {
        match self {
            EscrowError::InvalidInstruction => 0,
            EscrowError::NotRentExempt => 1,
            EscrowError::ExpectedAmountMismatch => 2,
            EscrowError::InvalidAuthorityId => 3,
            EscrowError::AmountOverflow => 4,
            EscrowError::AccountAlreadySettled => 5,
            EscrowError::FeeOverflow => 6,
            EscrowError::AccountNotSettled => 7,
            EscrowError::InvalidMintAddress => 8,
        }
    }

    /// The failure reported under `code`, if there is one.
    pub fn from_code(code: u32) -> (error: Option<EscrowError>)
        ensures
            match error {
                Some(e) => e.spec_code() == code,
                None => forall|e: EscrowError| e.spec_code() != code,
            },
    {
        match code {
            0 => Some(EscrowError::InvalidInstruction),
            1 => Some(EscrowError::NotRentExempt),
            2 => Some(EscrowError::ExpectedAmountMismatch),
            3 => Some(EscrowError::InvalidAuthorityId),
            4 => Some(EscrowError::AmountOverflow),
            5 => Some(EscrowError::AccountAlreadySettled),
            6 => Some(EscrowError::FeeOverflow),
            7 => Some(EscrowError::AccountNotSettled),
            8 => Some(EscrowError::InvalidMintAddress),
            _ => None,
        }
    }

    /// A short description of the failure.
    pub fn message(self) -> (text: &'static str)
        ensures
            text@ == self.spec_message(),
    {
        match self {
            EscrowError::InvalidInstruction => "Invalid Instruction",
            EscrowError::NotRentExempt => "No rent excemption",
            EscrowError::ExpectedAmountMismatch => "Amount mismatch",
            EscrowError::InvalidAuthorityId => "Authority is invalid",
            EscrowError::AmountOverflow => "Amount overflow",
            EscrowError::AccountAlreadySettled => "Account already settled",
            EscrowError::FeeOverflow => "Fee overflow",
            EscrowError::AccountNotSettled => "Account settled",
            EscrowError::InvalidMintAddress => "Invalid mint address",
        }
    }

    /// A short description of the failure.
    pub open spec fn spec_message(self) -> Seq<char> {
        match self {
            EscrowError::InvalidInstruction => "Invalid Instruction"@,
            EscrowError::NotRentExempt => "No rent excemption"@,
            EscrowError::ExpectedAmountMismatch => "Amount mismatch"@,
            EscrowError::InvalidAuthorityId => "Authority is invalid"@,
            EscrowError::AmountOverflow => "Amount overflow"@,
            EscrowError::AccountAlreadySettled => "Account already settled"@,
            EscrowError::FeeOverflow => "Fee overflow"@,
            EscrowError::AccountNotSettled => "Account settled"@,
            EscrowError::InvalidMintAddress => "Invalid mint address"@,
        }
    }
}

/// Distinct escrow failures are reported under distinct numbers.
pub proof fn lemma_escrow_codes_distinct(a: EscrowError, b: EscrowError)
    requires
        a.spec_code() == b.spec_code(),
    ensures
        a == b,
{
}

/// Failures as the host environment reports them.
#[derive(Debug, Clone, Copy, PartialEq, Eq, Structural)]
pub enum ProgramError {
    /// A failure defined by the program itself, with its number.
    Custom(u32),
    InvalidArgument,
    InvalidInstructionData,
    InvalidAccountData,
    AccountDataTooSmall,
    InsufficientFunds,
    IncorrectProgramId,
    MissingRequiredSignature,
    AccountAlreadyInitialized,
    UninitializedAccount,
    NotEnoughAccountKeys,
    AccountBorrowFailed,
    MaxSeedLengthExceeded,
    InvalidSeeds,
    BorshIoError,
    AccountNotRentExempt,
    UnsupportedSysvar,
    IllegalOwner,
    MaxAccountsDataAllocationsExceeded,
    InvalidRealloc,
    MaxInstructionTraceLengthExceeded,
    BuiltinProgramsMustConsumeComputeUnits,
    InvalidAccountOwner,
    ArithmeticOverflow,
}

/// Built-in failures are numbered in the upper half of the 64-bit code.
pub open spec fn builtin_code(index: int) -> int {
    index * 0x1_0000_0000
}

impl ProgramError {
    /// Position of a built-in failure in the host's numbering; 0 for a
    /// program-defined one.
    pub open spec fn builtin_index(self) -> int {
        match self {
            ProgramError::Custom(_) => 0,
            ProgramError::InvalidArgument => 2,
            ProgramError::InvalidInstructionData => 3,
            ProgramError::InvalidAccountData => 4,
            ProgramError::AccountDataTooSmall => 5,
            ProgramError::InsufficientFunds => 6,
            ProgramError::IncorrectProgramId => 7,
            ProgramError::MissingRequiredSignature => 8,
            ProgramError::AccountAlreadyInitialized => 9,
            ProgramError::UninitializedAccount => 10,
            ProgramError::NotEnoughAccountKeys => 11,
            ProgramError::AccountBorrowFailed => 12,
            ProgramError::MaxSeedLengthExceeded => 13,
            ProgramError::InvalidSeeds => 14,
            ProgramError::BorshIoError => 15,
            ProgramError::AccountNotRentExempt => 16,
            ProgramError::UnsupportedSysvar => 17,
            ProgramError::IllegalOwner => 18,
            ProgramError::MaxAccountsDataAllocationsExceeded => 19,
            ProgramError::InvalidRealloc => 20,
            ProgramError::MaxInstructionTraceLengthExceeded => 21,
            ProgramError::BuiltinProgramsMustConsumeComputeUnits => 22,
            ProgramError::InvalidAccountOwner => 23,
            ProgramError::ArithmeticOverflow => 24,
        }
    }

    /// The 64-bit code of the failure: a program-defined failure is reported
    /// under its own number, except that number zero, which would read as
    /// success, takes the first built-in code.
    pub open spec fn spec_to_code(self) -> int {
        match self {
            ProgramError::Custom(n) => if n == 0 {
                builtin_code(1)
            } else {
                n as int
            },
            _ => builtin_code(self.builtin_index()),
        }
    }

    /// The failure that a 64-bit code stands for. A code that is not built in
    /// reads as the program-defined failure of its lower 32 bits.
    pub open spec fn spec_from_code(code: u64) -> ProgramError {
        if code == builtin_code(1) {
            ProgramError::Custom(0)
        } else if code == builtin_code(2) {
            ProgramError::InvalidArgument
        } else if code == builtin_code(3) {
            ProgramError::InvalidInstructionData
        } else if code == builtin_code(4) {
            ProgramError::InvalidAccountData
        } else if code == builtin_code(5) {
            ProgramError::AccountDataTooSmall
        } else if code == builtin_code(6) {
            ProgramError::InsufficientFunds
        } else if code == builtin_code(7) {
            ProgramError::IncorrectProgramId
        } else if code == builtin_code(8) {
            ProgramError::MissingRequiredSignature
        } else if code == builtin_code(9) {
            ProgramError::AccountAlreadyInitialized
        } else if code == builtin_code(10) {
            ProgramError::UninitializedAccount
        } else if code == builtin_code(11) {
            ProgramError::NotEnoughAccountKeys
        } else if code == builtin_code(12) {
            ProgramError::AccountBorrowFailed
        } else if code == builtin_code(13) {
            ProgramError::MaxSeedLengthExceeded
        } else if code == builtin_code(14) {
            ProgramError::InvalidSeeds
        } else if code == builtin_code(15) {
            ProgramError::BorshIoError
        } else if code == builtin_code(16) {
            ProgramError::AccountNotRentExempt
        } else if code == builtin_code(17) {
            ProgramError::UnsupportedSysvar
        } else if code == builtin_code(18) {
            ProgramError::IllegalOwner
        } else if code == builtin_code(19) {
            ProgramError::MaxAccountsDataAllocationsExceeded
        } else if code == builtin_code(20) {
            ProgramError::InvalidRealloc
        } else if code == builtin_code(21) {
            ProgramError::MaxInstructionTraceLengthExceeded
        } else if code == builtin_code(22) {
            ProgramError::BuiltinProgramsMustConsumeComputeUnits
        } else if code == builtin_code(23) {
            ProgramError::InvalidAccountOwner
        } else if code == builtin_code(24) {
            ProgramError::ArithmeticOverflow
        } else {
            ProgramError::Custom((code % 0x1_0000_0000) as u32)
        }
    }

    /// The 64-bit code under which the failure is handed to the host.
    pub fn to_code(self) -> (code: u64)
        ensures
            code == self.spec_to_code(),
    {
        match self {
            ProgramError::Custom(n) => if n == 0 {
                0x1_0000_0000
            } else {
                n as u64
            },
            ProgramError::InvalidArgument => 0x2_0000_0000,
            ProgramError::InvalidInstructionData => 0x3_0000_0000,
            ProgramError::InvalidAccountData => 0x4_0000_0000,
            ProgramError::AccountDataTooSmall => 0x5_0000_0000,
            ProgramError::InsufficientFunds => 0x6_0000_0000,
            ProgramError::IncorrectProgramId => 0x7_0000_0000,
            ProgramError::MissingRequiredSignature => 0x8_0000_0000,
            ProgramError::AccountAlreadyInitialized => 0x9_0000_0000,
            ProgramError::UninitializedAccount => 0xa_0000_0000,
            ProgramError::NotEnoughAccountKeys => 0xb_0000_0000,
            ProgramError::AccountBorrowFailed => 0xc_0000_0000,
            ProgramError::MaxSeedLengthExceeded => 0xd_0000_0000,
            ProgramError::InvalidSeeds => 0xe_0000_0000,
            ProgramError::BorshIoError => 0xf_0000_0000,
            ProgramError::AccountNotRentExempt => 0x10_0000_0000,
            ProgramError::UnsupportedSysvar => 0x11_0000_0000,
            ProgramError::IllegalOwner => 0x12_0000_0000,
            ProgramError::MaxAccountsDataAllocationsExceeded => 0x13_0000_0000,
            ProgramError::InvalidRealloc => 0x14_0000_0000,
            ProgramError::MaxInstructionTraceLengthExceeded => 0x15_0000_0000,
            ProgramError::BuiltinProgramsMustConsumeComputeUnits => 0x16_0000_0000,
            ProgramError::InvalidAccountOwner => 0x17_0000_0000,
            ProgramError::ArithmeticOverflow => 0x18_0000_0000,
        }
    }

    /// The failure that a 64-bit code stands for.
    pub fn from_code(code: u64) -> (error: ProgramError)
        ensures
            error == ProgramError::spec_from_code(code),
    {
        match code {
            0x1_0000_0000 => ProgramError::Custom(0),
            0x2_0000_0000 => ProgramError::InvalidArgument,
            0x3_0000_0000 => ProgramError::InvalidInstructionData,
            0x4_0000_0000 => ProgramError::InvalidAccountData,
            0x5_0000_0000 => ProgramError::AccountDataTooSmall,
            0x6_0000_0000 => ProgramError::InsufficientFunds,
            0x7_0000_0000 => ProgramError::IncorrectProgramId,
            0x8_0000_0000 => ProgramError::MissingRequiredSignature,
            0x9_0000_0000 => ProgramError::AccountAlreadyInitialized,
            0xa_0000_0000 => ProgramError::UninitializedAccount,
            0xb_0000_0000 => ProgramError::NotEnoughAccountKeys,
            0xc_0000_0000 => ProgramError::AccountBorrowFailed,
            0xd_0000_0000 => ProgramError::MaxSeedLengthExceeded,
            0xe_0000_0000 => ProgramError::InvalidSeeds,
            0xf_0000_0000 => ProgramError::BorshIoError,
            0x10_0000_0000 => ProgramError::AccountNotRentExempt,
            0x11_0000_0000 => ProgramError::UnsupportedSysvar,
            0x12_0000_0000 => ProgramError::IllegalOwner,
            0x13_0000_0000 => ProgramError::MaxAccountsDataAllocationsExceeded,
            0x14_0000_0000 => ProgramError::InvalidRealloc,
            0x15_0000_0000 => ProgramError::MaxInstructionTraceLengthExceeded,
            0x16_0000_0000 => ProgramError::BuiltinProgramsMustConsumeComputeUnits,
            0x17_0000_0000 => ProgramError::InvalidAccountOwner,
            0x18_0000_0000 => ProgramError::ArithmeticOverflow,
            _ => ProgramError::Custom((code % 0x1_0000_0000) as u32),
        }
    }

    /// The host-level form of an escrow failure.
    pub open spec fn escrow(e: EscrowError) -> ProgramError {
        ProgramError::Custom(e.spec_code())
    }
}

impl From<EscrowError> for ProgramError {
    fn from(e: EscrowError) -> (error: ProgramError) {
        ProgramError::Custom(e.code())
    }
}

impl vstd::std_specs::convert::FromSpecImpl<EscrowError> for ProgramError {
    open spec fn obeys_from_spec() -> bool {
        true
    }

    open spec fn from_spec(e: EscrowError) -> ProgramError {
        ProgramError::escrow(e)
    }
}

/// Reading back the code of a failure gives the failure.
pub proof fn lemma_code_round_trip(e: ProgramError)
    ensures
        0 < e.spec_to_code() <= u64::MAX,
        ProgramError::spec_from_code(e.spec_to_code() as u64) == e,
{
}

} // verus!
