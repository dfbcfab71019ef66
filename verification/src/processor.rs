//! The settlement engine: the three transitions of an escrow.
//!
//! The engine works on the accounts as plain values and never talks to
//! another program itself. A transition that needs the token program hands
//! back the calls to make; the host makes them, and the instruction fails as
//! a whole if one of them does. A settlement has a second step,
//! [`Processor::complete_settlement`], which the host runs on the accounts as
//! they stand once the calls have succeeded.
//!
//! Every transition is all or nothing: where it fails, the accounts are as
//! they were.

use crate::account::{
    clone_accounts, move_lamports, set_data, set_lamports, spec_move_lamports, views,
    with_data, with_lamports, Account, AccountView,
};
use crate::error::{EscrowError, ProgramError};
use crate::host::{find_program_address, is_rent_exempt, program_address, spec_is_rent_exempt};
use crate::instruction::{spec_unpack as spec_unpack_instruction, EscrowInstruction};
use crate::pubkey::Pubkey;
use crate::state::{
    spec_pack, spec_unpack, spec_unpack_unchecked, Escrow, EscrowView, ESCROW_LEN,
};
use crate::token::{
    close_account, close_account_instruction, set_account_owner,
    set_account_owner_instruction, token_account_state, token_program_id, token_program_key,
    transfer, transfer_instruction, unpack_token_account, Instruction, InstructionView,
};
use vstd::prelude::*;

verus! {

/// A call to another program that the host is to make.
#[derive(Debug, Clone, PartialEq, Eq)]
pub struct Invocation {
    /// The instruction to send.
    pub instruction: Instruction,
    /// The accounts to hand over with it, by their positions in the account
    /// list of the running instruction.
    pub accounts: Vec<usize>,
    /// `Some(bump)` where the call is authorised by the derived custody
    /// address, whose seeds are the custody seed and the bump; `None` where
    /// the signatures of the running instruction suffice.
    pub signer_bump: Option<u8>,
}

/// A call to another program as a mathematical value.
pub struct InvocationView {
    pub instruction: InstructionView,
    pub accounts: Seq<usize>,
    pub signer_bump: Option<u8>,
}

impl View for Invocation {
    type V = InvocationView;

    open spec fn view(&self) -> InvocationView {
        InvocationView {
            instruction: self.instruction@,
            accounts: self.accounts@,
            signer_bump: self.signer_bump,
        }
    }
}

/// What is left of a settlement once the token program has done its part.
#[derive(Debug, Clone, Copy, PartialEq, Eq)]
pub struct Settlement {
    /// Whether the custody account held the native asset, so that the
    /// balances are split here and not by the token program.
    pub is_native: bool,
    /// What goes to the taker: the held amount less the fee.
    pub amount: u64,
    /// What goes to the fee taker.
    pub fee: u64,
    /// The escrow record as it stood when the settlement began.
    pub escrow: Escrow,
}

/// The rest of a settlement as a mathematical value.
pub struct SettlementView {
    pub is_native: bool,
    pub amount: u64,
    pub fee: u64,
    pub escrow: EscrowView,
}

impl View for Settlement {
    type V = SettlementView;

    open spec fn view(&self) -> SettlementView {
        SettlementView {
            is_native: self.is_native,
            amount: self.amount,
            fee: self.fee,
            escrow: self.escrow@,
        }
    }
}

/// What the host is to do after a transition has succeeded: make the calls
/// in order, then, where there is a settlement, complete it.
#[derive(Debug, Clone, PartialEq, Eq)]
pub struct Plan {
    pub invocations: Vec<Invocation>,
    pub settlement: Option<Settlement>,
}

/// A plan as a mathematical value.
pub struct PlanView {
    pub invocations: Seq<InvocationView>,
    pub settlement: Option<SettlementView>,
}

impl View for Plan {
    type V = PlanView;

    open spec fn view(&self) -> PlanView {
        PlanView {
            invocations: Seq::new(self.invocations@.len(), |i: int| self.invocations@[i]@),
            settlement: match self.settlement {
                Some(s) => Some(s@),
                None => None,
            },
        }
    }
}

/// The result of a successful transition: the accounts after it and the
/// plan for the host.
pub struct Outcome {
    pub accounts: Seq<AccountView>,
    pub plan: PlanView,
}

/// The seed from which the custody address is derived: the word "escrow".
pub open spec fn custody_seed() -> Seq<u8> {
    seq![101u8, 115, 99, 114, 111, 119]
}

/// The custody address of the program `program_id`, with its bump.
pub open spec fn custody_address(program_id: Seq<u8>) -> Option<(Seq<u8>, u8)> {
    program_address(custody_seed(), program_id)
}

/// Whether the result `r` of a transition, with the accounts before and
/// after it, is what `expected` asks for: on success the expected plan and
/// accounts, on failure the expected error and untouched accounts.
pub open spec fn meets(
    r: Result<Plan, ProgramError>,
    before: Seq<AccountView>,
    after: Seq<AccountView>,
    expected: Result<Outcome, ProgramError>,
) -> bool {
    match expected {
        Ok(outcome) => r is Ok && r->Ok_0@ == outcome.plan && after == outcome.accounts,
        Err(e) => r is Err && r->Err_0 == e && after == before,
    }
}

/// The first reason, if any, for which opening an escrow over `amount` is
/// refused. Accounts, by position: 0 payer, 1 custody account, 2 authority,
/// 3 escrow account, 4 rent parameters, 5 token program.
pub open spec fn init_rejection(a: Seq<AccountView>, amount: u64, program_id: Seq<u8>) -> Option<
    ProgramError,
> {
    if a.len() < 1 {
        Some(ProgramError::NotEnoughAccountKeys)
    } else if !a[0].is_signer {
        Some(ProgramError::MissingRequiredSignature)
    } else if a.len() < 2 {
        Some(ProgramError::NotEnoughAccountKeys)
    } else if a[1].owner != token_program_key() {
        Some(ProgramError::IncorrectProgramId)
    } else if token_account_state(a[1].data) is Err {
        Some(ProgramError::spec_from_code(token_account_state(a[1].data)->Err_0))
    } else if token_account_state(a[1].data)->Ok_0.amount != amount {
        Some(ProgramError::escrow(EscrowError::ExpectedAmountMismatch))
    } else if a.len() < 3 {
        Some(ProgramError::NotEnoughAccountKeys)
    } else if !a[2].is_signer {
        Some(ProgramError::MissingRequiredSignature)
    } else if a.len() < 5 {
        Some(ProgramError::NotEnoughAccountKeys)
    } else if spec_is_rent_exempt(
        a[4].key,
        a[4].data,
        a[3].lamports,
        a[3].data.len() as usize,
    ) is Err {
        Some(
            spec_is_rent_exempt(
                a[4].key,
                a[4].data,
                a[3].lamports,
                a[3].data.len() as usize,
            )->Err_0,
        )
    } else if !spec_is_rent_exempt(
        a[4].key,
        a[4].data,
        a[3].lamports,
        a[3].data.len() as usize,
    )->Ok_0 {
        Some(ProgramError::escrow(EscrowError::NotRentExempt))
    } else if spec_unpack_unchecked(a[3].data) is Err {
        Some(spec_unpack_unchecked(a[3].data)->Err_0)
    } else if spec_unpack_unchecked(a[3].data)->Ok_0.is_initialized {
        Some(ProgramError::AccountAlreadyInitialized)
    } else if custody_address(program_id) is None {
        Some(ProgramError::InvalidSeeds)
    } else if a.len() < 6 {
        Some(ProgramError::NotEnoughAccountKeys)
    } else if a[5].key != token_program_key() {
        Some(ProgramError::IncorrectProgramId)
    } else {
        None
    }
}

/// The record that opening an escrow writes: the parties and the amount are
/// filled in, the record is marked initialized and unsettled, and the
/// fields that settlement fills in are kept as the account held them.
pub open spec fn init_record(a: Seq<AccountView>, amount: u64) -> EscrowView {
    EscrowView {
        is_initialized: true,
        is_settled: false,
        payer_pubkey: a[0].key,
        payer_temp_token_account_pubkey: a[1].key,
        authority_pubkey: a[2].key,
        amount,
        ..spec_unpack_unchecked(a[3].data)->Ok_0
    }
}

/// The call that hands the custody account to the custody address.
pub open spec fn init_invocation(a: Seq<AccountView>, program_id: Seq<u8>) -> InvocationView {
    InvocationView {
        instruction: set_account_owner_instruction(
            a[5].key,
            a[1].key,
            custody_address(program_id)->Some_0.0,
            a[0].key,
            a[0].key,
        ),
        accounts: seq![1usize, 0usize, 5usize],
        signer_bump: None,
    }
}

/// What opening an escrow over `amount` does.
pub open spec fn init_spec(a: Seq<AccountView>, amount: u64, program_id: Seq<u8>) -> Result<
    Outcome,
    ProgramError,
> {
    match init_rejection(a, amount, program_id) {
        Some(e) => Err(e),
        None => Ok(
            Outcome {
                accounts: with_data(a, a[3].key, spec_pack(init_record(a, amount))),
                plan: PlanView {
                    invocations: seq![init_invocation(a, program_id)],
                    settlement: None,
                },
            },
        ),
    }
}

/// The first reason, if any, for which a settlement with `fee` is refused.
/// Accounts, by position: 0 authority, 1 taker, 2 fee taker, 3 custody
/// account, 4 escrow account, 5 receiver of the custody account's rent,
/// 6 token program, 7 custody address.
pub open spec fn settle_rejection(a: Seq<AccountView>, fee: u64, program_id: Seq<u8>) -> Option<
    ProgramError,
> {
    if a.len() < 1 {
        Some(ProgramError::NotEnoughAccountKeys)
    } else if !a[0].is_signer {
        Some(ProgramError::MissingRequiredSignature)
    } else if a.len() < 4 {
        Some(ProgramError::NotEnoughAccountKeys)
    } else if token_account_state(a[3].data) is Err {
        Some(ProgramError::spec_from_code(token_account_state(a[3].data)->Err_0))
    } else if a.len() < 5 {
        Some(ProgramError::NotEnoughAccountKeys)
    } else if spec_unpack(a[4].data) is Err {
        Some(spec_unpack(a[4].data)->Err_0)
    } else if spec_unpack(a[4].data)->Ok_0.is_settled {
        Some(ProgramError::escrow(EscrowError::AccountAlreadySettled))
    } else if spec_unpack(a[4].data)->Ok_0.authority_pubkey != a[0].key {
        Some(ProgramError::InvalidAccountData)
    } else if spec_unpack(a[4].data)->Ok_0.payer_temp_token_account_pubkey != a[3].key {
        Some(ProgramError::InvalidAccountData)
    } else if a.len() < 7 {
        Some(ProgramError::NotEnoughAccountKeys)
    } else if custody_address(program_id) is None {
        Some(ProgramError::InvalidSeeds)
    } else if a.len() < 8 {
        Some(ProgramError::NotEnoughAccountKeys)
    } else if custody_address(program_id)->Some_0.0 != a[7].key {
        Some(ProgramError::InvalidAccountData)
    } else if fee > token_account_state(a[3].data)->Ok_0.amount {
        Some(ProgramError::escrow(EscrowError::FeeOverflow))
    } else if a[6].key != token_program_key() {
        Some(ProgramError::IncorrectProgramId)
    } else {
        None
    }
}

/// A call on the custody account, authorised by the custody address.
pub open spec fn custody_call(
    instruction: InstructionView,
    counterpart: usize,
    bump: u8,
) -> InvocationView {
    InvocationView {
        instruction,
        accounts: seq![3usize, counterpart, 7usize, 6usize],
        signer_bump: Some(bump),
    }
}

/// The calls of a settlement. For the native asset the custody account is
/// closed into the escrow account, from which the balances are then split.
/// For any other asset the token program moves the held amount less the fee
/// to the taker and the fee, unless it is zero, to the fee taker, and then
/// closes the custody account into the receiver of its rent.
pub open spec fn settle_invocations(a: Seq<AccountView>, fee: u64, program_id: Seq<u8>) -> Seq<
    InvocationView,
> {
    let held = token_account_state(a[3].data)->Ok_0;
    let pda = custody_address(program_id)->Some_0.0;
    let bump = custody_address(program_id)->Some_0.1;
    let net = (held.amount - fee) as u64;
    if held.is_native {
        seq![
            custody_call(close_account_instruction(a[6].key, a[3].key, a[4].key, pda, pda), 4, bump),
        ]
    } else {
        let to_taker = custody_call(
            transfer_instruction(a[6].key, a[3].key, a[1].key, pda, pda, net),
            1,
            bump,
        );
        let to_fee_taker = custody_call(
            transfer_instruction(a[6].key, a[3].key, a[2].key, pda, pda, fee),
            2,
            bump,
        );
        let close = custody_call(
            close_account_instruction(a[6].key, a[3].key, a[5].key, pda, pda),
            5,
            bump,
        );
        if fee > 0 {
            seq![to_taker, to_fee_taker, close]
        } else {
            seq![to_taker, close]
        }
    }
}

/// What is left to do once the calls of a settlement have succeeded.
pub open spec fn settle_remainder(a: Seq<AccountView>, fee: u64) -> SettlementView {
    let held = token_account_state(a[3].data)->Ok_0;
    SettlementView {
        is_native: held.is_native,
        amount: (held.amount - fee) as u64,
        fee,
        escrow: spec_unpack(a[4].data)->Ok_0,
    }
}

/// What the first step of a settlement does: it changes no account.
pub open spec fn settle_spec(a: Seq<AccountView>, fee: u64, program_id: Seq<u8>) -> Result<
    Outcome,
    ProgramError,
> {
    match settle_rejection(a, fee, program_id) {
        Some(e) => Err(e),
        None => Ok(
            Outcome {
                accounts: a,
                plan: PlanView {
                    invocations: settle_invocations(a, fee, program_id),
                    settlement: Some(settle_remainder(a, fee)),
                },
            },
        ),
    }
}

/// The accounts after the native balances have been split: the amount
/// moves from the escrow account to the taker, then the fee, unless it is
/// zero, to the fee taker. `None` where a balance would leave the 64-bit
/// range.
pub open spec fn native_payout(a: Seq<AccountView>, s: SettlementView) -> Option<
    Seq<AccountView>,
> {
    match spec_move_lamports(a, 4, 1, s.amount) {
        None => None,
        Some(paid) => if s.fee > 0 {
            spec_move_lamports(paid, 4, 2, s.fee)
        } else {
            Some(paid)
        },
    }
}

/// The first reason, if any, for which completing a settlement is refused.
pub open spec fn completion_rejection(a: Seq<AccountView>, s: SettlementView) -> Option<
    ProgramError,
> {
    if a.len() < 5 {
        Some(ProgramError::NotEnoughAccountKeys)
    } else if s.is_native && native_payout(a, s) is None {
        Some(ProgramError::escrow(EscrowError::AmountOverflow))
    } else if a[4].data.len() != 178 {
        Some(ProgramError::InvalidAccountData)
    } else {
        None
    }
}

/// The record that completing a settlement writes: settled, with the fee,
/// the taker and the fee taker filled in.
pub open spec fn settled_record(a: Seq<AccountView>, s: SettlementView) -> EscrowView {
    EscrowView {
        is_settled: true,
        fee: s.fee,
        payee_pubkey: a[1].key,
        fee_taker_pubkey: a[2].key,
        ..s.escrow
    }
}

/// The accounts after a settlement has been completed.
pub open spec fn completed_accounts(a: Seq<AccountView>, s: SettlementView) -> Seq<AccountView> {
    let paid = if s.is_native {
        native_payout(a, s)->Some_0
    } else {
        a
    };
    with_data(paid, a[4].key, spec_pack(settled_record(a, s)))
}

/// The first reason, if any, for which closing an escrow is refused.
/// Accounts, by position: 0 authority, 1 escrow account, 2 receiver of the
/// escrow account's balance.
pub open spec fn close_rejection(a: Seq<AccountView>, program_id: Seq<u8>) -> Option<
    ProgramError,
> {
    if a.len() < 1 {
        Some(ProgramError::NotEnoughAccountKeys)
    } else if !a[0].is_signer {
        Some(ProgramError::MissingRequiredSignature)
    } else if a.len() < 2 {
        Some(ProgramError::NotEnoughAccountKeys)
    } else if spec_unpack(a[1].data) is Err {
        Some(spec_unpack(a[1].data)->Err_0)
    } else if spec_unpack(a[1].data)->Ok_0.authority_pubkey != a[0].key {
        Some(ProgramError::InvalidAccountData)
    } else if a[1].owner != program_id {
        Some(ProgramError::InvalidAccountData)
    } else if !spec_unpack(a[1].data)->Ok_0.is_settled {
        Some(ProgramError::escrow(EscrowError::AccountNotSettled))
    } else if a.len() < 3 {
        Some(ProgramError::NotEnoughAccountKeys)
    } else if a[2].lamports + a[1].lamports > u64::MAX {
        Some(ProgramError::escrow(EscrowError::AmountOverflow))
    } else {
        None
    }
}

/// The accounts after an escrow has been closed: the receiver is credited
/// with the whole balance of the escrow account, whose balance is then zero
/// and whose storage is empty.
pub open spec fn closed_accounts(a: Seq<AccountView>) -> Seq<AccountView> {
    let credited = with_lamports(a, a[2].key, (a[2].lamports + a[1].lamports) as u64);
    with_data(with_lamports(credited, a[1].key, 0), a[1].key, Seq::empty())
}

/// What closing an escrow does.
pub open spec fn close_spec(a: Seq<AccountView>, program_id: Seq<u8>) -> Result<
    Outcome,
    ProgramError,
> {
    match close_rejection(a, program_id) {
        Some(e) => Err(e),
        None => Ok(
            Outcome {
                accounts: closed_accounts(a),
                plan: PlanView { invocations: Seq::empty(), settlement: None },
            },
        ),
    }
}

/// What an instruction does: its bytes are decoded, and the operation they
/// name is carried out.
pub open spec fn process_spec(
    program_id: Seq<u8>,
    a: Seq<AccountView>,
    instruction_data: Seq<u8>,
) -> Result<Outcome, ProgramError> {
    match spec_unpack_instruction(instruction_data) {
        None => Err(ProgramError::escrow(EscrowError::InvalidInstruction)),
        Some(EscrowInstruction::InitEscrow { amount }) => init_spec(a, amount, program_id),
        Some(EscrowInstruction::Settle { fee }) => settle_spec(a, fee, program_id),
        Some(EscrowInstruction::Close) => close_spec(a, program_id),
    }
}

/// The settlement engine.
pub struct Processor;

/// The escrow failure `e` in its host-level form.
fn escrow_error(e: EscrowError) -> (error: ProgramError)
    ensures
        error == ProgramError::escrow(e),
{
    ProgramError::Custom(e.code())
}

/// Derives the custody address of a program.
pub fn find_custody_address(program_id: &Pubkey) -> (r: Option<(Pubkey, u8)>)
    ensures
        match r {
            Some((key, bump)) => custody_address(program_id@) == Some((key@, bump)),
            None => custody_address(program_id@) is None,
        },
{
    let seed: [u8; 6] = [101, 115, 99, 114, 111, 119];
    assert(seed@ =~= custody_seed());
    find_program_address(seed.as_slice(), program_id)
}

/// A call on the custody account, authorised by the custody address.
fn custody_invocation(instruction: Instruction, counterpart: usize, bump: u8) -> (call: Invocation)
    ensures
        call@ == custody_call(instruction@, counterpart, bump),
{
    let accounts: Vec<usize> = vec![3usize, counterpart, 7usize, 6usize];
    assert(accounts@ =~= seq![3usize, counterpart, 7usize, 6usize]);
    Invocation { instruction, accounts, signer_bump: Some(bump) }
}

impl Processor {
    /// Carries out the instruction that `instruction_data` encodes and
    /// returns what is left for the host to do.
    pub fn process(
        program_id: &Pubkey,
        accounts: &mut Vec<Account>,
        instruction_data: &[u8],
    ) -> (r: Result<Plan, ProgramError>)
        ensures
            meets(
                r,
                views(old(accounts)@),
                views(final(accounts)@),
                process_spec(program_id@, views(old(accounts)@), instruction_data@),
            ),
    {
        let instruction = match EscrowInstruction::unpack(instruction_data) {
            Ok(instruction) => instruction,
            Err(e) => {
                return Err(e);
            },
        };
        match instruction {
            EscrowInstruction::InitEscrow { amount } => Self::process_init_escrow(
                accounts,
                amount,
                program_id,
            ),
            EscrowInstruction::Settle { fee } => Self::process_settlement(
                accounts,
                fee,
                program_id,
            ),
            EscrowInstruction::Close => Self::process_close(accounts, program_id),
        }
    }

    /// Opens an escrow: checks the parties and the custody account, writes
    /// the record, and returns the call that hands the custody account to
    /// the custody address.
    pub fn process_init_escrow(accounts: &mut Vec<Account>, amount: u64, program_id: &Pubkey) -> (r:
        Result<Plan, ProgramError>)
        ensures
            meets(
                r,
                views(old(accounts)@),
                views(final(accounts)@),
                init_spec(views(old(accounts)@), amount, program_id@),
            ),
    {
        let ghost a = views(accounts@);
        if accounts.len() < 1 {
            return Err(ProgramError::NotEnoughAccountKeys);
        }
        if !accounts[0].is_signer {
            return Err(ProgramError::MissingRequiredSignature);
        }
        if accounts.len() < 2 {
            return Err(ProgramError::NotEnoughAccountKeys);
        }
        let token_program = token_program_id();
        if !accounts[1].owner.same(&token_program) {
            return Err(ProgramError::IncorrectProgramId);
        }
        let held = match unpack_token_account(accounts[1].data.as_slice()) {
            Ok(held) => held,
            Err(code) => {
                return Err(ProgramError::from_code(code));
            },
        };
        if held.amount != amount {
            return Err(escrow_error(EscrowError::ExpectedAmountMismatch));
        }
        if accounts.len() < 3 {
            return Err(ProgramError::NotEnoughAccountKeys);
        }
        if !accounts[2].is_signer {
            return Err(ProgramError::MissingRequiredSignature);
        }
        if accounts.len() < 5 {
            return Err(ProgramError::NotEnoughAccountKeys);
        }
        let exempt = match is_rent_exempt(
            &accounts[4].key,
            accounts[4].data.as_slice(),
            accounts[3].lamports,
            accounts[3].data.len(),
        ) {
            Ok(exempt) => exempt,
            Err(e) => {
                return Err(e);
            },
        };
        if !exempt {
            return Err(escrow_error(EscrowError::NotRentExempt));
        }
        let mut escrow_info = match Escrow::unpack_unchecked(accounts[3].data.as_slice()) {
            Ok(escrow_info) => escrow_info,
            Err(e) => {
                return Err(e);
            },
        };
        if escrow_info.is_initialized() {
            return Err(ProgramError::AccountAlreadyInitialized);
        }
        let (pda, _bump_seed) = match find_custody_address(program_id) {
            Some(found) => found,
            None => {
                return Err(ProgramError::InvalidSeeds);
            },
        };
        if accounts.len() < 6 {
            return Err(ProgramError::NotEnoughAccountKeys);
        }
        let owner_change_ix = match set_account_owner(
            &accounts[5].key,
            &accounts[1].key,
            &pda,
            &accounts[0].key,
            &accounts[0].key,
        ) {
            Ok(ix) => ix,
            Err(code) => {
                return Err(ProgramError::from_code(code));
            },
        };
        escrow_info.is_initialized = true;
        escrow_info.is_settled = false;
        escrow_info.payer_pubkey = accounts[0].key;
        escrow_info.payer_temp_token_account_pubkey = accounts[1].key;
        escrow_info.authority_pubkey = accounts[2].key;
        escrow_info.amount = amount;
        assert(escrow_info@ == init_record(a, amount));
        let packed = escrow_info.to_bytes();
        set_data(accounts, 3, packed.as_slice());
        let handed: Vec<usize> = vec![1usize, 0usize, 5usize];
        assert(handed@ =~= seq![1usize, 0usize, 5usize]);
        let invocations: Vec<Invocation> = vec![
            Invocation { instruction: owner_change_ix, accounts: handed, signer_bump: None },
        ];
        let plan = Plan { invocations, settlement: None };
        assert(plan@.invocations =~= seq![init_invocation(a, program_id@)]);
        Ok(plan)
    }

    /// Begins a settlement: checks the authority, the custody account and
    /// the fee, and returns the calls to the token program together with
    /// what is left to do after them. No account changes.
    pub fn process_settlement(accounts: &Vec<Account>, fee: u64, program_id: &Pubkey) -> (r:
        Result<Plan, ProgramError>)
        ensures
            meets(
                r,
                views(accounts@),
                views(accounts@),
                settle_spec(views(accounts@), fee, program_id@),
            ),
    {
        let ghost a = views(accounts@);
        if accounts.len() < 1 {
            return Err(ProgramError::NotEnoughAccountKeys);
        }
        if !accounts[0].is_signer {
            return Err(ProgramError::MissingRequiredSignature);
        }
        if accounts.len() < 4 {
            return Err(ProgramError::NotEnoughAccountKeys);
        }
        let held = match unpack_token_account(accounts[3].data.as_slice()) {
            Ok(held) => held,
            Err(code) => {
                return Err(ProgramError::from_code(code));
            },
        };
        if accounts.len() < 5 {
            return Err(ProgramError::NotEnoughAccountKeys);
        }
        let escrow_info = match Escrow::unpack(accounts[4].data.as_slice()) {
            Ok(escrow_info) => escrow_info,
            Err(e) => {
                return Err(e);
            },
        };
        if escrow_info.is_settled() {
            return Err(escrow_error(EscrowError::AccountAlreadySettled));
        }
        if !escrow_info.authority_pubkey.same(&accounts[0].key) {
            return Err(ProgramError::InvalidAccountData);
        }
        if !escrow_info.payer_temp_token_account_pubkey.same(&accounts[3].key) {
            return Err(ProgramError::InvalidAccountData);
        }
        if accounts.len() < 7 {
            return Err(ProgramError::NotEnoughAccountKeys);
        }
        let (pda, bump_seed) = match find_custody_address(program_id) {
            Some(found) => found,
            None => {
                return Err(ProgramError::InvalidSeeds);
            },
        };
        if accounts.len() < 8 {
            return Err(ProgramError::NotEnoughAccountKeys);
        }
        if !pda.same(&accounts[7].key) {
            return Err(ProgramError::InvalidAccountData);
        }
        if fee > held.amount {
            return Err(escrow_error(EscrowError::FeeOverflow));
        }
        let amount = held.amount - fee;
        let token_program = &accounts[6].key;
        let custody = &accounts[3].key;
        let mut invocations: Vec<Invocation> = Vec::new();
        if held.is_native {
            let close_ix = match close_account(token_program, custody, &accounts[4].key, &pda, &pda) {
                Ok(ix) => ix,
                Err(code) => {
                    return Err(ProgramError::from_code(code));
                },
            };
            invocations.push(custody_invocation(close_ix, 4, bump_seed));
        } else {
            let transfer_to_taker_ix = match transfer(
                token_program,
                custody,
                &accounts[1].key,
                &pda,
                &pda,
                amount,
            ) {
                Ok(ix) => ix,
                Err(code) => {
                    return Err(ProgramError::from_code(code));
                },
            };
            invocations.push(custody_invocation(transfer_to_taker_ix, 1, bump_seed));
            if fee > 0 {
                let transfer_to_fee_taker_ix = match transfer(
                    token_program,
                    custody,
                    &accounts[2].key,
                    &pda,
                    &pda,
                    fee,
                ) {
                    Ok(ix) => ix,
                    Err(code) => {
                        return Err(ProgramError::from_code(code));
                    },
                };
                invocations.push(custody_invocation(transfer_to_fee_taker_ix, 2, bump_seed));
            }
            let close_ix = match close_account(token_program, custody, &accounts[5].key, &pda, &pda) {
                Ok(ix) => ix,
                Err(code) => {
                    return Err(ProgramError::from_code(code));
                },
            };
            invocations.push(custody_invocation(close_ix, 5, bump_seed));
        }
        let settlement = Settlement { is_native: held.is_native, amount, fee, escrow: escrow_info };
        let plan = Plan { invocations, settlement: Some(settlement) };
        assert(plan@.invocations =~= settle_invocations(a, fee, program_id@));
        Ok(plan)
    }

    /// Completes a settlement once the calls of its plan have succeeded:
    /// splits the native balances where the asset is the native one, and
    /// marks the record settled. `accounts` are the accounts of the settle
    /// instruction as they stand after the calls.
    pub fn complete_settlement(accounts: &mut Vec<Account>, settlement: &Settlement) -> (r: Result<
        (),
        ProgramError,
    >)
        ensures
            match completion_rejection(views(old(accounts)@), settlement@) {
                Some(e) => r is Err && r->Err_0 == e && views(final(accounts)@) == views(
                    old(accounts)@,
                ),
                None => r is Ok && views(final(accounts)@) == completed_accounts(
                    views(old(accounts)@),
                    settlement@,
                ),
            },
    {
        let ghost a = views(accounts@);
        if accounts.len() < 5 {
            return Err(ProgramError::NotEnoughAccountKeys);
        }
        let mut staged = clone_accounts(accounts);
        if settlement.is_native {
            match move_lamports(&mut staged, 4, 1, settlement.amount) {
                Ok(()) => {},
                Err(e) => {
                    return Err(e);
                },
            }
            if settlement.fee > 0 {
                match move_lamports(&mut staged, 4, 2, settlement.fee) {
                    Ok(()) => {},
                    Err(e) => {
                        return Err(e);
                    },
                }
            }
            assert(views(staged@) == native_payout(a, settlement@)->Some_0);
        }
        proof {
            let paid = views(staged@);
            assert(paid.len() == a.len());
            assert(paid[1].key == a[1].key && paid[2].key == a[2].key && paid[4].key == a[4].key);
            assert(paid[4].data == a[4].data);
        }
        if staged[4].data.len() != ESCROW_LEN {
            return Err(ProgramError::InvalidAccountData);
        }
        let mut escrow_info = settlement.escrow;
        escrow_info.is_settled = true;
        escrow_info.fee = settlement.fee;
        escrow_info.payee_pubkey = staged[1].key;
        escrow_info.fee_taker_pubkey = staged[2].key;
        assert(escrow_info@ == settled_record(a, settlement@));
        let packed = escrow_info.to_bytes();
        set_data(&mut staged, 4, packed.as_slice());
        *accounts = staged;
        Ok(())
    }

    /// Closes a settled escrow: the whole balance of the escrow account
    /// goes to the receiver, and the escrow account is left empty.
    pub fn process_close(accounts: &mut Vec<Account>, program_id: &Pubkey) -> (r: Result<
        Plan,
        ProgramError,
    >)
        ensures
            meets(
                r,
                views(old(accounts)@),
                views(final(accounts)@),
                close_spec(views(old(accounts)@), program_id@),
            ),
    {
        if accounts.len() < 1 {
            return Err(ProgramError::NotEnoughAccountKeys);
        }
        if !accounts[0].is_signer {
            return Err(ProgramError::MissingRequiredSignature);
        }
        if accounts.len() < 2 {
            return Err(ProgramError::NotEnoughAccountKeys);
        }
        let escrow_info = match Escrow::unpack(accounts[1].data.as_slice()) {
            Ok(escrow_info) => escrow_info,
            Err(e) => {
                return Err(e);
            },
        };
        if !escrow_info.authority_pubkey.same(&accounts[0].key) {
            return Err(ProgramError::InvalidAccountData);
        }
        if !accounts[1].owner.same(program_id) {
            return Err(ProgramError::InvalidAccountData);
        }
        if !escrow_info.is_settled() {
            return Err(escrow_error(EscrowError::AccountNotSettled));
        }
        if accounts.len() < 3 {
            return Err(ProgramError::NotEnoughAccountKeys);
        }
        let credited = match accounts[2].lamports.checked_add(accounts[1].lamports) {
            Some(credited) => credited,
            None => {
                return Err(escrow_error(EscrowError::AmountOverflow));
            },
        };
        let ghost a = views(accounts@);
        set_lamports(accounts, 2, credited);
        assert(views(accounts@)[1].key == a[1].key);
        set_lamports(accounts, 1, 0);
        assert(views(accounts@)[1].key == a[1].key);
        let empty: [u8; 0] = [];
        assert(empty@ =~= Seq::<u8>::empty());
        set_data(accounts, 1, empty.as_slice());
        let plan = Plan { invocations: Vec::new(), settlement: None };
        assert(plan@.invocations =~= Seq::<InvocationView>::empty());
        assert(views(accounts@) == closed_accounts(a));
        Ok(plan)
    }
}

} // verus!
