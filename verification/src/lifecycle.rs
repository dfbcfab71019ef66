//! What holds across the transitions of an escrow.

use crate::account::{
    consistent, lemma_move_lamports_consistent, lemma_with_data_consistent,
    lemma_with_lamports_consistent, spec_move_lamports, with_lamports, AccountView,
};
use crate::error::{EscrowError, ProgramError};
use crate::processor::{
    close_rejection, close_spec, completed_accounts, completion_rejection, custody_address,
    init_record, init_rejection, init_spec, native_payout, settle_rejection, settle_spec,
    settled_record, SettlementView,
};
use crate::state::{
    lemma_pack_unpack, lemma_unpack_pack, spec_pack, spec_unpack, spec_unpack_unchecked,
};
use crate::token::token_account_state;
use vstd::prelude::*;

verus! {

/// Every address in the account list has thirty-two bytes.
pub open spec fn well_formed(a: Seq<AccountView>) -> bool {
    forall|i: int| 0 <= i < a.len() ==> (#[trigger] a[i]).key.len() == 32 && a[i].owner.len() == 32
}

/// Once an escrow has been opened, its record is initialized, is not yet
/// settled, names the authority that signed, and holds the amount that the
/// custody account held when it was opened.
pub proof fn lemma_init_records_custody_balance(
    a: Seq<AccountView>,
    amount: u64,
    program_id: Seq<u8>,
)
    requires
        well_formed(a),
        init_spec(a, amount, program_id) is Ok,
    ensures
        ({
            let after = init_spec(a, amount, program_id)->Ok_0.accounts;
            let record = spec_unpack(after[3].data);
            &&& record is Ok
            &&& record->Ok_0.is_initialized
            &&& !record->Ok_0.is_settled
            &&& record->Ok_0.authority_pubkey == a[2].key
            &&& record->Ok_0.payer_temp_token_account_pubkey == a[1].key
            &&& record->Ok_0.amount == token_account_state(a[1].data)->Ok_0.amount
        }),
{
    lemma_pack_unpack(a[3].data);
    lemma_unpack_pack(init_record(a, amount));
}

/// An escrow is opened at most once: opening is refused for every account
/// list that presents, as its escrow account, the storage that an earlier
/// opening left behind.
pub proof fn lemma_init_only_once(
    a: Seq<AccountView>,
    amount: u64,
    program_id: Seq<u8>,
    again: Seq<AccountView>,
    again_amount: u64,
    again_program_id: Seq<u8>,
)
    requires
        well_formed(a),
        init_spec(a, amount, program_id) is Ok,
        again.len() > 3 ==> again[3].data == init_spec(a, amount, program_id)->Ok_0.accounts[3].data,
    ensures
        init_spec(again, again_amount, again_program_id) is Err,
{
    lemma_init_records_custody_balance(a, amount, program_id);
}

/// A fee above what the custody account holds is never accepted, and where
/// the settlement would be accepted with some other fee, it is the fee
/// overflow that is reported.
pub proof fn lemma_excessive_fee_rejected(
    a: Seq<AccountView>,
    fee: u64,
    program_id: Seq<u8>,
    other_fee: u64,
)
    requires
        a.len() > 3,
        token_account_state(a[3].data) is Ok,
        fee > token_account_state(a[3].data)->Ok_0.amount,
    ensures
        settle_spec(a, fee, program_id) is Err,
        settle_rejection(a, other_fee, program_id) is None ==> settle_rejection(a, fee, program_id)
            == Some(ProgramError::escrow(EscrowError::FeeOverflow)),
{
}

/// A settlement whose first account is not the authority that the record
/// names is refused.
pub proof fn lemma_settle_needs_authority(a: Seq<AccountView>, fee: u64, program_id: Seq<u8>)
    requires
        a.len() > 4,
        spec_unpack(a[4].data) is Ok,
        spec_unpack(a[4].data)->Ok_0.authority_pubkey != a[0].key || !a[0].is_signer,
    ensures
        settle_spec(a, fee, program_id) is Err,
{
}

/// A settlement is accepted only from the signing authority of an
/// initialized, unsettled record, on the custody account that the record
/// names and under the custody address of the program, with a fee that the
/// custody account can pay.
pub proof fn lemma_settlement_preconditions(a: Seq<AccountView>, fee: u64, program_id: Seq<u8>)
    requires
        settle_spec(a, fee, program_id) is Ok,
    ensures
        a.len() >= 8,
        a[0].is_signer,
        spec_unpack_unchecked(a[4].data) is Ok,
        token_account_state(a[3].data) is Ok,
        ({
            let record = spec_unpack_unchecked(a[4].data)->Ok_0;
            &&& record.is_initialized
            &&& !record.is_settled
            &&& record.authority_pubkey == a[0].key
            &&& record.payer_temp_token_account_pubkey == a[3].key
        }),
        custody_address(program_id) is Some,
        custody_address(program_id)->Some_0.0 == a[7].key,
        fee <= token_account_state(a[3].data)->Ok_0.amount,
        settle_spec(a, fee, program_id)->Ok_0.accounts == a,
{
}

/// An escrow is closed only by the signing authority of a settled record
/// in an account of the program.
pub proof fn lemma_close_preconditions(a: Seq<AccountView>, program_id: Seq<u8>)
    requires
        close_spec(a, program_id) is Ok,
    ensures
        a.len() >= 3,
        a[0].is_signer,
        a[1].owner == program_id,
        spec_unpack_unchecked(a[1].data) is Ok,
        ({
            let record = spec_unpack_unchecked(a[1].data)->Ok_0;
            &&& record.is_initialized
            &&& record.is_settled
            &&& record.authority_pubkey == a[0].key
        }),
{
}

/// Completing a settlement changes the record in nothing but the settled
/// flag, the fee, the taker and the fee taker; where the custody account
/// held the recorded amount when the settlement began, the recorded fee is
/// within the recorded amount.
pub proof fn lemma_settlement_keeps_parties(
    a: Seq<AccountView>,
    fee: u64,
    program_id: Seq<u8>,
    b: Seq<AccountView>,
)
    requires
        settle_spec(a, fee, program_id) is Ok,
    ensures
        ({
            let before = spec_unpack(a[4].data)->Ok_0;
            let s = settle_spec(a, fee, program_id)->Ok_0.plan.settlement->Some_0;
            let after = settled_record(b, s);
            &&& after.is_initialized
            &&& after.is_settled
            &&& after.authority_pubkey == before.authority_pubkey
            &&& after.payer_pubkey == before.payer_pubkey
            &&& after.payer_temp_token_account_pubkey == before.payer_temp_token_account_pubkey
            &&& after.amount == before.amount
            &&& after.fee == fee
            &&& token_account_state(a[3].data)->Ok_0.amount == before.amount ==> after.fee
                <= after.amount
            &&& s.amount + s.fee == token_account_state(a[3].data)->Ok_0.amount
        }),
{
}

/// Crediting the taker never wraps: where the taker's balance cannot take
/// the amount, completing a native settlement is an amount overflow.
pub proof fn lemma_taker_credit_never_wraps(a: Seq<AccountView>, s: SettlementView)
    requires
        a.len() > 4,
        s.is_native,
        a[1].key != a[4].key,
        a[1].lamports + s.amount > u64::MAX,
    ensures
        completion_rejection(a, s) == Some(ProgramError::escrow(EscrowError::AmountOverflow)),
{
}

/// Crediting the fee taker never wraps: where the fee taker's balance
/// cannot take the fee, completing a native settlement is an amount
/// overflow.
pub proof fn lemma_fee_credit_never_wraps(a: Seq<AccountView>, s: SettlementView)
    requires
        a.len() > 4,
        consistent(a),
        s.is_native,
        s.fee > 0,
        a[2].key != a[4].key,
        a[2].lamports + s.fee > u64::MAX,
    ensures
        completion_rejection(a, s) == Some(ProgramError::escrow(EscrowError::AmountOverflow)),
{
    if spec_move_lamports(a, 4, 1, s.amount) is Some {
        let debited = with_lamports(a, a[4].key, (a[4].lamports - s.amount) as u64);
        assert(debited[2].lamports == a[2].lamports);
        assert(debited[1].key == debited[2].key ==> debited[1].lamports == a[2].lamports);
        let paid = spec_move_lamports(a, 4, 1, s.amount)->Some_0;
        assert(paid[2].lamports >= a[2].lamports);
        assert(paid[2].key == a[2].key && paid[4].key == a[4].key);
        if paid[4].lamports >= s.fee {
            let again = with_lamports(paid, paid[4].key, (paid[4].lamports - s.fee) as u64);
            assert(again[2].lamports == paid[2].lamports);
        }
    }
}

/// A completed native settlement between three different accounts takes
/// the amount and the fee from the escrow account and gives the amount to
/// the taker and the fee to the fee taker.
pub proof fn lemma_native_payout_splits(a: Seq<AccountView>, s: SettlementView)
    requires
        a.len() > 4,
        s.is_native,
        a[1].key != a[4].key,
        a[2].key != a[4].key,
        a[1].key != a[2].key,
        completion_rejection(a, s) is None,
    ensures
        ({
            let after = completed_accounts(a, s);
            &&& after[4].lamports == a[4].lamports - s.amount - s.fee
            &&& after[1].lamports == a[1].lamports + s.amount
            &&& after[2].lamports == a[2].lamports + s.fee
        }),
{
}

/// A settled escrow stays settled: once a settlement has been completed,
/// its record reads as settled with the fee, taker and fee taker of the
/// settlement, and every further settlement on that record is refused.
pub proof fn lemma_settle_only_once(
    a: Seq<AccountView>,
    s: SettlementView,
    again: Seq<AccountView>,
    again_fee: u64,
    again_program_id: Seq<u8>,
)
    requires
        well_formed(a),
        s.escrow.wf(),
        completion_rejection(a, s) is None,
        again.len() > 4 ==> again[4].data == completed_accounts(a, s)[4].data,
    ensures
        spec_unpack_unchecked(completed_accounts(a, s)[4].data) is Ok,
        spec_unpack_unchecked(completed_accounts(a, s)[4].data)->Ok_0 == settled_record(a, s),
        settle_spec(again, again_fee, again_program_id) is Err,
{
    lemma_unpack_pack(settled_record(a, s));
}

/// An escrow that has been opened and not settled cannot be closed: where
/// the authority asks for it, the refusal is that the account is not
/// settled.
pub proof fn lemma_close_before_settle(
    a: Seq<AccountView>,
    amount: u64,
    program_id: Seq<u8>,
    close: Seq<AccountView>,
)
    requires
        well_formed(a),
        init_spec(a, amount, program_id) is Ok,
        close.len() > 1,
        close[0].is_signer,
        close[0].key == a[2].key,
        close[1].owner == program_id,
        close[1].data == init_spec(a, amount, program_id)->Ok_0.accounts[3].data,
    ensures
        close_rejection(close, program_id) == Some(
            ProgramError::escrow(EscrowError::AccountNotSettled),
        ),
{
    lemma_init_records_custody_balance(a, amount, program_id);
}

/// Closing moves the whole balance of the escrow account to the receiver
/// and leaves the escrow account without balance and without storage.
pub proof fn lemma_close_moves_everything(a: Seq<AccountView>, program_id: Seq<u8>)
    requires
        close_spec(a, program_id) is Ok,
        a[1].key != a[2].key,
    ensures
        ({
            let after = close_spec(a, program_id)->Ok_0.accounts;
            &&& after.len() == a.len()
            &&& after[2].lamports == a[2].lamports + a[1].lamports
            &&& after[1].lamports == 0
            &&& after[1].data.len() == 0
        }),
{
}

/// Closing never wraps: where the receiver's balance cannot take the
/// balance of the escrow account, a close by the authority of a settled
/// escrow is an amount overflow.
pub proof fn lemma_close_never_wraps(a: Seq<AccountView>, program_id: Seq<u8>)
    requires
        a.len() > 2,
        a[0].is_signer,
        spec_unpack(a[1].data) is Ok,
        spec_unpack(a[1].data)->Ok_0.authority_pubkey == a[0].key,
        spec_unpack(a[1].data)->Ok_0.is_settled,
        a[1].owner == program_id,
        a[2].lamports + a[1].lamports > u64::MAX,
    ensures
        close_spec(a, program_id) is Err,
        close_spec(a, program_id)->Err_0 == ProgramError::escrow(EscrowError::AmountOverflow),
{
}

/// Every transition keeps the entries of one account in agreement.
pub proof fn lemma_transitions_keep_agreement(
    a: Seq<AccountView>,
    amount: u64,
    program_id: Seq<u8>,
    s: SettlementView,
)
    requires
        consistent(a),
    ensures
        init_spec(a, amount, program_id) is Ok ==> consistent(
            init_spec(a, amount, program_id)->Ok_0.accounts,
        ),
        completion_rejection(a, s) is None ==> consistent(completed_accounts(a, s)),
        close_spec(a, program_id) is Ok ==> consistent(close_spec(a, program_id)->Ok_0.accounts),
{
    if init_spec(a, amount, program_id) is Ok {
        lemma_with_data_consistent(a, a[3].key, spec_pack(init_record(a, amount)));
    }
    if completion_rejection(a, s) is None {
        if s.is_native {
            lemma_move_lamports_consistent(a, 4, 1, s.amount);
            let paid = spec_move_lamports(a, 4, 1, s.amount)->Some_0;
            if s.fee > 0 {
                lemma_move_lamports_consistent(paid, 4, 2, s.fee);
            }
            lemma_with_data_consistent(
                native_payout(a, s)->Some_0,
                a[4].key,
                spec_pack(settled_record(a, s)),
            );
        } else {
            lemma_with_data_consistent(a, a[4].key, spec_pack(settled_record(a, s)));
        }
    }
    if close_spec(a, program_id) is Ok {
        let credited = with_lamports(a, a[2].key, (a[2].lamports + a[1].lamports) as u64);
        lemma_with_lamports_consistent(a, a[2].key, (a[2].lamports + a[1].lamports) as u64);
        lemma_with_lamports_consistent(credited, a[1].key, 0);
        lemma_with_data_consistent(with_lamports(credited, a[1].key, 0), a[1].key, Seq::empty());
    }
}

} // verus!
