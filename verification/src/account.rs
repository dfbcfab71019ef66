//! The host's accounts as plain values.

use crate::error::{EscrowError, ProgramError};
use crate::pubkey::Pubkey;
use vstd::prelude::*;
use vstd::slice::slice_to_vec;

verus! {

/// One account as the host presents it to an instruction.
#[derive(Debug, Clone, PartialEq, Eq)]
pub struct Account {
    /// The account's address.
    pub key: Pubkey,
    /// The program that owns the account.
    pub owner: Pubkey,
    /// The account's native balance.
    pub lamports: u64,
    /// The account's storage.
    pub data: Vec<u8>,
    /// Whether the account signed the invocation.
    pub is_signer: bool,
    /// Whether the instruction may change the account.
    pub is_writable: bool,
}

/// An account as a mathematical value.
pub struct AccountView {
    pub key: Seq<u8>,
    pub owner: Seq<u8>,
    pub lamports: u64,
    pub data: Seq<u8>,
    pub is_signer: bool,
    pub is_writable: bool,
}

impl View for Account {
    type V = AccountView;

    open spec fn view(&self) -> AccountView {
        AccountView {
            key: self.key@,
            owner: self.owner@,
            lamports: self.lamports,
            data: self.data@,
            is_signer: self.is_signer,
            is_writable: self.is_writable,
        }
    }
}

/// The accounts of an instruction as mathematical values, in order.
pub open spec fn views(accounts: Seq<Account>) -> Seq<AccountView> {
    Seq::new(accounts.len(), |i: int| accounts[i]@)
}

/// The account list after the balance of the account at `key` has been set:
/// every entry that presents that account shows the new balance.
pub open spec fn with_lamports(accounts: Seq<AccountView>, key: Seq<u8>, lamports: u64) -> Seq<
    AccountView,
> {
    Seq::new(
        accounts.len(),
        |i: int|
            if accounts[i].key == key {
                AccountView { lamports, ..accounts[i] }
            } else {
                accounts[i]
            },
    )
}

/// The account list after the storage of the account at `key` has been
/// replaced: every entry that presents that account shows the new storage.
pub open spec fn with_data(accounts: Seq<AccountView>, key: Seq<u8>, data: Seq<u8>) -> Seq<
    AccountView,
> {
    Seq::new(
        accounts.len(),
        |i: int|
            if accounts[i].key == key {
                AccountView { data, ..accounts[i] }
            } else {
                accounts[i]
            },
    )
}

/// Entries that present the same account agree on what the account holds.
pub open spec fn consistent(accounts: Seq<AccountView>) -> bool {
    forall|i: int, j: int|
        0 <= i < accounts.len() && 0 <= j < accounts.len() && accounts[i].key == accounts[j].key
            ==> accounts[i].lamports == accounts[j].lamports && accounts[i].data
            == accounts[j].data && accounts[i].owner == accounts[j].owner
}

/// The account list after `amount` has moved from the account presented at
/// `from` to the one presented at `to`, unless the source holds less than
/// `amount` or the destination would exceed the 64-bit range.
pub open spec fn spec_move_lamports(
    accounts: Seq<AccountView>,
    from: int,
    to: int,
    amount: u64,
) -> Option<Seq<AccountView>> {
    if accounts[from].lamports < amount {
        None
    } else {
        let debited = with_lamports(
            accounts,
            accounts[from].key,
            (accounts[from].lamports - amount) as u64,
        );
        if debited[to].lamports + amount > u64::MAX {
            None
        } else {
            Some(with_lamports(debited, debited[to].key, (debited[to].lamports + amount) as u64))
        }
    }
}

/// Sets the balance of the account presented at `index`, in every entry
/// that presents it.
pub fn set_lamports(accounts: &mut Vec<Account>, index: usize, lamports: u64)
    requires
        index < old(accounts).len(),
    ensures
        final(accounts).len() == old(accounts).len(),
        views(final(accounts)@) == with_lamports(
            views(old(accounts)@),
            old(accounts)@[index as int].key@,
            lamports,
        ),
{
    let key = accounts[index].key;
    let mut j: usize = 0;
    while j < accounts.len()
        invariant
            j <= accounts.len(),
            accounts.len() == old(accounts).len(),
            forall|i: int|
                0 <= i < j ==> accounts@[i]@ == with_lamports(
                    views(old(accounts)@),
                    key@,
                    lamports,
                )[i],
            forall|i: int| j <= i < accounts.len() ==> accounts@[i] == old(accounts)@[i],
        decreases accounts.len() - j,
    {
        if accounts[j].key.same(&key) {
            accounts[j].lamports = lamports;
        }
        j += 1;
    }
    assert(views(accounts@) =~= with_lamports(views(old(accounts)@), key@, lamports));
}

/// Replaces the storage of the account presented at `index`, in every entry
/// that presents it.
pub fn set_data(accounts: &mut Vec<Account>, index: usize, data: &[u8])
    requires
        index < old(accounts).len(),
    ensures
        final(accounts).len() == old(accounts).len(),
        views(final(accounts)@) == with_data(
            views(old(accounts)@),
            old(accounts)@[index as int].key@,
            data@,
        ),
{
    let key = accounts[index].key;
    let mut j: usize = 0;
    while j < accounts.len()
        invariant
            j <= accounts.len(),
            accounts.len() == old(accounts).len(),
            forall|i: int|
                0 <= i < j ==> accounts@[i]@ == with_data(views(old(accounts)@), key@, data@)[i],
            forall|i: int| j <= i < accounts.len() ==> accounts@[i] == old(accounts)@[i],
        decreases accounts.len() - j,
    {
        if accounts[j].key.same(&key) {
            accounts[j].data = slice_to_vec(data);
        }
        j += 1;
    }
    assert(views(accounts@) =~= with_data(views(old(accounts)@), key@, data@));
}

/// Moves `amount` from the account presented at `from` to the one presented
/// at `to`. Where the source holds too little or the destination would
/// overflow, nothing changes and the failure is an amount overflow.
pub fn move_lamports(accounts: &mut Vec<Account>, from: usize, to: usize, amount: u64) -> (r:
    Result<(), ProgramError>)
    requires
        from < old(accounts).len(),
        to < old(accounts).len(),
    ensures
        final(accounts).len() == old(accounts).len(),
        match spec_move_lamports(views(old(accounts)@), from as int, to as int, amount) {
            Some(moved) => r is Ok && views(final(accounts)@) == moved,
            None => r is Err && r->Err_0 == ProgramError::escrow(EscrowError::AmountOverflow)
                && final(accounts)@ == old(accounts)@,
        },
{
    let source = accounts[from].lamports;
    if source < amount {
        return Err(ProgramError::Custom(EscrowError::AmountOverflow.code()));
    }
    let remaining = source - amount;
    let target = if accounts[to].key.same(&accounts[from].key) {
        remaining
    } else {
        accounts[to].lamports
    };
    if target > u64::MAX - amount {
        return Err(ProgramError::Custom(EscrowError::AmountOverflow.code()));
    }
    set_lamports(accounts, from, remaining);
    set_lamports(accounts, to, target + amount);
    Ok(())
}

/// A copy of the account list, to work on while the list itself stays intact.
pub fn clone_accounts(accounts: &Vec<Account>) -> (copy: Vec<Account>)
    ensures
        views(copy@) == views(accounts@),
        copy.len() == accounts.len(),
{
    let mut copy: Vec<Account> = Vec::new();
    let mut i: usize = 0;
    while i < accounts.len()
        invariant
            i <= accounts.len(),
            copy.len() == i,
            forall|j: int| 0 <= j < i ==> copy@[j]@ == accounts@[j]@,
        decreases accounts.len() - i,
    {
        let account = &accounts[i];
        copy.push(
            Account {
                key: account.key,
                owner: account.owner,
                lamports: account.lamports,
                data: slice_to_vec(account.data.as_slice()),
                is_signer: account.is_signer,
                is_writable: account.is_writable,
            },
        );
        i += 1;
    }
    assert(views(copy@) =~= views(accounts@));
    copy
}

/// Setting a balance keeps entries of one account in agreement.
pub proof fn lemma_with_lamports_consistent(accounts: Seq<AccountView>, key: Seq<u8>, lamports: u64)
    requires
        consistent(accounts),
    ensures
        consistent(with_lamports(accounts, key, lamports)),
{
}

/// Replacing storage keeps entries of one account in agreement.
pub proof fn lemma_with_data_consistent(accounts: Seq<AccountView>, key: Seq<u8>, data: Seq<u8>)
    requires
        consistent(accounts),
    ensures
        consistent(with_data(accounts, key, data)),
{
}

/// A transfer keeps entries of one account in agreement.
pub proof fn lemma_move_lamports_consistent(
    accounts: Seq<AccountView>,
    from: int,
    to: int,
    amount: u64,
)
    requires
        consistent(accounts),
        0 <= from < accounts.len(),
        0 <= to < accounts.len(),
        spec_move_lamports(accounts, from, to, amount) is Some,
    ensures
        consistent(spec_move_lamports(accounts, from, to, amount)->Some_0),
        spec_move_lamports(accounts, from, to, amount)->Some_0.len() == accounts.len(),
{
    let debited = with_lamports(
        accounts,
        accounts[from].key,
        (accounts[from].lamports - amount) as u64,
    );
    lemma_with_lamports_consistent(
        accounts,
        accounts[from].key,
        (accounts[from].lamports - amount) as u64,
    );
    lemma_with_lamports_consistent(
        debited,
        debited[to].key,
        (debited[to].lamports + amount) as u64,
    );
}

/// A transfer between two different accounts debits one by the amount and
/// credits the other by the same amount.
pub proof fn lemma_move_lamports_conserves(
    accounts: Seq<AccountView>,
    from: int,
    to: int,
    amount: u64,
)
    requires
        0 <= from < accounts.len(),
        0 <= to < accounts.len(),
        accounts[from].key != accounts[to].key,
        spec_move_lamports(accounts, from, to, amount) is Some,
    ensures
        ({
            let moved = spec_move_lamports(accounts, from, to, amount)->Some_0;
            &&& moved[from].lamports == accounts[from].lamports - amount
            &&& moved[to].lamports == accounts[to].lamports + amount
        }),
{
}

} // verus!
