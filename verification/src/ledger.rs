use vstd::prelude::*;

use crate::errors::ErrorCode;
use crate::pubkey::Pubkey;

verus! {

/// Per-owner ledger entry: the principal authorized to withdraw, and the
/// internal balance — the cumulative deposits minus cumulative withdrawals
/// credited to that principal.
#[derive(Clone, Copy, Debug, PartialEq)]
pub struct UserAccount {
    pub authority: Pubkey,
    pub balance: u64,
}

/// Credit an entry after a confirmed inbound transfer.
pub fn apply_deposit(account: &mut UserAccount, amount: u64)
    requires
        old(account).balance + amount <= u64::MAX,
    ensures
        final(account).authority == old(account).authority,
        final(account).balance == old(account).balance + amount,
{
    account.balance = account.balance + amount;
}

/// Debit an entry after a confirmed outbound transfer.
pub fn apply_withdraw(account: &mut UserAccount, amount: u64)
    requires
        amount <= old(account).balance,
    ensures
        final(account).authority == old(account).authority,
        final(account).balance == old(account).balance - amount,
{
    account.balance = account.balance - amount;
}

/// The Ledger Account Store: one entry per owner, looked up by the owner's
/// key. The host keys entries by a derived storage location; here the owner
/// key itself is the lookup key and uniqueness is the store's invariant.
#[derive(Debug)]
pub struct LedgerStore {
    pub entries: Vec<UserAccount>,
}

/// Total of the balances of a sequence of ledger entries.
pub open spec fn sum_balances(s: Seq<UserAccount>) -> int
    decreases s.len(),
{
    if s.len() == 0 {
        0
    } else {
        s[0].balance + sum_balances(s.drop_first())
    }
}

/// The sum of a sequence of balances is never negative.
pub proof fn lemma_sum_nonneg(s: Seq<UserAccount>)
    ensures
        sum_balances(s) >= 0,
    decreases s.len(),
{
    if s.len() > 0 {
        lemma_sum_nonneg(s.drop_first());
    }
}

/// Each entry's balance is at most the sum of all balances.
pub proof fn lemma_entry_le_sum(s: Seq<UserAccount>, i: int)
    requires
        0 <= i < s.len(),
    ensures
        s[i].balance <= sum_balances(s),
    decreases s.len(),
{
    if i == 0 {
        lemma_sum_nonneg(s.drop_first());
    } else {
        lemma_entry_le_sum(s.drop_first(), i - 1);
    }
}

/// Appending an entry adds its balance to the sum.
pub proof fn lemma_sum_push(s: Seq<UserAccount>, e: UserAccount)
    ensures
        sum_balances(s.push(e)) == sum_balances(s) + e.balance,
    decreases s.len(),
{
    if s.len() == 0 {
        assert(s.push(e)[0] == e);
        assert(s.push(e).drop_first() =~= Seq::<UserAccount>::empty());
        assert(sum_balances(s.push(e)) == e.balance + sum_balances(
            s.push(e).drop_first(),
        ));
        assert(sum_balances(Seq::<UserAccount>::empty()) == 0);
    } else {
        assert(s.push(e)[0] == s[0]);
        assert(sum_balances(s.push(e)) == s[0].balance + sum_balances(
            s.push(e).drop_first(),
        ));
        assert(s.push(e).drop_first() =~= s.drop_first().push(e));
        lemma_sum_push(s.drop_first(), e);
    }
}

/// Replacing an entry changes the sum by the change in that entry.
pub proof fn lemma_sum_update(s: Seq<UserAccount>, i: int, e: UserAccount)
    requires
        0 <= i < s.len(),
    ensures
        sum_balances(s.update(i, e)) == sum_balances(s) - s[i].balance + e.balance,
    decreases s.len(),
{
    if i == 0 {
        assert(s.update(0, e).drop_first() =~= s.drop_first());
    } else {
        assert(s.update(i, e).drop_first() =~= s.drop_first().update(i - 1, e));
        lemma_sum_update(s.drop_first(), i - 1, e);
    }
}

/// In a well-formed store, an index whose entry is owned by `owner` is the
/// index that `spec_index_of` picks, and that entry's balance is the
/// owner's recorded balance.
pub proof fn lemma_index_of_unique(store: LedgerStore, owner: Pubkey, i: int)
    requires
        store.wf(),
        0 <= i < store.entries@.len(),
        store.entries@[i].authority == owner,
    ensures
        store.spec_contains_owner(owner),
        store.spec_index_of(owner) == i,
        store.spec_balance_of(owner) == store.entries@[i].balance,
{
    assert(store.spec_contains_owner(owner));
    let j = store.spec_index_of(owner);
    assert(0 <= j < store.entries@.len() && store.entries@[j].authority == owner);
    if i < j {
        assert(store.entries@[i].authority != store.entries@[j].authority);
    }
    if j < i {
        assert(store.entries@[j].authority != store.entries@[i].authority);
    }
}

/// Law: creating a fresh entry — its balance is zero — keeps the sum of all
/// ledger balances within the amount the vault actually custodies.
pub proof fn lemma_custody_preserved_by_initialize(s: Seq<UserAccount>, e: UserAccount, vault: u64)
    requires
        sum_balances(s) <= vault,
        e.balance == 0,
    ensures
        sum_balances(s.push(e)) <= vault,
{
    lemma_sum_push(s, e);
}

/// Law: writing back a deposit — one entry credited by `amount` — keeps the
/// sum of all ledger balances within the vault's custodied amount, which the
/// same successful transfer has just grown by `amount`.
pub proof fn lemma_custody_preserved_by_deposit(
    s: Seq<UserAccount>,
    i: int,
    e: UserAccount,
    amount: u64,
    vault: u64,
)
    requires
        0 <= i < s.len(),
        sum_balances(s) <= vault,
        e.balance == s[i].balance + amount,
        vault + amount <= u64::MAX,
    ensures
        sum_balances(s.update(i, e)) <= vault + amount,
{
    lemma_sum_update(s, i, e);
}

/// Law: writing back a withdrawal — one entry debited by `amount`, which it
/// covered — keeps the sum of all ledger balances within the vault's
/// custodied amount, which the same successful transfer has just shrunk by
/// `amount`; in particular the vault itself covered the withdrawal.
pub proof fn lemma_custody_preserved_by_withdraw(
    s: Seq<UserAccount>,
    i: int,
    e: UserAccount,
    amount: u64,
    vault: u64,
)
    requires
        0 <= i < s.len(),
        sum_balances(s) <= vault,
        amount <= s[i].balance,
        e.balance == s[i].balance - amount,
    ensures
        amount <= vault,
        sum_balances(s.update(i, e)) <= vault - amount,
{
    lemma_entry_le_sum(s, i);
    lemma_sum_update(s, i, e);
}

impl LedgerStore {
    /// No two entries share an owner.
    pub open spec fn wf(&self) -> bool {
        forall|i: int, j: int|
            0 <= i < j < self.entries@.len()
                ==> self.entries@[i].authority != self.entries@[j].authority
    }

    pub open spec fn spec_contains_owner(&self, owner: Pubkey) -> bool {
        exists|i: int| 0 <= i < self.entries@.len() && self.entries@[i].authority == owner
    }

    /// The index of `owner`'s entry; meaningful only when one exists, and
    /// then unique by well-formedness.
    pub open spec fn spec_index_of(&self, owner: Pubkey) -> int {
        choose|i: int| 0 <= i < self.entries@.len() && self.entries@[i].authority == owner
    }

    /// The balance recorded for `owner`; meaningful only when an entry
    /// exists.
    pub open spec fn spec_balance_of(&self, owner: Pubkey) -> u64 {
        self.entries@[self.spec_index_of(owner)].balance
    }

    pub fn new() -> (r: LedgerStore)
        ensures
            r.entries@ =~= Seq::<UserAccount>::empty(),
            r.wf(),
    {
        LedgerStore { entries: Vec::new() }
    }

    /// Index of the entry owned by `owner`, if one exists.
    pub fn find(&self, owner: &Pubkey) -> (r: Option<usize>)
        ensures
            match r {
                Some(i) => i < self.entries@.len() && self.entries@[i as int].authority == *owner,
                None => !self.spec_contains_owner(*owner),
            },
    {
        let mut i: usize = 0;
        while i < self.entries.len()
            invariant
                0 <= i <= self.entries@.len(),
                forall|j: int| 0 <= j < i ==> self.entries@[j].authority != *owner,
            decreases self.entries@.len() - i,
        {
            if self.entries[i].authority == *owner {
                return Some(i);
            }
            i = i + 1;
        }
        None
    }

    /// Create the entry for a new owner, with balance zero. Fails with
    /// `AlreadyExists`, and changes nothing, when the owner already has one.
    pub fn create(&mut self, owner: &Pubkey) -> (r: Result<usize, ErrorCode>)
        requires
            old(self).wf(),
        ensures
            final(self).wf(),
            old(self).spec_contains_owner(*owner) ==> r == Err::<usize, ErrorCode>(
                ErrorCode::AlreadyExists,
            ) && *final(self) == *old(self),
            r is Ok ==> final(self).entries@ == old(self).entries@.push(UserAccount {
                authority: *owner,
                balance: 0,
            }),
            r matches Ok(i) ==> i == old(self).entries@.len(),
            r is Ok <==> !old(self).spec_contains_owner(*owner),
    {
        match self.find(owner) {
            Some(_) => Err(ErrorCode::AlreadyExists),
            None => {
                let i = self.entries.len();
                self.entries.push(UserAccount { authority: *owner, balance: 0 });
                Ok(i)
            },
        }
    }

    /// Read the entry at `i`.
    pub fn get(&self, i: usize) -> (r: UserAccount)
        requires
            i < self.entries@.len(),
        ensures
            r == self.entries@[i as int],
    {
        self.entries[i]
    }

    /// Write back the entry at `i`. The owner may not change, so the store's
    /// well-formedness is preserved.
    pub fn put(&mut self, i: usize, account: UserAccount)
        requires
            i < old(self).entries@.len(),
            account.authority == old(self).entries@[i as int].authority,
        ensures
            final(self).entries@ == old(self).entries@.update(i as int, account),
            old(self).wf() ==> final(self).wf(),
    {
        self.entries[i] = account;
    }
}

} // verus!
