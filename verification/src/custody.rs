use vstd::prelude::*;

use crate::authority::TradingBot;
use crate::errors::ErrorCode;
use crate::ledger::lemma_custody_preserved_by_deposit;
use crate::ledger::lemma_custody_preserved_by_initialize;
use crate::ledger::lemma_custody_preserved_by_withdraw;
use crate::ledger::lemma_entry_le_sum;
use crate::ledger::lemma_index_of_unique;
use crate::ledger::sum_balances;
use crate::ledger::LedgerStore;
use crate::ledger::UserAccount;
use crate::orchestrator::deposit;
use crate::orchestrator::withdraw;
use crate::orchestrator::Deposit;
use crate::orchestrator::Withdraw;
use crate::pubkey::Pubkey;
use crate::token::TokenAccount;

verus! {

/// The whole custodial system: the ledger store, the vault that actually
/// holds the asset, and the vault authority that controls it. Its
/// well-formedness is the central cross-entity invariant: the sum of all
/// internal balances never exceeds what the vault custodies.
#[derive(Debug)]
pub struct Custody {
    pub store: LedgerStore,
    pub vault: TokenAccount,
    pub trading_bot: TradingBot,
    pub trading_bot_key: Pubkey,
}

impl Custody {
    pub open spec fn wf(&self) -> bool {
        &&& self.store.wf()
        &&& sum_balances(self.store.entries@) <= self.vault.amount
        &&& self.vault.owner == self.trading_bot_key
    }

    /// A fresh system around an existing vault controlled by the derived
    /// authority; no ledger entries yet, so nothing is owed to anyone.
    pub fn new(vault: TokenAccount, trading_bot: TradingBot, trading_bot_key: Pubkey) -> (r:
        Custody)
        requires
            vault.owner == trading_bot_key,
        ensures
            r.wf(),
            r.store.entries@ =~= Seq::<UserAccount>::empty(),
            r.vault == vault,
            r.trading_bot == trading_bot,
            r.trading_bot_key == trading_bot_key,
    {
        let store = LedgerStore::new();
        proof {
            assert(sum_balances(store.entries@) == 0);
        }
        Custody { store, vault, trading_bot, trading_bot_key }
    }

    /// `initialize` against the live system: create the caller's entry with
    /// balance zero, or fail with `AlreadyExists` and change nothing.
    pub fn initialize_owner(&mut self, owner: &Pubkey) -> (r: Result<(), ErrorCode>)
        requires
            old(self).wf(),
        ensures
            final(self).wf(),
            r is Ok <==> !old(self).store.spec_contains_owner(*owner),
            r is Err ==> r == Err::<(), ErrorCode>(ErrorCode::AlreadyExists) && *final(self)
                == *old(self),
            r is Ok ==> final(self).store.entries@ == old(self).store.entries@.push(UserAccount {
                authority: *owner,
                balance: 0,
            }),
            r is Ok ==> final(self).store.spec_contains_owner(*owner) && final(self).store.spec_balance_of(*owner) == 0,
            final(self).vault == old(self).vault,
            final(self).trading_bot == old(self).trading_bot,
            final(self).trading_bot_key == old(self).trading_bot_key,
    {
        let ghost s0 = self.store.entries@;
        let result = self.store.create(owner);
        match result {
            Ok(i) => {
                proof {
                    lemma_custody_preserved_by_initialize(
                        s0,
                        UserAccount { authority: *owner, balance: 0 },
                        self.vault.amount,
                    );
                    assert(i as int == s0.len());
                    assert(self.store.entries@[i as int] == (UserAccount {
                        authority: *owner,
                        balance: 0,
                    }));
                    lemma_index_of_unique(self.store, *owner, i as int);
                }
                Ok(())
            },
            Err(e) => Err(e),
        }
    }

    /// `deposit` against the live system: move `amount` from the caller's
    /// token account into the vault under the caller's own authority, then
    /// credit `owner`'s entry. The entry must exist — the host will not
    /// load a missing account.
    pub fn deposit_for(
        &mut self,
        owner: &Pubkey,
        user_token: &mut TokenAccount,
        authority: &Pubkey,
        amount: u64,
    ) -> (r: Result<(), ErrorCode>)
        requires
            old(self).wf(),
            old(self).store.spec_contains_owner(*owner),
        ensures
            final(self).wf(),
            r is Ok <==> old(user_token).owner == *authority && amount <= old(user_token).amount
                && old(self).vault.amount + amount <= u64::MAX,
            r is Err ==> *final(self) == *old(self) && *final(user_token) == *old(user_token),
            old(user_token).owner != *authority ==> r == Err::<(), ErrorCode>(
                ErrorCode::AuthorizationFailure,
            ),
            old(user_token).owner == *authority && (amount > old(user_token).amount || old(self).vault.amount + amount > u64::MAX) ==> r == Err::<(), ErrorCode>(
                ErrorCode::TransferPrimitiveFailure,
            ),
            r is Ok ==> final(self).store.entries@ == old(self).store.entries@.update(
                old(self).store.spec_index_of(*owner),
                UserAccount {
                    authority: *owner,
                    balance: (old(self).store.spec_balance_of(*owner) + amount) as u64,
                },
            ),
            r is Ok ==> final(self).store.spec_contains_owner(*owner) && final(self).store.spec_balance_of(*owner) == old(self).store.spec_balance_of(*owner) + amount,
            r is Ok ==> final(self).vault == (TokenAccount {
                owner: old(self).vault.owner,
                amount: (old(self).vault.amount + amount) as u64,
            }),
            r is Ok ==> *final(user_token) == (TokenAccount {
                owner: old(user_token).owner,
                amount: (old(user_token).amount - amount) as u64,
            }),
            final(self).trading_bot == old(self).trading_bot,
            final(self).trading_bot_key == old(self).trading_bot_key,
    {
        let index = match self.store.find(owner) {
            Some(i) => i,
            None => {
                // Unreachable: the entry exists by precondition.
                proof {
                    assert(false);
                }
                return Err(ErrorCode::AuthorizationFailure);
            },
        };
        proof {
            lemma_index_of_unique(self.store, *owner, index as int);
            lemma_entry_le_sum(self.store.entries@, index as int);
        }
        let entry = self.store.get(index);
        let mut ctx = Deposit {
            user_account: entry,
            user_token_account: *user_token,
            vault_token_account: self.vault,
            authority: *authority,
        };
        let result = deposit(&mut ctx, amount);
        match result {
            Ok(_) => {
                let ghost s0 = self.store.entries@;
                self.store.put(index, ctx.user_account);
                self.vault = ctx.vault_token_account;
                *user_token = ctx.user_token_account;
                proof {
                    lemma_custody_preserved_by_deposit(
                        s0,
                        index as int,
                        ctx.user_account,
                        amount,
                        old(self).vault.amount,
                    );
                    lemma_index_of_unique(self.store, *owner, index as int);
                }
                Ok(())
            },
            Err(e) => Err(e),
        }
    }

    /// `withdraw` against the live system: after the balance check, move
    /// `amount` from the vault back to the caller's token account under the
    /// derived vault authority, then debit the caller's entry. Because the
    /// custody invariant holds, the vault covers every withdrawal the
    /// ledger allows: success depends only on the caller's balance and on
    /// the destination not overflowing.
    pub fn withdraw_for(
        &mut self,
        user_token: &mut TokenAccount,
        authority: &Pubkey,
        amount: u64,
    ) -> (r: Result<(), ErrorCode>)
        requires
            old(self).wf(),
            old(self).store.spec_contains_owner(*authority),
        ensures
            final(self).wf(),
            r is Ok <==> amount <= old(self).store.spec_balance_of(*authority) && old(user_token).amount + amount <= u64::MAX,
            r is Ok ==> amount <= old(self).vault.amount,
            r is Err ==> *final(self) == *old(self) && *final(user_token) == *old(user_token),
            amount > old(self).store.spec_balance_of(*authority) ==> r == Err::<(), ErrorCode>(
                ErrorCode::InsufficientBalance,
            ),
            amount <= old(self).store.spec_balance_of(*authority) && old(user_token).amount + amount
                > u64::MAX ==> r == Err::<(), ErrorCode>(ErrorCode::TransferPrimitiveFailure),
            r is Ok ==> final(self).store.entries@ == old(self).store.entries@.update(
                old(self).store.spec_index_of(*authority),
                UserAccount {
                    authority: *authority,
                    balance: (old(self).store.spec_balance_of(*authority) - amount) as u64,
                },
            ),
            r is Ok ==> final(self).store.spec_contains_owner(*authority) && final(self).store.spec_balance_of(*authority) == old(self).store.spec_balance_of(*authority)
                - amount,
            r is Ok ==> final(self).vault == (TokenAccount {
                owner: old(self).vault.owner,
                amount: (old(self).vault.amount - amount) as u64,
            }),
            r is Ok ==> *final(user_token) == (TokenAccount {
                owner: old(user_token).owner,
                amount: (old(user_token).amount + amount) as u64,
            }),
            final(self).trading_bot == old(self).trading_bot,
            final(self).trading_bot_key == old(self).trading_bot_key,
    {
        let index = match self.store.find(authority) {
            Some(i) => i,
            None => {
                // Unreachable: the entry exists by precondition.
                proof {
                    assert(false);
                }
                return Err(ErrorCode::AuthorizationFailure);
            },
        };
        proof {
            lemma_index_of_unique(self.store, *authority, index as int);
            lemma_entry_le_sum(self.store.entries@, index as int);
        }
        let entry = self.store.get(index);
        let mut ctx = Withdraw {
            user_account: entry,
            user_token_account: *user_token,
            vault_token_account: self.vault,
            trading_bot: self.trading_bot,
            trading_bot_key: self.trading_bot_key,
            authority: *authority,
        };
        let result = withdraw(&mut ctx, amount);
        match result {
            Ok(_) => {
                let ghost s0 = self.store.entries@;
                self.store.put(index, ctx.user_account);
                self.vault = ctx.vault_token_account;
                *user_token = ctx.user_token_account;
                proof {
                    lemma_custody_preserved_by_withdraw(
                        s0,
                        index as int,
                        ctx.user_account,
                        amount,
                        old(self).vault.amount,
                    );
                    lemma_index_of_unique(self.store, *authority, index as int);
                }
                Ok(())
            },
            Err(e) => Err(e),
        }
    }
}

} // verus!
