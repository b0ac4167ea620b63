use vstd::prelude::*;

use crate::accounting::apply_op;
use crate::accounting::LedgerOp;
use crate::authority::TradingBot;
use crate::errors::ErrorCode;
use crate::ledger::apply_deposit;
use crate::ledger::apply_withdraw;
use crate::ledger::LedgerStore;
use crate::ledger::UserAccount;
use crate::pubkey::Pubkey;
use crate::token::transfer;
use crate::token::TokenAccount;

verus! {

/// Accounts taking part in `initialize`: the store that will hold the new
/// entry, and the caller who will own it.
#[derive(Debug)]
pub struct Initialize {
    pub store: LedgerStore,
    pub authority: Pubkey,
}

/// Accounts taking part in `deposit`: the caller's ledger entry, the
/// caller's token account, the vault, and the caller's identity.
#[derive(Clone, Copy, Debug, PartialEq)]
pub struct Deposit {
    pub user_account: UserAccount,
    pub user_token_account: TokenAccount,
    pub vault_token_account: TokenAccount,
    pub authority: Pubkey,
}

/// Accounts taking part in `withdraw`: as for `deposit`, plus the vault
/// authority record and its derived address `trading_bot_key`, the signer
/// that controls the vault.
#[derive(Clone, Copy, Debug, PartialEq)]
pub struct Withdraw {
    pub user_account: UserAccount,
    pub user_token_account: TokenAccount,
    pub vault_token_account: TokenAccount,
    pub trading_bot: TradingBot,
    pub trading_bot_key: Pubkey,
    pub authority: Pubkey,
}

/// Create the caller's ledger entry with balance zero; fail with
/// `AlreadyExists`, changing nothing, when the caller already has one.
pub fn initialize(ctx: &mut Initialize) -> (r: Result<(), ErrorCode>)
    requires
        old(ctx).store.wf(),
    ensures
        final(ctx).store.wf(),
        final(ctx).authority == old(ctx).authority,
        r is Ok <==> !old(ctx).store.spec_contains_owner(old(ctx).authority),
        r is Err ==> r == Err::<(), ErrorCode>(ErrorCode::AlreadyExists) && *final(ctx) == *old(ctx),
        r is Ok ==> final(ctx).store.entries@ == old(ctx).store.entries@.push(UserAccount {
            authority: old(ctx).authority,
            balance: 0,
        }),
{
    let owner = ctx.authority;
    match ctx.store.create(&owner) {
        Ok(_) => Ok(()),
        Err(e) => Err(e),
    }
}

/// Move `amount` from the caller's token account into the vault, under the
/// caller's own authority, and credit the caller's ledger entry — but only
/// after the transfer primitive has succeeded. On any failure nothing
/// changes. The caller's balance never exceeds what the vault custodies
/// (the custody invariant), which is what rules out overflowing the
/// credited balance here.
pub fn deposit(ctx: &mut Deposit, amount: u64) -> (r: Result<(), ErrorCode>)
    requires
        old(ctx).user_account.balance <= old(ctx).vault_token_account.amount,
    ensures
        r is Ok <==> old(ctx).user_token_account.owner == old(ctx).authority
            && amount <= old(ctx).user_token_account.amount
            && old(ctx).vault_token_account.amount + amount <= u64::MAX,
        r is Ok ==> Some(final(ctx).user_account.balance) == apply_op(
            old(ctx).user_account.balance,
            LedgerOp::Deposit(amount),
        ),
        r is Ok ==> *final(ctx) == (Deposit {
            user_account: UserAccount {
                authority: old(ctx).user_account.authority,
                balance: (old(ctx).user_account.balance + amount) as u64,
            },
            user_token_account: TokenAccount {
                owner: old(ctx).user_token_account.owner,
                amount: (old(ctx).user_token_account.amount - amount) as u64,
            },
            vault_token_account: TokenAccount {
                owner: old(ctx).vault_token_account.owner,
                amount: (old(ctx).vault_token_account.amount + amount) as u64,
            },
            authority: old(ctx).authority,
        }),
        r is Err ==> *final(ctx) == *old(ctx),
        old(ctx).user_token_account.owner != old(ctx).authority ==> r == Err::<(), ErrorCode>(
            ErrorCode::AuthorizationFailure,
        ),
        old(ctx).user_token_account.owner == old(ctx).authority && (amount > old(ctx).user_token_account.amount || old(ctx).vault_token_account.amount + amount > u64::MAX)
            ==> r == Err::<(), ErrorCode>(ErrorCode::TransferPrimitiveFailure),
{
    let result = transfer(
        &mut ctx.user_token_account,
        &mut ctx.vault_token_account,
        &ctx.authority,
        amount,
    );
    match result {
        Ok(_) => {
            apply_deposit(&mut ctx.user_account, amount);
            Ok(())
        },
        Err(e) => Err(e),
    }
}

/// The guard that must run strictly before any outbound transfer is
/// attempted: only the entry's recorded owner may withdraw, and only up to
/// the recorded balance.
pub fn withdraw_allowed(account: &UserAccount, authority: &Pubkey, amount: u64) -> (r: Result<
    (),
    ErrorCode,
>)
    ensures
        r is Ok <==> *authority == account.authority && amount <= account.balance,
        *authority != account.authority ==> r == Err::<(), ErrorCode>(
            ErrorCode::AuthorizationFailure,
        ),
        *authority == account.authority && amount > account.balance ==> r == Err::<(), ErrorCode>(
            ErrorCode::InsufficientBalance,
        ),
{
    if !(*authority == account.authority) {
        return Err(ErrorCode::AuthorizationFailure);
    }
    if account.balance < amount {
        return Err(ErrorCode::InsufficientBalance);
    }
    Ok(())
}

/// Move `amount` from the vault back to the caller's token account, under
/// the derived vault authority — never the caller's key — and debit the
/// caller's ledger entry afterwards. The balance check comes strictly
/// before the transfer is attempted; on any failure nothing changes.
pub fn withdraw(ctx: &mut Withdraw, amount: u64) -> (r: Result<(), ErrorCode>)
    ensures
        r is Ok <==> old(ctx).authority == old(ctx).user_account.authority && amount <= old(ctx).user_account.balance && old(ctx).vault_token_account.owner == old(ctx).trading_bot_key
            && amount <= old(ctx).vault_token_account.amount
            && old(ctx).user_token_account.amount + amount <= u64::MAX,
        r is Ok ==> Some(final(ctx).user_account.balance) == apply_op(
            old(ctx).user_account.balance,
            LedgerOp::Withdraw(amount),
        ),
        r is Ok ==> *final(ctx) == (Withdraw {
            user_account: UserAccount {
                authority: old(ctx).user_account.authority,
                balance: (old(ctx).user_account.balance - amount) as u64,
            },
            user_token_account: TokenAccount {
                owner: old(ctx).user_token_account.owner,
                amount: (old(ctx).user_token_account.amount + amount) as u64,
            },
            vault_token_account: TokenAccount {
                owner: old(ctx).vault_token_account.owner,
                amount: (old(ctx).vault_token_account.amount - amount) as u64,
            },
            trading_bot: old(ctx).trading_bot,
            trading_bot_key: old(ctx).trading_bot_key,
            authority: old(ctx).authority,
        }),
        r is Err ==> *final(ctx) == *old(ctx),
        old(ctx).authority != old(ctx).user_account.authority ==> r == Err::<(), ErrorCode>(
            ErrorCode::AuthorizationFailure,
        ),
        old(ctx).authority == old(ctx).user_account.authority && amount > old(ctx).user_account.balance ==> r == Err::<(), ErrorCode>(ErrorCode::InsufficientBalance),
        old(ctx).authority == old(ctx).user_account.authority && amount <= old(ctx).user_account.balance && old(ctx).vault_token_account.owner != old(ctx).trading_bot_key
            ==> r == Err::<(), ErrorCode>(ErrorCode::AuthorizationFailure),
        old(ctx).authority == old(ctx).user_account.authority && amount <= old(ctx).user_account.balance && old(ctx).vault_token_account.owner == old(ctx).trading_bot_key
            && (amount > old(ctx).vault_token_account.amount || old(ctx).user_token_account.amount
            + amount > u64::MAX) ==> r == Err::<(), ErrorCode>(ErrorCode::TransferPrimitiveFailure),
{
    match withdraw_allowed(&ctx.user_account, &ctx.authority, amount) {
        Ok(_) => {},
        Err(e) => {
            return Err(e);
        },
    }
    let result = transfer(
        &mut ctx.vault_token_account,
        &mut ctx.user_token_account,
        &ctx.trading_bot_key,
        amount,
    );
    match result {
        Ok(_) => {
            apply_withdraw(&mut ctx.user_account, amount);
            Ok(())
        },
        Err(e) => Err(e),
    }
}

} // verus!
