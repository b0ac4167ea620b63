use trading_bot::deposit;
use trading_bot::initialize;
use trading_bot::token::transfer;
use trading_bot::withdraw;
use trading_bot::withdraw_allowed;
use trading_bot::Deposit;
use trading_bot::ErrorCode;
use trading_bot::Initialize;
use trading_bot::LedgerStore;
use trading_bot::Pubkey;
use trading_bot::TokenAccount;
use trading_bot::TradingBot;
use trading_bot::UserAccount;
use trading_bot::Withdraw;

fn key(tag: u8) -> Pubkey {
    Pubkey { bytes: [tag; 32] }
}

fn withdraw_ctx(balance: u64, user_tokens: u64, vault_tokens: u64) -> Withdraw {
    let user = key(1);
    let bot_key = key(9);
    Withdraw {
        user_account: UserAccount { authority: user, balance },
        user_token_account: TokenAccount { owner: user, amount: user_tokens },
        vault_token_account: TokenAccount { owner: bot_key, amount: vault_tokens },
        trading_bot: TradingBot { bump: 254 },
        trading_bot_key: bot_key,
        authority: user,
    }
}

#[test]
fn transfer_moves_the_amount() {
    let user = key(1);
    let mut from = TokenAccount { owner: user, amount: 100 };
    let mut to = TokenAccount { owner: key(2), amount: 5 };
    assert_eq!(transfer(&mut from, &mut to, &user, 60), Ok(()));
    assert_eq!(from.amount, 40);
    assert_eq!(to.amount, 65);
}

#[test]
fn transfer_rejects_wrong_authority() {
    let mut from = TokenAccount { owner: key(1), amount: 100 };
    let mut to = TokenAccount { owner: key(2), amount: 5 };
    let r = transfer(&mut from, &mut to, &key(3), 60);
    assert_eq!(r, Err(ErrorCode::AuthorizationFailure));
    assert_eq!(from.amount, 100);
    assert_eq!(to.amount, 5);
}

#[test]
fn transfer_rejects_overdraw_and_overflow() {
    let user = key(1);
    let mut from = TokenAccount { owner: user, amount: 100 };
    let mut to = TokenAccount { owner: key(2), amount: u64::MAX - 10 };
    assert_eq!(
        transfer(&mut from, &mut to, &user, 101),
        Err(ErrorCode::TransferPrimitiveFailure)
    );
    assert_eq!(
        transfer(&mut from, &mut to, &user, 11),
        Err(ErrorCode::TransferPrimitiveFailure)
    );
    assert_eq!(from.amount, 100);
    assert_eq!(to.amount, u64::MAX - 10);
}

#[test]
fn initialize_creates_then_rejects_duplicate() {
    let owner = key(1);
    let mut ctx = Initialize { store: LedgerStore::new(), authority: owner };
    assert_eq!(initialize(&mut ctx), Ok(()));
    assert_eq!(ctx.store.entries.len(), 1);
    assert_eq!(ctx.store.entries[0].authority, owner);
    assert_eq!(ctx.store.entries[0].balance, 0);
    assert_eq!(initialize(&mut ctx), Err(ErrorCode::AlreadyExists));
    assert_eq!(ctx.store.entries.len(), 1);
}

#[test]
fn deposit_credits_after_successful_transfer() {
    let user = key(1);
    let mut ctx = Deposit {
        user_account: UserAccount { authority: user, balance: 0 },
        user_token_account: TokenAccount { owner: user, amount: 250 },
        vault_token_account: TokenAccount { owner: key(9), amount: 0 },
        authority: user,
    };
    assert_eq!(deposit(&mut ctx, 100), Ok(()));
    assert_eq!(ctx.user_account.balance, 100);
    assert_eq!(ctx.user_token_account.amount, 150);
    assert_eq!(ctx.vault_token_account.amount, 100);
}

#[test]
fn failed_transfer_leaves_deposit_context_unchanged() {
    let user = key(1);
    let before = Deposit {
        user_account: UserAccount { authority: user, balance: 30 },
        user_token_account: TokenAccount { owner: user, amount: 50 },
        vault_token_account: TokenAccount { owner: key(9), amount: 40 },
        authority: user,
    };
    let mut ctx = before;
    // The primitive fails: the source account holds fewer tokens than asked.
    let r = deposit(&mut ctx, 51);
    assert_eq!(r, Err(ErrorCode::TransferPrimitiveFailure));
    assert_eq!(ctx, before);
}

#[test]
fn deposit_by_non_owner_of_tokens_is_rejected() {
    let user = key(1);
    let before = Deposit {
        user_account: UserAccount { authority: user, balance: 0 },
        user_token_account: TokenAccount { owner: key(5), amount: 50 },
        vault_token_account: TokenAccount { owner: key(9), amount: 0 },
        authority: user,
    };
    let mut ctx = before;
    assert_eq!(deposit(&mut ctx, 10), Err(ErrorCode::AuthorizationFailure));
    assert_eq!(ctx, before);
}

#[test]
fn deposit_of_zero_is_a_legal_no_op() {
    let user = key(1);
    let mut ctx = Deposit {
        user_account: UserAccount { authority: user, balance: 70 },
        user_token_account: TokenAccount { owner: user, amount: 50 },
        vault_token_account: TokenAccount { owner: key(9), amount: 80 },
        authority: user,
    };
    assert_eq!(deposit(&mut ctx, 0), Ok(()));
    assert_eq!(ctx.user_account.balance, 70);
    assert_eq!(ctx.user_token_account.amount, 50);
    assert_eq!(ctx.vault_token_account.amount, 80);
}

#[test]
fn withdraw_guard_checks_owner_then_balance() {
    let owner = key(1);
    let entry = UserAccount { authority: owner, balance: 100 };
    assert_eq!(withdraw_allowed(&entry, &owner, 100), Ok(()));
    assert_eq!(withdraw_allowed(&entry, &owner, 101), Err(ErrorCode::InsufficientBalance));
    assert_eq!(withdraw_allowed(&entry, &key(2), 1), Err(ErrorCode::AuthorizationFailure));
}

#[test]
fn withdraw_past_balance_fails_before_any_transfer() {
    let before = withdraw_ctx(100, 0, 500);
    let mut ctx = before;
    let r = withdraw(&mut ctx, 150);
    assert_eq!(r, Err(ErrorCode::InsufficientBalance));
    // Bit-for-bit unchanged: in particular both token accounts, so the
    // transfer primitive was never reached.
    assert_eq!(ctx, before);

    // Even when the primitive itself would also have refused (the vault is
    // not under the derived authority), the error is the balance check's:
    // the check runs strictly first.
    let mut bad_vault = withdraw_ctx(100, 0, 500);
    bad_vault.vault_token_account.owner = key(3);
    assert_eq!(withdraw(&mut bad_vault, 150), Err(ErrorCode::InsufficientBalance));
}

#[test]
fn withdraw_debits_and_uses_the_derived_authority() {
    let mut ctx = withdraw_ctx(100, 0, 500);
    // The vault is owned by the derived trading-bot key, not by the caller:
    // only the derived signature can move it.
    assert!(ctx.vault_token_account.owner != ctx.authority);
    assert_eq!(withdraw(&mut ctx, 40), Ok(()));
    assert_eq!(ctx.user_account.balance, 60);
    assert_eq!(ctx.user_token_account.amount, 40);
    assert_eq!(ctx.vault_token_account.amount, 460);
}

#[test]
fn withdraw_fails_when_vault_not_owned_by_derived_key() {
    let mut before = withdraw_ctx(100, 0, 500);
    before.vault_token_account.owner = key(2);
    let mut ctx = before;
    assert_eq!(withdraw(&mut ctx, 40), Err(ErrorCode::AuthorizationFailure));
    assert_eq!(ctx, before);
}

#[test]
fn withdraw_by_stranger_is_rejected_before_balance_check() {
    let mut before = withdraw_ctx(100, 0, 500);
    before.authority = key(4);
    let mut ctx = before;
    assert_eq!(withdraw(&mut ctx, 40), Err(ErrorCode::AuthorizationFailure));
    assert_eq!(ctx, before);
}

#[test]
fn withdraw_propagates_an_overdrawn_vault() {
    let before = withdraw_ctx(100, 0, 30);
    let mut ctx = before;
    assert_eq!(withdraw(&mut ctx, 40), Err(ErrorCode::TransferPrimitiveFailure));
    assert_eq!(ctx, before);
}
