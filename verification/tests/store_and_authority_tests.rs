use trading_bot::ErrorCode;
use trading_bot::LedgerStore;
use trading_bot::Pubkey;
use trading_bot::TradingBot;
use trading_bot::UserAccount;

fn key(tag: u8) -> Pubkey {
    Pubkey { bytes: [tag; 32] }
}

#[test]
fn pubkey_equality_compares_all_bytes() {
    let a = key(7);
    let b = key(7);
    let mut c = key(7);
    c.bytes[31] = 8;
    assert!(a == b);
    assert!(a != c);
}

#[test]
fn empty_store_finds_nothing() {
    let store = LedgerStore::new();
    assert_eq!(store.find(&key(1)), None);
}

#[test]
fn create_then_find_returns_zero_balance_entry() {
    let mut store = LedgerStore::new();
    let owner = key(1);
    let index = store.create(&owner).unwrap();
    let entry = store.get(index);
    assert_eq!(entry.authority, owner);
    assert_eq!(entry.balance, 0);
    assert_eq!(store.find(&owner), Some(index));
}

#[test]
fn create_twice_fails_already_exists() {
    let mut store = LedgerStore::new();
    let owner = key(1);
    assert!(store.create(&owner).is_ok());
    assert_eq!(store.create(&owner), Err(ErrorCode::AlreadyExists));
    assert_eq!(store.entries.len(), 1);
}

#[test]
fn put_writes_back_the_entry() {
    let mut store = LedgerStore::new();
    let owner = key(1);
    let other = key(2);
    let i = store.create(&owner).unwrap();
    let j = store.create(&other).unwrap();
    store.put(i, UserAccount { authority: owner, balance: 25 });
    assert_eq!(store.get(i).balance, 25);
    assert_eq!(store.get(j).balance, 0);
}

#[test]
fn signing_seeds_are_domain_tag_then_bump() {
    let bot = TradingBot { bump: 253 };
    let seeds = bot.signing_seeds();
    assert_eq!(seeds.len(), 2);
    assert_eq!(seeds[0], b"trading_bot".to_vec());
    assert_eq!(seeds[1], vec![253u8]);
}

#[test]
fn signing_seeds_track_the_stored_bump() {
    let bot = TradingBot { bump: 0 };
    assert_eq!(bot.signing_seeds()[1], vec![0u8]);
}
