use trading_bot::encoding::decode_user_account;
use trading_bot::encoding::decode_vault_authority;
use trading_bot::encoding::encode_user_account;
use trading_bot::encoding::encode_vault_authority;
use trading_bot::Pubkey;
use trading_bot::TradingBot;
use trading_bot::UserAccount;

#[test]
fn user_account_encodes_owner_then_little_endian_balance() {
    let account = UserAccount { authority: Pubkey { bytes: [7u8; 32] }, balance: 258 };
    let bytes = encode_user_account(&account);
    let mut expected = vec![7u8; 32];
    expected.extend_from_slice(&[2, 1, 0, 0, 0, 0, 0, 0]);
    assert_eq!(bytes, expected);
}

#[test]
fn user_account_encoding_round_trips() {
    let account = UserAccount {
        authority: Pubkey { bytes: [0xabu8; 32] },
        balance: u64::MAX - 12345,
    };
    let decoded = decode_user_account(&encode_user_account(&account)).unwrap();
    assert_eq!(decoded, account);
}

#[test]
fn user_account_decode_rejects_wrong_length() {
    assert_eq!(decode_user_account(&vec![0u8; 39]), None);
    assert_eq!(decode_user_account(&vec![0u8; 41]), None);
    assert_eq!(decode_user_account(&Vec::new()), None);
}

#[test]
fn vault_authority_record_is_the_bump_byte() {
    let bot = TradingBot { bump: 254 };
    let bytes = encode_vault_authority(&bot);
    assert_eq!(bytes, vec![254u8]);
    assert_eq!(decode_vault_authority(&bytes), Some(bot));
    assert_eq!(decode_vault_authority(&vec![1u8, 2u8]), None);
}
