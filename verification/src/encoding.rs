use vstd::prelude::*;

use vstd::arithmetic::div_mod::lemma_div_denominator;
use vstd::arithmetic::div_mod::lemma_fundamental_div_mod;

use crate::authority::TradingBot;
use crate::ledger::UserAccount;
use crate::pubkey::Pubkey;

verus! {

/// The balance as eight little-endian bytes.
pub open spec fn spec_le_bytes(v: u64) -> Seq<u8> {
    seq![
        (v % 256) as u8,
        ((v / 256) % 256) as u8,
        ((v / 65536) % 256) as u8,
        ((v / 16777216) % 256) as u8,
        ((v / 4294967296) % 256) as u8,
        ((v / 1099511627776) % 256) as u8,
        ((v / 281474976710656) % 256) as u8,
        (v / 72057594037927936) as u8,
    ]
}

/// The value eight little-endian bytes stand for.
pub open spec fn spec_le_value(b: Seq<u8>) -> int
    recommends
        b.len() == 8,
{
    b[0] + 256 * b[1] + 65536 * b[2] + 16777216 * b[3] + 4294967296 * b[4] + 1099511627776 * b[5]
        + 281474976710656 * b[6] + 72057594037927936 * b[7]
}

/// The 40-byte persisted form of a ledger entry: the owner's 32 key bytes,
/// then the balance, little endian. The host's 8-byte account header is the
/// host's own framing and stands outside this record.
pub open spec fn spec_encode_user_account(a: UserAccount) -> Seq<u8> {
    a.authority.bytes@ + spec_le_bytes(a.balance)
}

/// Law: the little-endian bytes of a balance stand for that balance.
pub proof fn lemma_le_bytes_round_trip(v: u64)
    ensures
        spec_le_value(spec_le_bytes(v)) == v,
{
    let x = v as int;
    lemma_fundamental_div_mod(x, 256);
    lemma_div_denominator(x, 256, 256);
    lemma_fundamental_div_mod(x / 256, 256);
    lemma_div_denominator(x, 65536, 256);
    lemma_fundamental_div_mod(x / 65536, 256);
    lemma_div_denominator(x, 16777216, 256);
    lemma_fundamental_div_mod(x / 16777216, 256);
    lemma_div_denominator(x, 4294967296, 256);
    lemma_fundamental_div_mod(x / 4294967296, 256);
    lemma_div_denominator(x, 1099511627776, 256);
    lemma_fundamental_div_mod(x / 1099511627776, 256);
    lemma_div_denominator(x, 281474976710656, 256);
    lemma_fundamental_div_mod(x / 281474976710656, 256);
}

/// Law: the 40-byte record is lossless — the owner bytes and the balance
/// are recovered exactly from it.
pub proof fn lemma_user_account_encoding_round_trip(a: UserAccount)
    ensures
        spec_encode_user_account(a).len() == 40,
        spec_encode_user_account(a).subrange(0, 32) == a.authority.bytes@,
        spec_le_value(spec_encode_user_account(a).subrange(32, 40)) == a.balance,
{
    lemma_le_bytes_round_trip(a.balance);
    assert(spec_encode_user_account(a).subrange(0, 32) =~= a.authority.bytes@);
    assert(spec_encode_user_account(a).subrange(32, 40) =~= spec_le_bytes(a.balance));
}

/// The stable byte layout the host persists between invocations.
pub fn encode_user_account(a: &UserAccount) -> (r: Vec<u8>)
    ensures
        r@ == spec_encode_user_account(*a),
        r@.len() == 40,
{
    let mut out: Vec<u8> = Vec::new();
    let mut i: usize = 0;
    while i < 32
        invariant
            0 <= i <= 32,
            out@.len() == i,
            forall|j: int| 0 <= j < i ==> out@[j] == a.authority.bytes@[j],
        decreases 32 - i,
    {
        out.push(a.authority.bytes[i]);
        i = i + 1;
    }
    let v = a.balance;
    out.push((v % 256) as u8);
    out.push(((v / 256) % 256) as u8);
    out.push(((v / 65536) % 256) as u8);
    out.push(((v / 16777216) % 256) as u8);
    out.push(((v / 4294967296) % 256) as u8);
    out.push(((v / 1099511627776) % 256) as u8);
    out.push(((v / 281474976710656) % 256) as u8);
    out.push((v / 72057594037927936) as u8);
    proof {
        assert(out@ =~= spec_encode_user_account(*a));
    }
    out
}

/// Read a ledger entry back from its persisted bytes; anything but exactly
/// 40 bytes is rejected.
pub fn decode_user_account(bytes: &Vec<u8>) -> (r: Option<UserAccount>)
    ensures
        match r {
            Some(a) => bytes@.len() == 40 && a.authority.bytes@ == bytes@.subrange(0, 32)
                && a.balance == spec_le_value(bytes@.subrange(32, 40)),
            None => bytes@.len() != 40,
        },
{
    if bytes.len() != 40 {
        return None;
    }
    let mut owner = [0u8; 32];
    let mut i: usize = 0;
    while i < 32
        invariant
            0 <= i <= 32,
            bytes@.len() == 40,
            forall|j: int| 0 <= j < i ==> owner@[j] == bytes@[j],
        decreases 32 - i,
    {
        owner[i] = bytes[i];
        i = i + 1;
    }
    let balance = bytes[32] as u64 + bytes[33] as u64 * 256 + bytes[34] as u64 * 65536 + bytes[35]
        as u64 * 16777216 + bytes[36] as u64 * 4294967296 + bytes[37] as u64 * 1099511627776
        + bytes[38] as u64 * 281474976710656 + bytes[39] as u64 * 72057594037927936;
    proof {
        assert(owner@ =~= bytes@.subrange(0, 32));
        assert(bytes@.subrange(32, 40)[0] == bytes@[32]);
    }
    Some(UserAccount { authority: Pubkey { bytes: owner }, balance })
}

/// The 1-byte persisted form of the vault authority record: the bump alone.
pub fn encode_vault_authority(bot: &TradingBot) -> (r: Vec<u8>)
    ensures
        r@ == seq![bot.bump],
{
    let mut out: Vec<u8> = Vec::new();
    out.push(bot.bump);
    proof {
        assert(out@ =~= seq![bot.bump]);
    }
    out
}

/// Read the vault authority record back; anything but exactly one byte is
/// rejected.
pub fn decode_vault_authority(bytes: &Vec<u8>) -> (r: Option<TradingBot>)
    ensures
        match r {
            Some(bot) => bytes@ == seq![bot.bump],
            None => bytes@.len() != 1,
        },
{
    if bytes.len() != 1 {
        return None;
    }
    let bot = TradingBot { bump: bytes[0] };
    proof {
        assert(bytes@ =~= seq![bot.bump]);
    }
    Some(bot)
}

} // verus!
