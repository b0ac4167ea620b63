use vstd::prelude::*;

use crate::errors::ErrorCode;
use crate::pubkey::Pubkey;

verus! {

/// What the ledger logic reads of a fungible-token account: the authority
/// that may move funds out of it, and the amount it currently holds.
#[derive(Clone, Copy, Debug, PartialEq)]
pub struct TokenAccount {
    pub owner: Pubkey,
    pub amount: u64,
}

/// The transfer primitive, with the accounting the external token engine
/// guarantees: atomically move `amount` from `from` to `to` when `authority`
/// controls `from` and the movement neither overdraws the source nor
/// overflows the destination; otherwise fail and change nothing.
pub fn transfer(
    from: &mut TokenAccount,
    to: &mut TokenAccount,
    authority: &Pubkey,
    amount: u64,
) -> (r: Result<(), ErrorCode>)
    ensures
        r is Ok <==> old(from).owner == *authority && amount <= old(from).amount
            && old(to).amount + amount <= u64::MAX,
        r is Ok ==> *final(from) == (TokenAccount {
            owner: old(from).owner,
            amount: (old(from).amount - amount) as u64,
        }),
        r is Ok ==> *final(to) == (TokenAccount {
            owner: old(to).owner,
            amount: (old(to).amount + amount) as u64,
        }),
        r is Err ==> *final(from) == *old(from) && *final(to) == *old(to),
        old(from).owner != *authority ==> r == Err::<(), ErrorCode>(ErrorCode::AuthorizationFailure),
        old(from).owner == *authority && (amount > old(from).amount
            || old(to).amount + amount > u64::MAX)
            ==> r == Err::<(), ErrorCode>(ErrorCode::TransferPrimitiveFailure),
{
    if !(from.owner == *authority) {
        return Err(ErrorCode::AuthorizationFailure);
    }
    if amount > from.amount {
        return Err(ErrorCode::TransferPrimitiveFailure);
    }
    if amount > u64::MAX - to.amount {
        return Err(ErrorCode::TransferPrimitiveFailure);
    }
    from.amount = from.amount - amount;
    to.amount = to.amount + amount;
    Ok(())
}

} // verus!
