use vstd::prelude::*;

verus! {

/// One balance-changing operation on a single owner's ledger entry.
#[derive(Clone, Copy, Debug, PartialEq, Eq, Structural)]
pub enum LedgerOp {
    Deposit(u64),
    Withdraw(u64),
}

/// The balance after one successful operation; `None` when the operation
/// cannot succeed on that balance (a withdrawal past the balance, or a
/// deposit past the representable maximum).
pub open spec fn apply_op(balance: u64, op: LedgerOp) -> Option<u64> {
    match op {
        LedgerOp::Deposit(amount) => if balance + amount <= u64::MAX {
            Some((balance + amount) as u64)
        } else {
            None
        },
        LedgerOp::Withdraw(amount) => if amount <= balance {
            Some((balance - amount) as u64)
        } else {
            None
        },
    }
}

/// The balance after a whole sequence of operations, each of which must
/// succeed.
pub open spec fn apply_ops(balance: u64, ops: Seq<LedgerOp>) -> Option<u64>
    decreases ops.len(),
{
    if ops.len() == 0 {
        Some(balance)
    } else {
        match apply_op(balance, ops[0]) {
            Some(b) => apply_ops(b, ops.drop_first()),
            None => None,
        }
    }
}

/// Total amount deposited over a sequence of operations.
pub open spec fn deposits_total(ops: Seq<LedgerOp>) -> int
    decreases ops.len(),
{
    if ops.len() == 0 {
        0
    } else {
        (match ops[0] {
            LedgerOp::Deposit(amount) => amount as int,
            LedgerOp::Withdraw(_) => 0,
        }) + deposits_total(ops.drop_first())
    }
}

/// Total amount withdrawn over a sequence of operations.
pub open spec fn withdrawals_total(ops: Seq<LedgerOp>) -> int
    decreases ops.len(),
{
    if ops.len() == 0 {
        0
    } else {
        (match ops[0] {
            LedgerOp::Deposit(_) => 0,
            LedgerOp::Withdraw(amount) => amount as int,
        }) + withdrawals_total(ops.drop_first())
    }
}

/// Law: after any sequence of successful deposits and withdrawals, the
/// balance equals the starting balance plus the total deposited minus the
/// total withdrawn — and, being unsigned, that net amount is never negative.
pub proof fn lemma_balance_is_net_flow(balance: u64, ops: Seq<LedgerOp>)
    requires
        apply_ops(balance, ops) is Some,
    ensures
        apply_ops(balance, ops) == Some(
            (balance + deposits_total(ops) - withdrawals_total(ops)) as u64,
        ),
        balance + deposits_total(ops) - withdrawals_total(ops) >= 0,
    decreases ops.len(),
{
    if ops.len() == 0 {
    } else {
        let b1 = apply_op(balance, ops[0]);
        match b1 {
            Some(b) => {
                lemma_balance_is_net_flow(b, ops.drop_first());
            },
            None => {},
        }
    }
}

} // verus!
