use vstd::prelude::*;

use crate::errors::TransferError;

verus! {

/// A ledger balance: a non-negative integer amount of one asset.
pub type Balance = u128;

/// One account's holdings of the two pool assets.
#[derive(Clone, Copy, Debug, PartialEq, Eq, Structural)]
pub struct AccountBalances {
    pub eur: Balance,
    pub usd: Balance,
}

/// The slice of the host ledger that a single pool operation touches:
/// the calling account's balances and the pool account's balances, one
/// per asset. The host reads these balances before an operation and
/// writes them back only when the operation succeeds, so the engine's
/// all-or-nothing contracts are stated directly over this value.
#[derive(Clone, Copy, Debug, PartialEq, Eq, Structural)]
pub struct Ledger {
    pub caller: AccountBalances,
    pub pool: AccountBalances,
}

/// When the ledger accepts moving `amount` out of a balance `from`
/// into a balance `to`: the source must not go negative and the
/// destination must stay within the balance type's range.
pub open spec fn transfer_ok(from: int, to: int, amount: int) -> bool {
    0 <= amount <= from && to + amount <= u128::MAX
}

/// The error a refused transfer reports; the source balance is checked
/// before the destination's headroom.
pub open spec fn transfer_failure(from: int, to: int, amount: int) -> TransferError {
    if from < amount {
        TransferError::InsufficientBalance
    } else {
        TransferError::BalanceOverflow
    }
}

/// Moves `amount` from one balance to another, returning the two new
/// balances, and fails without effect exactly when the ledger's
/// transfer conditions do not hold.
pub fn transfer(from: Balance, to: Balance, amount: Balance) -> (r: Result<
    (Balance, Balance),
    TransferError,
>)
    ensures
        r is Ok <==> transfer_ok(from as int, to as int, amount as int),
        transfer_ok(from as int, to as int, amount as int) ==> r == Ok::<_, TransferError>(
            (((from - amount) as Balance), ((to + amount) as Balance)),
        ),
        !transfer_ok(from as int, to as int, amount as int) ==> r == Err::<(Balance, Balance), _>(
            transfer_failure(from as int, to as int, amount as int),
        ),
{
    if amount > from {
        return Err(TransferError::InsufficientBalance);
    }
    match to.checked_add(amount) {
        Some(new_to) => Ok((from - amount, new_to)),
        None => Err(TransferError::BalanceOverflow),
    }
}

} // verus!
