use vstd::prelude::*;

verus! {

/// The single failure the pricing core itself raises: a checked
/// arithmetic step of the swap computation overflowed or divided by
/// zero.
#[derive(Clone, Copy, Debug, PartialEq, Eq, Structural)]
pub enum Error {
    GenericError,
}

/// Why the ledger refused to move an amount between two accounts.
#[derive(Clone, Copy, Debug, PartialEq, Eq, Structural)]
pub enum TransferError {
    /// The source account holds less than the requested amount.
    InsufficientBalance,
    /// The destination balance would leave the balance type's range.
    BalanceOverflow,
}

/// Everything a pool operation can fail with: the engine's own
/// arithmetic error, or a transfer failure propagated unchanged from
/// the ledger. Either way the operation commits nothing.
#[derive(Clone, Copy, Debug, PartialEq, Eq, Structural)]
pub enum DispatchError {
    Arithmetic(Error),
    Transfer(TransferError),
}

} // verus!
