use vstd::prelude::*;

use crate::client::OperationState;
use crate::transaction::{Amount, TransactionId};

verus! {

/// Why a single operation was rejected. A rejection is always local to the
/// offending operation: the account it targeted is left exactly as it was.
#[derive(Debug, PartialEq)]
pub enum Error {
    /// An input row could not be decoded into a well-formed operation.
    ParsingFailure(String),
    /// A deposit or withdrawal reused a transaction identifier that the
    /// account already has a record for.
    DuplicatedTransaction(TransactionId),
    /// A dispute, resolve or chargeback referenced an identifier with no
    /// record on the account.
    TransactionNotFound(TransactionId),
    /// A withdrawal asked for more than the available balance.
    InsufficientFunds { id: TransactionId, available: Amount, requested: Amount },
    /// The transaction's current lifecycle state does not permit the
    /// requested transition.
    InvalidTransactionStateChange { id: TransactionId, from: OperationState, to: OperationState },
    /// The account was frozen by an earlier chargeback; every later
    /// operation on it is rejected.
    AccountLocked(TransactionId),
    /// Holding the disputed funds would have driven the available balance
    /// negative.
    FailedDisputeNotEnoughFunds(TransactionId),
}

} // verus!
