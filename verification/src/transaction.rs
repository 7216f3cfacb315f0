use vstd::prelude::*;

use crate::client::ClientId;

verus! {

/// Identifier of a deposit or withdrawal. Dispute, resolve and chargeback
/// instructions carry the identifier of the transaction they refer to.
pub type TransactionId = u32;

/// A monetary amount, counted in the currency's smallest unit.
///
/// The engine only ever adds, subtracts and compares amounts, so it does not
/// depend on where the decimal point sits; callers pick a fixed scale when
/// they decode textual input and keep it when they render the final report.
pub type Amount = i64;

/// What a single operation asks for: a movement of funds (with its amount)
/// or an instruction about the lifecycle of an earlier transaction.
#[derive(Debug, Clone, Copy, PartialEq)]
pub enum OperationType {
    Deposit { amount: Amount },
    Withdrawal { amount: Amount },
    Dispute,
    Resolve,
    Chargeback,
}

/// One requested action on an account: a transaction identifier and the kind
/// of operation, with an amount only where the kind carries one.
#[derive(Debug, Clone, Copy, PartialEq)]
pub struct Operation {
    pub id: TransactionId,
    pub kind: OperationType,
}

/// An [`Operation`] routed to a particular client account.
#[derive(Debug, Clone, Copy, PartialEq)]
pub struct Transaction {
    pub op: Operation,
    pub client_id: ClientId,
}

} // verus!
