use vstd::prelude::*;

use crate::client::ClientId;
use crate::error::Error;
use crate::transaction::{Amount, Operation, OperationType, Transaction, TransactionId};

verus! {

/// The operation kinds as a decoded input row names them, before the row
/// has been checked for a required amount column.
#[derive(Debug, Clone, Copy, PartialEq, Eq, Structural)]
pub enum ParsedTransactionKind {
    Deposit,
    Withdrawal,
    Dispute,
    Resolve,
    Chargeback,
}

/// A decoded input row as plain values: the kind named by the row, the two
/// identifiers, and the amount column if the row filled it in.
#[derive(Debug, Clone, Copy, PartialEq)]
pub struct ParsedTransaction {
    pub kind: ParsedTransactionKind,
    pub client: ClientId,
    pub tx: TransactionId,
    pub amount: Option<Amount>,
}

/// A row stands for a well-formed operation exactly when the kinds that
/// move funds carry an amount; the other kinds ignore a stray one.
pub open spec fn row_ok(row: ParsedTransaction) -> bool {
    match row.kind {
        ParsedTransactionKind::Deposit => row.amount is Some,
        ParsedTransactionKind::Withdrawal => row.amount is Some,
        _ => true,
    }
}

/// The operation a well-formed row asks for.
pub open spec fn typed_kind(row: ParsedTransaction) -> OperationType
    recommends
        row_ok(row),
{
    match row.kind {
        ParsedTransactionKind::Deposit => OperationType::Deposit { amount: row.amount->Some_0 },
        ParsedTransactionKind::Withdrawal => OperationType::Withdrawal {
            amount: row.amount->Some_0,
        },
        ParsedTransactionKind::Dispute => OperationType::Dispute,
        ParsedTransactionKind::Resolve => OperationType::Resolve,
        ParsedTransactionKind::Chargeback => OperationType::Chargeback,
    }
}

/// Turn a decoded row into the typed transaction it stands for, or reject
/// it: a deposit or withdrawal row without an amount is a decode failure,
/// so that the type of [`Operation`] alone guarantees the handlers are
/// always given the amount they need.
pub fn to_transaction(row: ParsedTransaction) -> (r: Result<Transaction, Error>)
    ensures
        r is Ok <==> row_ok(row),
        row_ok(row) ==> r == Ok::<Transaction, Error>(
            Transaction { client_id: row.client, op: Operation { id: row.tx, kind: typed_kind(row) } },
        ),
        (!row_ok(row) && row.kind == ParsedTransactionKind::Deposit) ==> (r matches Err(
            Error::ParsingFailure(m),
        ) && m@ == "deposit transaction must have amount"@),
        (!row_ok(row) && row.kind == ParsedTransactionKind::Withdrawal) ==> (r matches Err(
            Error::ParsingFailure(m),
        ) && m@ == "withdrawal transaction must have amount"@),
{
    match row.kind {
        ParsedTransactionKind::Deposit => {
            match row.amount {
                Some(amount) => Ok(
                    Transaction {
                        client_id: row.client,
                        op: Operation { id: row.tx, kind: OperationType::Deposit { amount } },
                    },
                ),
                None => Err(Error::ParsingFailure("deposit transaction must have amount".to_owned())),
            }
        },
        ParsedTransactionKind::Withdrawal => {
            match row.amount {
                Some(amount) => Ok(
                    Transaction {
                        client_id: row.client,
                        op: Operation { id: row.tx, kind: OperationType::Withdrawal { amount } },
                    },
                ),
                None => Err(
                    Error::ParsingFailure("withdrawal transaction must have amount".to_owned()),
                ),
            }
        },
        ParsedTransactionKind::Dispute => Ok(
            Transaction {
                client_id: row.client,
                op: Operation { id: row.tx, kind: OperationType::Dispute },
            },
        ),
        ParsedTransactionKind::Resolve => Ok(
            Transaction {
                client_id: row.client,
                op: Operation { id: row.tx, kind: OperationType::Resolve },
            },
        ),
        ParsedTransactionKind::Chargeback => Ok(
            Transaction {
                client_id: row.client,
                op: Operation { id: row.tx, kind: OperationType::Chargeback },
            },
        ),
    }
}

} // verus!
