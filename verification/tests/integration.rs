//! Whole runs through the registry: a stream of decoded rows goes in, the
//! final per-account report comes out, in ascending account id order.
//! Amounts are in units of one ten-thousandth, so `10000` stands for 1.0
//! and `101234` for 10.1234.

use payments::client::AccountSummary;
use payments::parser::{to_transaction, ParsedTransaction, ParsedTransactionKind};
use payments::payments::Payments;
use payments::transaction::Amount;

fn row(
    kind: ParsedTransactionKind,
    client: u16,
    tx: u32,
    amount: Option<Amount>,
) -> ParsedTransaction {
    ParsedTransaction { kind, client, tx, amount }
}

fn summary(client: u16, available: Amount, held: Amount, total: Amount, locked: bool) -> AccountSummary {
    AccountSummary { client, available, held, total, locked }
}

/// Run every row through the registry, ignoring per-operation rejections,
/// as the surrounding program does.
fn process(rows: Vec<ParsedTransaction>) -> Vec<AccountSummary> {
    let mut payments = Payments::default();
    for r in rows {
        let transaction = to_transaction(r).unwrap();
        assert!(payments.can_apply(&transaction));
        let _ = payments.apply(transaction);
    }
    payments.snapshot()
}

#[test]
fn empty() {
    assert_eq!(process(vec![]), vec![]);
}

#[test]
fn one_deposit() {
    assert_eq!(
        process(vec![row(ParsedTransactionKind::Deposit, 1, 1, Some(10000))]),
        vec![summary(1, 10000, 0, 10000, false)]
    );
}

#[test]
fn from_task_desc() {
    assert_eq!(
        process(vec![
            row(ParsedTransactionKind::Deposit, 1, 1, Some(10000)),
            row(ParsedTransactionKind::Deposit, 2, 2, Some(20000)),
            row(ParsedTransactionKind::Deposit, 1, 3, Some(20000)),
            row(ParsedTransactionKind::Withdrawal, 1, 4, Some(15000)),
            row(ParsedTransactionKind::Withdrawal, 2, 5, Some(30000)),
        ]),
        vec![summary(1, 15000, 0, 15000, false), summary(2, 20000, 0, 20000, false)]
    );
}

#[test]
fn withdraw_below_balance() {
    assert_eq!(
        process(vec![row(ParsedTransactionKind::Withdrawal, 1, 4, Some(15000))]),
        vec![summary(1, 0, 0, 0, false)]
    );
}

#[test]
fn dispute_non_existing_client() {
    assert_eq!(
        process(vec![row(ParsedTransactionKind::Dispute, 1, 4, None)]),
        vec![summary(1, 0, 0, 0, false)]
    );
}

#[test]
fn resolve_non_existing_client() {
    assert_eq!(
        process(vec![row(ParsedTransactionKind::Resolve, 1, 4, None)]),
        vec![summary(1, 0, 0, 0, false)]
    );
}

#[test]
fn chargeback_non_existing_client() {
    assert_eq!(
        process(vec![row(ParsedTransactionKind::Chargeback, 1, 4, None)]),
        vec![summary(1, 0, 0, 0, false)]
    );
}

#[test]
fn dispute_would_result_in_below_balance() {
    assert_eq!(
        process(vec![
            row(ParsedTransactionKind::Deposit, 1, 1, Some(10000)),
            row(ParsedTransactionKind::Withdrawal, 1, 2, Some(10000)),
            row(ParsedTransactionKind::Dispute, 1, 1, None),
        ]),
        vec![summary(1, 0, 0, 0, false)]
    );
}

#[test]
fn sophisticated() {
    assert_eq!(
        process(vec![
            row(ParsedTransactionKind::Deposit, 1, 1, Some(10000)),
            row(ParsedTransactionKind::Deposit, 2, 3, Some(101234)),
            row(ParsedTransactionKind::Withdrawal, 1, 2, Some(10000)),
            row(ParsedTransactionKind::Deposit, 1, 4, Some(6666)),
            row(ParsedTransactionKind::Dispute, 1, 2, None),
            row(ParsedTransactionKind::Chargeback, 1, 2, None),
            row(ParsedTransactionKind::Deposit, 3, 5, Some(17777)),
            row(ParsedTransactionKind::Dispute, 3, 5, None),
            // The last deposit fails: account 1 is frozen by the chargeback.
            row(ParsedTransactionKind::Deposit, 1, 5, Some(20000)),
        ]),
        vec![
            summary(1, 16666, 0, 16666, true),
            summary(2, 101234, 0, 101234, false),
            summary(3, 0, 17777, 17777, false),
        ]
    );
}

#[test]
fn dispute_unreferenced_account_reports_not_found() {
    // A dispute aimed at an account nobody has seen still creates the
    // account; the dispute itself is rejected because the transaction it
    // references has no record.
    let mut payments = Payments::default();
    let transaction =
        to_transaction(row(ParsedTransactionKind::Dispute, 1, 99, None)).unwrap();
    assert!(payments.can_apply(&transaction));
    assert_eq!(
        Err(payments::error::Error::TransactionNotFound(99)),
        payments.apply(transaction)
    );
    assert_eq!(payments.snapshot(), vec![summary(1, 0, 0, 0, false)]);
}

#[test]
fn snapshot_is_sorted_by_client_id() {
    assert_eq!(
        process(vec![
            row(ParsedTransactionKind::Deposit, 42, 1, Some(10000)),
            row(ParsedTransactionKind::Deposit, 7, 2, Some(20000)),
            row(ParsedTransactionKind::Deposit, 19, 3, Some(30000)),
        ]),
        vec![
            summary(7, 20000, 0, 20000, false),
            summary(19, 30000, 0, 30000, false),
            summary(42, 10000, 0, 10000, false),
        ]
    );
}
