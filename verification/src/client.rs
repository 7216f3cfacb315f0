use std::collections::HashMap;

use vstd::prelude::*;

use crate::error::Error;
use crate::transaction::{Amount, Operation, OperationType, TransactionId};

verus! {

broadcast use vstd::std_specs::hash::group_hash_axioms;

/// Identifier of a client account.
pub type ClientId = u16;

/// Lifecycle state of one transaction record.
///
/// Allowed movements:
/// `New -> InDispute`, `InDispute -> Resolved`, `InDispute -> Chargedback`,
/// and the trivial self-transition of every state. A transaction can be
/// disputed at most once, so there is no way back from `Resolved` or
/// `Chargedback`.
#[derive(Debug, Clone, Copy, PartialEq, Eq, Structural)]
pub enum OperationState {
    New,
    InDispute,
    Resolved,
    Chargedback,
}

/// Whether the lifecycle state machine permits moving `from -> to`:
/// the three forward edges, and every self-transition as a no-op.
pub open spec fn transition_allowed(from: OperationState, to: OperationState) -> bool {
    match (from, to) {
        (OperationState::New, OperationState::InDispute) => true,
        (OperationState::InDispute, OperationState::Resolved) => true,
        (OperationState::InDispute, OperationState::Chargedback) => true,
        (f, t) => f == t,
    }
}

/// The record an account keeps for one deposit or withdrawal: its
/// identifier, its signed amount (positive for a deposit, negative for a
/// withdrawal) and its lifecycle state.
#[derive(Debug, Clone, Copy, PartialEq, Eq, Structural)]
pub struct StatefulOperation {
    pub id: TransactionId,
    pub amount: Amount,
    pub state: OperationState,
}

impl StatefulOperation {
    /// A fresh record for a just-accepted deposit or withdrawal.
    pub fn new(id: TransactionId, amount: Amount) -> (op: Self)
        ensures
            op == (StatefulOperation { id, amount, state: OperationState::New }),
    {
        StatefulOperation { id, amount, state: OperationState::New }
    }

    /// Move the record to `new_state` if the state machine allows it;
    /// otherwise leave the record untouched and report the illegal pair.
    pub fn state_transition(&mut self, new_state: OperationState) -> (r: Result<(), Error>)
        ensures
            r is Ok <==> transition_allowed(old(self).state, new_state),
            r is Ok ==> *final(self) == (StatefulOperation { state: new_state, ..*old(self) }),
            r is Err ==> *final(self) == *old(self) && r == Err::<(), Error>(
                Error::InvalidTransactionStateChange {
                    id: old(self).id,
                    from: old(self).state,
                    to: new_state,
                },
            ),
    {
        match (self.state, new_state) {
            (OperationState::New, OperationState::InDispute) => {
                self.state = new_state;
                Ok(())
            },
            (OperationState::InDispute, OperationState::Resolved) => {
                self.state = new_state;
                Ok(())
            },
            (OperationState::InDispute, OperationState::Chargedback) => {
                self.state = new_state;
                Ok(())
            },
            (from, to) => {
                if from == to {
                    Ok(())
                } else {
                    Err(Error::InvalidTransactionStateChange { id: self.id, from, to })
                }
            },
        }
    }
}

/// Mathematical image of one account: the record map and the plain fields.
pub ghost struct ClientModel {
    pub id: ClientId,
    pub records: Map<TransactionId, StatefulOperation>,
    pub available: Amount,
    pub held: Amount,
    pub total: Amount,
    pub locked: bool,
}

/// The state of an account that has never accepted any operation.
pub open spec fn empty_client(id: ClientId) -> ClientModel {
    ClientModel {
        id,
        records: Map::empty(),
        available: 0,
        held: 0,
        total: 0,
        locked: false,
    }
}

/// Every record is stored under its own identifier.
pub open spec fn records_keyed(m: ClientModel) -> bool {
    forall|t: TransactionId| #[trigger]
        m.records.contains_key(t) ==> m.records[t].id == t
}

/// Well-formedness of an account: the balance invariant
/// `total == available + held`, and a consistently keyed record map.
pub open spec fn client_wf(m: ClientModel) -> bool {
    &&& m.total == m.available + m.held
    &&& records_keyed(m)
}

/// Does `x` fit the machine type that amounts and balances are stored in?
pub open spec fn in_amount_range(x: int) -> bool {
    i64::MIN <= x <= i64::MAX
}

/// What a deposit does to an account: reject a reused identifier, otherwise
/// create a `New` record with the positive signed amount and grow `total`
/// and `available` by it.
pub open spec fn spec_deposit(c: ClientModel, id: TransactionId, amount: Amount) -> (
    ClientModel,
    Result<(), Error>,
) {
    if c.records.contains_key(id) {
        (c, Err(Error::DuplicatedTransaction(id)))
    } else {
        (
            ClientModel {
                records: c.records.insert(
                    id,
                    StatefulOperation { id, amount, state: OperationState::New },
                ),
                available: (c.available + amount) as i64,
                total: (c.total + amount) as i64,
                ..c
            },
            Ok(()),
        )
    }
}

/// What a withdrawal does: reject a reused identifier, reject a request
/// beyond the available balance, otherwise create a `New` record with the
/// negative signed amount and shrink `total` and `available` by it.
pub open spec fn spec_withdraw(c: ClientModel, id: TransactionId, amount: Amount) -> (
    ClientModel,
    Result<(), Error>,
) {
    if c.records.contains_key(id) {
        (c, Err(Error::DuplicatedTransaction(id)))
    } else if c.available < amount {
        (c, Err(Error::InsufficientFunds { id, available: c.available, requested: amount }))
    } else {
        (
            ClientModel {
                records: c.records.insert(
                    id,
                    StatefulOperation { id, amount: (-amount) as i64, state: OperationState::New },
                ),
                available: (c.available - amount) as i64,
                total: (c.total - amount) as i64,
                ..c
            },
            Ok(()),
        )
    }
}

/// What a dispute does: with a record present, enough available funds to
/// hold, and a record still in `New`, move the record to `InDispute` and
/// shift its signed amount from `available` to `held`. A record that has
/// already left `New` is rejected with the illegal pair; the funds check
/// comes first.
pub open spec fn spec_dispute(c: ClientModel, id: TransactionId) -> (
    ClientModel,
    Result<(), Error>,
) {
    if !c.records.contains_key(id) {
        (c, Err(Error::TransactionNotFound(id)))
    } else {
        let r = c.records[id];
        if c.available < r.amount {
            (c, Err(Error::FailedDisputeNotEnoughFunds(id)))
        } else if r.state != OperationState::New {
            (
                c,
                Err(
                    Error::InvalidTransactionStateChange {
                        id,
                        from: r.state,
                        to: OperationState::InDispute,
                    },
                ),
            )
        } else {
            (
                ClientModel {
                    records: c.records.insert(
                        id,
                        StatefulOperation { state: OperationState::InDispute, ..r },
                    ),
                    available: (c.available - r.amount) as i64,
                    held: (c.held + r.amount) as i64,
                    ..c
                },
                Ok(()),
            )
        }
    }
}

/// What a resolve does: with a record present and in `InDispute`, move it to
/// `Resolved` and shift its signed amount back from `held` to `available`.
pub open spec fn spec_resolve(c: ClientModel, id: TransactionId) -> (
    ClientModel,
    Result<(), Error>,
) {
    if !c.records.contains_key(id) {
        (c, Err(Error::TransactionNotFound(id)))
    } else {
        let r = c.records[id];
        if r.state != OperationState::InDispute {
            (
                c,
                Err(
                    Error::InvalidTransactionStateChange {
                        id,
                        from: r.state,
                        to: OperationState::Resolved,
                    },
                ),
            )
        } else {
            (
                ClientModel {
                    records: c.records.insert(
                        id,
                        StatefulOperation { state: OperationState::Resolved, ..r },
                    ),
                    available: (c.available + r.amount) as i64,
                    held: (c.held - r.amount) as i64,
                    ..c
                },
                Ok(()),
            )
        }
    }
}

/// What a chargeback does: with a record present and in `InDispute`, move it
/// to `Chargedback`, take its signed amount out of `held` and `total`, and
/// freeze the account for good.
pub open spec fn spec_chargeback(c: ClientModel, id: TransactionId) -> (
    ClientModel,
    Result<(), Error>,
) {
    if !c.records.contains_key(id) {
        (c, Err(Error::TransactionNotFound(id)))
    } else {
        let r = c.records[id];
        if r.state != OperationState::InDispute {
            (
                c,
                Err(
                    Error::InvalidTransactionStateChange {
                        id,
                        from: r.state,
                        to: OperationState::Chargedback,
                    },
                ),
            )
        } else {
            (
                ClientModel {
                    records: c.records.insert(
                        id,
                        StatefulOperation { state: OperationState::Chargedback, ..r },
                    ),
                    held: (c.held - r.amount) as i64,
                    total: (c.total - r.amount) as i64,
                    locked: true,
                    ..c
                },
                Ok(()),
            )
        }
    }
}

/// What applying one operation does to an account: a locked account rejects
/// everything; otherwise the operation's kind picks the handler.
pub open spec fn spec_apply(c: ClientModel, op: Operation) -> (ClientModel, Result<(), Error>) {
    if c.locked {
        (c, Err(Error::AccountLocked(op.id)))
    } else {
        match op.kind {
            OperationType::Deposit { amount } => spec_deposit(c, op.id, amount),
            OperationType::Withdrawal { amount } => spec_withdraw(c, op.id, amount),
            OperationType::Dispute => spec_dispute(c, op.id),
            OperationType::Resolve => spec_resolve(c, op.id),
            OperationType::Chargeback => spec_chargeback(c, op.id),
        }
    }
}

/// The arithmetic that applying `op` to `c` would perform stays inside the
/// amount type. Only the success path of each handler computes anything, so
/// only that path is constrained; every rejection is free of arithmetic.
pub open spec fn apply_fits(c: ClientModel, op: Operation) -> bool {
    !c.locked ==> match op.kind {
        OperationType::Deposit { amount } => !c.records.contains_key(op.id) ==> {
            &&& in_amount_range(c.available + amount)
            &&& in_amount_range(c.total + amount)
        },
        OperationType::Withdrawal { amount } => (!c.records.contains_key(op.id)
            && c.available >= amount) ==> {
            &&& in_amount_range(-amount)
            &&& in_amount_range(c.available - amount)
            &&& in_amount_range(c.total - amount)
        },
        OperationType::Dispute => (c.records.contains_key(op.id) && c.available
            >= c.records[op.id].amount && c.records[op.id].state == OperationState::New) ==> {
            &&& in_amount_range(c.available - c.records[op.id].amount)
            &&& in_amount_range(c.held + c.records[op.id].amount)
        },
        OperationType::Resolve => (c.records.contains_key(op.id) && c.records[op.id].state
            == OperationState::InDispute) ==> {
            &&& in_amount_range(c.available + c.records[op.id].amount)
            &&& in_amount_range(c.held - c.records[op.id].amount)
        },
        OperationType::Chargeback => (c.records.contains_key(op.id) && c.records[op.id].state
            == OperationState::InDispute) ==> {
            &&& in_amount_range(c.held - c.records[op.id].amount)
            &&& in_amount_range(c.total - c.records[op.id].amount)
        },
    }
}

/// The externally visible balances of one account: one row of the final
/// report.
#[derive(Debug, Clone, Copy, PartialEq, Eq, Structural)]
pub struct AccountSummary {
    pub client: ClientId,
    pub available: Amount,
    pub held: Amount,
    pub total: Amount,
    pub locked: bool,
}

/// The report row that an account in state `c` shows.
pub open spec fn summary_of(c: ClientModel) -> AccountSummary {
    AccountSummary {
        client: c.id,
        available: c.available,
        held: c.held,
        total: c.total,
        locked: c.locked,
    }
}

/// One client account: its balances, its lock flag, and the lifecycle
/// record of every deposit and withdrawal it has accepted.
#[derive(Debug)]
pub struct Client {
    pub id: ClientId,
    operations: HashMap<TransactionId, StatefulOperation>,
    pub available: Amount,
    pub held: Amount,
    pub total: Amount,
    pub locked: bool,
}

impl View for Client {
    type V = ClientModel;

    closed spec fn view(&self) -> ClientModel {
        ClientModel {
            id: self.id,
            records: self.operations@,
            available: self.available,
            held: self.held,
            total: self.total,
            locked: self.locked,
        }
    }
}

impl Client {
    /// A fresh, unlocked account with zero balances and no records.
    pub fn new(id: ClientId) -> (c: Self)
        ensures
            c@ == empty_client(id),
            client_wf(c@),
    {
        let c = Client {
            id,
            operations: HashMap::new(),
            available: 0,
            held: 0,
            total: 0,
            locked: false,
        };
        proof {
            assert(c@.records =~= empty_client(id).records);
            assert(c@ == empty_client(id));
        }
        c
    }

    fn try_deposit(&mut self, id: TransactionId, amount: Amount) -> (r: Result<(), Error>)
        requires
            !old(self)@.records.contains_key(id) ==> {
                &&& in_amount_range(old(self)@.available + amount)
                &&& in_amount_range(old(self)@.total + amount)
            },
        ensures
            (final(self)@, r) == spec_deposit(old(self)@, id, amount),
    {
        if self.operations.contains_key(&id) {
            return Err(Error::DuplicatedTransaction(id));
        }
        self.operations.insert(id, StatefulOperation::new(id, amount));
        self.total = self.total + amount;
        self.available = self.available + amount;
        Ok(())
    }

    fn try_withdraw(&mut self, id: TransactionId, amount: Amount) -> (r: Result<(), Error>)
        requires
            (!old(self)@.records.contains_key(id) && old(self)@.available >= amount) ==> {
                &&& in_amount_range(-amount)
                &&& in_amount_range(old(self)@.available - amount)
                &&& in_amount_range(old(self)@.total - amount)
            },
        ensures
            (final(self)@, r) == spec_withdraw(old(self)@, id, amount),
    {
        if self.operations.contains_key(&id) {
            return Err(Error::DuplicatedTransaction(id));
        }
        if self.available < amount {
            return Err(Error::InsufficientFunds { id, available: self.available, requested: amount });
        }
        self.operations.insert(id, StatefulOperation::new(id, -amount));
        self.total = self.total - amount;
        self.available = self.available - amount;
        Ok(())
    }

    fn try_dispute(&mut self, id: TransactionId) -> (r: Result<(), Error>)
        requires
            records_keyed(old(self)@),
            ({
                let c = old(self)@;
                (c.records.contains_key(id) && c.available >= c.records[id].amount
                    && c.records[id].state == OperationState::New) ==> {
                    &&& in_amount_range(c.available - c.records[id].amount)
                    &&& in_amount_range(c.held + c.records[id].amount)
                }
            }),
        ensures
            (final(self)@, r) == spec_dispute(old(self)@, id),
    {
        let mut record = match self.operations.get(&id) {
            Some(r) => *r,
            None => {
                return Err(Error::TransactionNotFound(id));
            },
        };
        if self.available < record.amount {
            return Err(Error::FailedDisputeNotEnoughFunds(id));
        }
        // A repeated dispute reaches the state machine only as a self-loop;
        // its balance delta must not be applied a second time, so the ledger
        // rejects the instruction instead of taking the no-op transition.
        if record.state == OperationState::InDispute {
            return Err(
                Error::InvalidTransactionStateChange {
                    id,
                    from: record.state,
                    to: OperationState::InDispute,
                },
            );
        }
        match record.state_transition(OperationState::InDispute) {
            Ok(()) => {},
            Err(e) => {
                return Err(e);
            },
        }
        self.operations.insert(id, record);
        self.available = self.available - record.amount;
        self.held = self.held + record.amount;
        Ok(())
    }

    fn try_resolve(&mut self, id: TransactionId) -> (r: Result<(), Error>)
        requires
            records_keyed(old(self)@),
            ({
                let c = old(self)@;
                (c.records.contains_key(id) && c.records[id].state == OperationState::InDispute)
                    ==> {
                    &&& in_amount_range(c.available + c.records[id].amount)
                    &&& in_amount_range(c.held - c.records[id].amount)
                }
            }),
        ensures
            (final(self)@, r) == spec_resolve(old(self)@, id),
    {
        let mut record = match self.operations.get(&id) {
            Some(r) => *r,
            None => {
                return Err(Error::TransactionNotFound(id));
            },
        };
        // A repeated resolve is a self-loop for the state machine; the ledger
        // must not release the held funds twice, so it rejects the repeat.
        if record.state == OperationState::Resolved {
            return Err(
                Error::InvalidTransactionStateChange {
                    id,
                    from: record.state,
                    to: OperationState::Resolved,
                },
            );
        }
        match record.state_transition(OperationState::Resolved) {
            Ok(()) => {},
            Err(e) => {
                return Err(e);
            },
        }
        self.operations.insert(id, record);
        self.available = self.available + record.amount;
        self.held = self.held - record.amount;
        Ok(())
    }

    fn try_chargeback(&mut self, id: TransactionId) -> (r: Result<(), Error>)
        requires
            records_keyed(old(self)@),
            ({
                let c = old(self)@;
                (c.records.contains_key(id) && c.records[id].state == OperationState::InDispute)
                    ==> {
                    &&& in_amount_range(c.held - c.records[id].amount)
                    &&& in_amount_range(c.total - c.records[id].amount)
                }
            }),
        ensures
            (final(self)@, r) == spec_chargeback(old(self)@, id),
    {
        let mut record = match self.operations.get(&id) {
            Some(r) => *r,
            None => {
                return Err(Error::TransactionNotFound(id));
            },
        };
        // Same guard as in resolve: a repeated chargeback must not take
        // funds out a second time.
        if record.state == OperationState::Chargedback {
            return Err(
                Error::InvalidTransactionStateChange {
                    id,
                    from: record.state,
                    to: OperationState::Chargedback,
                },
            );
        }
        match record.state_transition(OperationState::Chargedback) {
            Ok(()) => {},
            Err(e) => {
                return Err(e);
            },
        }
        self.operations.insert(id, record);
        self.held = self.held - record.amount;
        self.total = self.total - record.amount;
        self.locked = true;
        Ok(())
    }

    /// The id of the account this ledger belongs to.
    pub fn client_id(&self) -> (i: ClientId)
        ensures
            i == self@.id,
    {
        self.id
    }

    /// Whether applying `op` to this account would keep every balance the
    /// handler computes inside the amount type: the executable test of
    /// [`apply_fits`]. Callers check it before [`Client::apply`].
    pub fn can_apply(&self, op: &Operation) -> (b: bool)
        ensures
            b == apply_fits(self@, *op),
    {
        if self.locked {
            return true;
        }
        match op.kind {
            OperationType::Deposit { amount } => {
                if self.operations.contains_key(&op.id) {
                    true
                } else {
                    self.available.checked_add(amount).is_some()
                        && self.total.checked_add(amount).is_some()
                }
            },
            OperationType::Withdrawal { amount } => {
                if self.operations.contains_key(&op.id) {
                    true
                } else if self.available < amount {
                    true
                } else {
                    amount != i64::MIN && self.available.checked_sub(amount).is_some()
                        && self.total.checked_sub(amount).is_some()
                }
            },
            OperationType::Dispute => {
                match self.operations.get(&op.id) {
                    None => true,
                    Some(r) => {
                        if self.available < r.amount {
                            true
                        } else if r.state != OperationState::New {
                            true
                        } else {
                            self.available.checked_sub(r.amount).is_some()
                                && self.held.checked_add(r.amount).is_some()
                        }
                    },
                }
            },
            OperationType::Resolve => {
                match self.operations.get(&op.id) {
                    None => true,
                    Some(r) => {
                        if r.state != OperationState::InDispute {
                            true
                        } else {
                            self.available.checked_add(r.amount).is_some()
                                && self.held.checked_sub(r.amount).is_some()
                        }
                    },
                }
            },
            OperationType::Chargeback => {
                match self.operations.get(&op.id) {
                    None => true,
                    Some(r) => {
                        if r.state != OperationState::InDispute {
                            true
                        } else {
                            self.held.checked_sub(r.amount).is_some()
                                && self.total.checked_sub(r.amount).is_some()
                        }
                    },
                }
            },
        }
    }

    /// Read-only snapshot of this account's balances and lock flag.
    pub fn summary(&self) -> (s: AccountSummary)
        ensures
            s == summary_of(self@),
    {
        AccountSummary {
            client: self.id,
            available: self.available,
            held: self.held,
            total: self.total,
            locked: self.locked,
        }
    }

    /// Apply one operation to this account. A locked account rejects
    /// everything; otherwise the operation's kind picks the handler, and
    /// either the handler's whole balance delta is committed or the account
    /// is left exactly as it was.
    pub fn apply(&mut self, op: Operation) -> (r: Result<(), Error>)
        requires
            client_wf(old(self)@),
            apply_fits(old(self)@, op),
        ensures
            (final(self)@, r) == spec_apply(old(self)@, op),
            client_wf(final(self)@),
            r is Err ==> final(self)@ == old(self)@,
            old(self)@.locked ==> final(self)@ == old(self)@ && r == Err::<(), Error>(
                Error::AccountLocked(op.id),
            ),
            old(self)@.locked ==> final(self)@.locked,
    {
        if self.locked {
            return Err(Error::AccountLocked(op.id));
        }
        match op.kind {
            OperationType::Deposit { amount } => self.try_deposit(op.id, amount),
            OperationType::Withdrawal { amount } => self.try_withdraw(op.id, amount),
            OperationType::Dispute => self.try_dispute(op.id),
            OperationType::Resolve => self.try_resolve(op.id),
            OperationType::Chargeback => self.try_chargeback(op.id),
        }
    }
}

} // verus!
