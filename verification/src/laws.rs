//! The engine's guarantees, stated and proved over the account model.

use vstd::prelude::*;

use crate::client::{
    apply_fits, client_wf, spec_apply, transition_allowed, ClientModel, OperationState,
};
use crate::error::Error;
use crate::transaction::Operation;

verus! {

/// Law: every operation preserves the account invariant
/// `total == available + held` (together with consistent record keying),
/// whether it commits or is rejected, as long as its arithmetic fits the
/// amount type.
pub proof fn lemma_balance_invariant_preserved(c: ClientModel, op: Operation)
    requires
        client_wf(c),
        apply_fits(c, op),
    ensures
        client_wf(spec_apply(c, op).0),
{
}

/// Law: the lock is monotonic. No operation ever unlocks an account, and a
/// locked account rejects every operation with an account-locked error,
/// unchanged.
pub proof fn lemma_locked_monotonic(c: ClientModel, op: Operation)
    ensures
        c.locked ==> spec_apply(c, op).0.locked,
        c.locked ==> spec_apply(c, op) == (c, Err::<(), Error>(Error::AccountLocked(op.id))),
{
}

/// Law: a successful chargeback freezes the account at once, so with the
/// lock's monotonicity, every operation after an account's first chargeback
/// is rejected as account-locked.
pub proof fn lemma_chargeback_locks(c: ClientModel, op: Operation)
    requires
        op.kind is Chargeback,
        spec_apply(c, op).1 is Ok,
    ensures
        spec_apply(c, op).0.locked,
{
}

/// Law: transaction identifiers are unique per account. Once a deposit or
/// withdrawal has been accepted, a second deposit or withdrawal with the
/// same identifier is rejected as duplicated and changes nothing.
pub proof fn lemma_duplicate_rejected(c: ClientModel, first: Operation, second: Operation)
    requires
        first.kind is Deposit || first.kind is Withdrawal,
        second.kind is Deposit || second.kind is Withdrawal,
        second.id == first.id,
        spec_apply(c, first).1 is Ok,
    ensures
        spec_apply(spec_apply(c, first).0, second) == (
            spec_apply(c, first).0,
            Err::<(), Error>(Error::DuplicatedTransaction(second.id)),
        ),
{
}

/// Law: classification of all ordered pairs of lifecycle states. A
/// transition is allowed exactly when it is one of the three forward edges
/// or a self-transition; every one of the remaining pairs is illegal.
pub proof fn lemma_transition_complete()
    ensures
        forall|f: OperationState, t: OperationState|
            #[trigger] transition_allowed(f, t) <==> (f == t || (f == OperationState::New && t
                == OperationState::InDispute) || (f == OperationState::InDispute && t
                == OperationState::Resolved) || (f == OperationState::InDispute && t
                == OperationState::Chargedback)),
{
}

} // verus!
