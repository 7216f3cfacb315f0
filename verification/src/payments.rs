use vstd::prelude::*;

use crate::client::{
    apply_fits, client_wf, empty_client, spec_apply, summary_of, AccountSummary, Client,
    ClientId, ClientModel,
};
use crate::error::Error;
use crate::transaction::Transaction;

verus! {

/// Well-formedness of the whole registry: accounts in strictly ascending
/// id order (so ids are unique), each account well formed.
pub open spec fn registry_wf(s: Seq<ClientModel>) -> bool {
    &&& forall|i: int, j: int| 0 <= i < j < s.len() ==> s[i].id < s[j].id
    &&& forall|i: int| 0 <= i < s.len() ==> client_wf(#[trigger] s[i])
}

/// The index at which `id` sits, or would be inserted: the number of
/// accounts that come strictly before it.
pub open spec fn lower_bound(s: Seq<ClientModel>, id: ClientId) -> int
    decreases s.len(),
{
    if s.len() == 0 {
        0
    } else if s[0].id >= id {
        0
    } else {
        1 + lower_bound(s.drop_first(), id)
    }
}

/// `lower_bound` is the unique boundary between the ids below `id` and the
/// rest; this pins it to the index that a left-to-right scan stops at.
proof fn lemma_lower_bound_at(s: Seq<ClientModel>, id: ClientId, i: int)
    requires
        0 <= i <= s.len(),
        forall|j: int| 0 <= j < i ==> s[j].id < id,
        i < s.len() ==> s[i].id >= id,
    ensures
        lower_bound(s, id) == i,
    decreases s.len(),
{
    if s.len() == 0 {
    } else if s[0].id >= id {
        assert(i == 0) by {
            if i > 0 {
                assert(s[0].id < id);
            }
        }
    } else {
        assert(s[0].id < id);
        assert(i >= 1) by {
            if i == 0 {
                assert(s[0].id >= id);
            }
        }
        let t = s.drop_first();
        assert forall|j: int| 0 <= j < i - 1 implies t[j].id < id by {
            assert(t[j] == s[j + 1]);
        }
        lemma_lower_bound_at(t, id, i - 1);
    }
}

/// Whether the arithmetic of routing `t` through the registry stays inside
/// the amount type: the fit condition of the targeted account, or of a
/// fresh one where the account does not exist yet.
pub open spec fn registry_fits(s: Seq<ClientModel>, t: Transaction) -> bool {
    let i = lower_bound(s, t.client_id);
    if i < s.len() && s[i].id == t.client_id {
        apply_fits(s[i], t.op)
    } else {
        apply_fits(empty_client(t.client_id), t.op)
    }
}

/// What routing one transaction does to the registry: the targeted account
/// — created empty, in id order, if it did not exist, even when the
/// delegated operation then fails — is replaced by the account that
/// applying the operation leaves behind, and the operation's own verdict is
/// passed through.
pub open spec fn registry_apply(s: Seq<ClientModel>, t: Transaction) -> (
    Seq<ClientModel>,
    Result<(), Error>,
) {
    let i = lower_bound(s, t.client_id);
    if i < s.len() && s[i].id == t.client_id {
        let (c, r) = spec_apply(s[i], t.op);
        (s.update(i, c), r)
    } else {
        let (c, r) = spec_apply(empty_client(t.client_id), t.op);
        (s.insert(i, c), r)
    }
}

/// The registry of all client accounts seen so far, kept in ascending
/// account id order.
#[derive(Debug)]
pub struct Payments {
    clients: Vec<Client>,
}

impl View for Payments {
    type V = Seq<ClientModel>;

    closed spec fn view(&self) -> Seq<ClientModel> {
        self.clients@.map_values(|c: Client| c@)
    }
}

impl Default for Payments {
    /// An empty registry: no account has been referenced yet.
    fn default() -> (p: Self)
        ensures
            p@ == Seq::<ClientModel>::empty(),
            registry_wf(p@),
    {
        let p = Payments { clients: Vec::new() };
        proof {
            assert(p@ =~= Seq::<ClientModel>::empty());
        }
        p
    }
}

impl Payments {
    /// Route one transaction to its account, creating the account first if
    /// this is the first operation that ever references its id.
    pub fn apply(&mut self, transaction: Transaction) -> (r: Result<(), Error>)
        requires
            registry_wf(old(self)@),
            registry_fits(old(self)@, transaction),
        ensures
            (final(self)@, r) == registry_apply(old(self)@, transaction),
            registry_wf(final(self)@),
    {
        let ghost s0 = self@;
        let id = transaction.client_id;
        let mut i: usize = 0;
        while i < self.clients.len() && self.clients[i].client_id() < id
            invariant
                *self == *old(self),
                i <= self.clients.len(),
                forall|j: int| 0 <= j < i ==> s0[j].id < id,
                s0 == self@,
            decreases self.clients.len() - i,
        {
            i += 1;
        }
        proof {
            lemma_lower_bound_at(s0, id, i as int);
        }
        let exists_already = i < self.clients.len() && self.clients[i].client_id() == id;
        if !exists_already {
            self.clients.insert(i, Client::new(id));
        }
        let mut c = self.clients.remove(i);
        let r = c.apply(transaction.op);
        self.clients.insert(i, c);
        proof {
            let iv = i as int;
            let cm = c@;
            if exists_already {
                assert(self.clients@ =~= old(self).clients@.update(iv, c));
                assert(self@ =~= s0.update(iv, cm));
            } else {
                assert(self.clients@ =~= old(self).clients@.insert(iv, c));
                s0.insert_ensures(iv, cm);
                assert(self@ =~= s0.insert(iv, cm));
            }
            assert(registry_wf(self@)) by {
                if exists_already {
                    assert(forall|k: int|
                        0 <= k < self@.len() && k != iv ==> self@[k] == s0[k]);
                    assert(self@[iv].id == s0[iv].id);
                } else {
                    assert(forall|k: int| 0 <= k < iv ==> self@[k] == s0[k]);
                    assert(forall|k: int|
                        iv < k < self@.len() ==> self@[k] == s0[k - 1]);
                    assert(self@[iv] == cm);
                    assert(cm.id == id);
                    assert(forall|k: int| iv <= k < s0.len() ==> s0[k].id > id) by {
                        assert(iv < s0.len() ==> s0[iv].id >= id && s0[iv].id != id);
                        assert forall|k: int| iv < k < s0.len() implies s0[k].id > id by {
                            assert(s0[iv].id < s0[k].id);
                        }
                    }
                }
            }
        }
        r
    }

    /// Whether routing `transaction` would keep every balance inside the
    /// amount type: the executable test of [`registry_fits`]. Callers check
    /// it before [`Payments::apply`].
    pub fn can_apply(&self, transaction: &Transaction) -> (b: bool)
        ensures
            b == registry_fits(self@, *transaction),
    {
        let id = transaction.client_id;
        let mut i: usize = 0;
        while i < self.clients.len() && self.clients[i].client_id() < id
            invariant
                i <= self.clients.len(),
                forall|j: int| 0 <= j < i ==> self@[j].id < id,
            decreases self.clients.len() - i,
        {
            i += 1;
        }
        proof {
            lemma_lower_bound_at(self@, id, i as int);
        }
        if i < self.clients.len() && self.clients[i].client_id() == id {
            self.clients[i].can_apply(&transaction.op)
        } else {
            let fresh = Client::new(id);
            fresh.can_apply(&transaction.op)
        }
    }

    /// One report row per known account. With a well-formed registry the
    /// rows come out in ascending account id order, whatever order the
    /// accounts were first referenced in.
    pub fn snapshot(&self) -> (rows: Vec<AccountSummary>)
        ensures
            rows@.len() == self@.len(),
            forall|i: int| 0 <= i < rows@.len() ==> rows@[i] == summary_of(self@[i]),
            registry_wf(self@) ==> forall|i: int, j: int|
                0 <= i < j < rows@.len() ==> rows@[i].client < rows@[j].client,
    {
        let mut rows: Vec<AccountSummary> = Vec::new();
        let mut i: usize = 0;
        while i < self.clients.len()
            invariant
                i <= self.clients.len(),
                rows@.len() == i,
                forall|j: int| 0 <= j < i ==> rows@[j] == summary_of(self@[j]),
            decreases self.clients.len() - i,
        {
            let row = self.clients[i].summary();
            rows.push(row);
            i += 1;
        }
        rows
    }
}

} // verus!
