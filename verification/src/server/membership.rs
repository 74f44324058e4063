//! Which clients are connected, and which of them may be admitted to an epoch.

use vstd::prelude::*;

use crate::coordinator::{ClientInfo, ClientState};
use crate::sets::{Id256, IdSet};

verus! {

/// The connected clients.
#[derive(Debug)]
pub struct Membership {
    /// Clients that have joined but have not yet loaded the checkpoint. They are kept out of epoch
    /// admission so that slow joiners never disrupt active training.
    pending: IdSet,
    /// Clients that have signalled that the checkpoint is loaded.
    ready: IdSet,
}

/// The connected clients, as sets.
#[verifier::ext_equal]
pub struct Roster {
    pub pending: Set<Id256>,
    pub ready: Set<Id256>,
}

/// The clients of a list that did not stay healthy.
pub open spec fn unhealthy(clients: Seq<ClientInfo>) -> Set<Id256> {
    Set::new(
        |id: Id256|
            exists|i: int|
                0 <= i < clients.len() && (#[trigger] clients[i]).id == id && clients[i].state
                    != ClientState::Healthy,
    )
}

impl Roster {
    /// Nobody is connected.
    pub open spec fn empty() -> Roster {
        Roster { pending: Set::empty(), ready: Set::empty() }
    }

    /// Everybody who is connected.
    pub open spec fn connected(self) -> Set<Id256> {
        self.pending.union(self.ready)
    }

    /// Nobody is both pending and ready.
    pub open spec fn apart(self) -> bool {
        self.pending.disjoint(self.ready)
    }

    /// A client joined. One that has the checkpoint loaded already stays ready.
    pub open spec fn after_join(self, id: Id256) -> Roster {
        if self.ready.contains(id) {
            self
        } else {
            Roster { pending: self.pending.insert(id), ..self }
        }
    }

    /// A client has the checkpoint loaded. One that was not known is accepted as it is.
    pub open spec fn after_ready(self, id: Id256) -> Roster {
        Roster { pending: self.pending.remove(id), ready: self.ready.insert(id) }
    }

    /// A client left.
    pub open spec fn after_leave(self, id: Id256) -> Roster {
        Roster { pending: self.pending.remove(id), ready: self.ready.remove(id) }
    }

    /// Clients that did not stay healthy are shown out.
    pub open spec fn after_kick(self, exited: Seq<ClientInfo>) -> Roster {
        Roster {
            pending: self.pending.difference(unhealthy(exited)),
            ready: self.ready.difference(unhealthy(exited)),
        }
    }

    /// Who may be admitted to an epoch. Weights that come from other clients can only be fetched
    /// after admission, so then everybody may; else those that have the checkpoint loaded.
    pub open spec fn admissible(self, checkpoint_is_p2p: bool) -> Set<Id256> {
        if checkpoint_is_p2p {
            self.connected()
        } else {
            self.ready
        }
    }
}

impl View for Membership {
    type V = Roster;

    closed spec fn view(&self) -> Roster {
        Roster { pending: self.pending@, ready: self.ready@ }
    }
}

impl Membership {
    #[verifier::type_invariant]
    spec fn keeps_apart(self) -> bool {
        self.pending@.disjoint(self.ready@)
    }

    /// The pending clients, in the order in which they joined.
    pub closed spec fn pending_listed(&self) -> Seq<Id256> {
        self.pending.listed()
    }

    /// The ready clients, in the order in which they became ready.
    pub closed spec fn ready_listed(&self) -> Seq<Id256> {
        self.ready.listed()
    }

    /// The lists hold the members of the sets, and nothing else.
    pub proof fn lemma_listed(&self)
        ensures
            self@.pending == self.pending_listed().to_set(),
            self@.ready == self.ready_listed().to_set(),
    {
        self.pending.lemma_listed();
        self.ready.lemma_listed();
    }

    /// Nobody is connected.
    pub fn new() -> (r: Self)
        ensures
            r@ == Roster::empty(),
    {
        Membership { pending: IdSet::new(), ready: IdSet::new() }
    }

    /// The pending clients. None of them is ready.
    pub fn pending_clients(&self) -> (r: Vec<Id256>)
        ensures
            r@ == self.pending_listed(),
            r@.to_set() == self@.pending,
            r@.no_duplicates(),
            self@.apart(),
    {
        proof {
            use_type_invariant(self);
            self.lemma_listed();
        }
        self.pending.to_vec()
    }

    /// The ready clients. None of them is pending.
    pub fn ready_clients(&self) -> (r: Vec<Id256>)
        ensures
            r@ == self.ready_listed(),
            r@.to_set() == self@.ready,
            r@.no_duplicates(),
            self@.apart(),
    {
        proof {
            use_type_invariant(self);
            self.lemma_listed();
        }
        self.ready.to_vec()
    }

    /// Everybody who is connected, once each.
    pub fn connected_clients(&self) -> (r: Vec<Id256>)
        ensures
            r@.to_set() == self@.connected(),
            r@.no_duplicates(),
    {
        proof {
            self.lemma_listed();
        }
        let mut out = self.pending.to_vec();
        let ready = self.ready.to_vec();
        let ghost p = out@;
        let ghost q = ready@;
        let mut i: usize = 0;
        assert(q.take(0) =~= Seq::<Id256>::empty());
        assert(out@.to_set() =~= p.to_set().union(q.take(0).to_set()));
        while i < ready.len()
            invariant
                i <= q.len(),
                ready@ == q,
                p == self.pending_listed(),
                q == self.ready_listed(),
                p.to_set() == self@.pending,
                out@.to_set() == p.to_set().union(q.take(i as int).to_set()),
                q.no_duplicates(),
                out@.no_duplicates(),
            decreases q.len() - i,
        {
            let id = ready[i];
            let ghost before = out@;
            assert(q.take(i as int + 1) =~= q.take(i as int).push(id));
            proof {
                lemma_push_to_set(q.take(i as int), id);
                lemma_push_to_set(before, id);
            }
            if !self.pending.contains(&id) {
                out.push(id);
                proof {
                    if before.contains(id) {
                        assert(before.to_set().contains(id));
                        assert(q.take(i as int).to_set().contains(id));
                        let k = choose|k: int|
                            0 <= k < q.take(i as int).len() && q.take(i as int)[k] == id;
                        assert(q[k] == q[i as int]);
                    }
                }
            }
            assert(out@.to_set() =~= p.to_set().union(q.take(i as int + 1).to_set()));
            i = i + 1;
        }
        assert(q.take(i as int) =~= q);
        out
    }

    /// A client joined.
    pub fn join(&mut self, id: Id256)
        ensures
            final(self)@ == old(self)@.after_join(id),
    {
        if self.ready.contains(&id) {
            return ;
        }
        proof {
            use_type_invariant(&*self);
        }
        let mut pending = IdSet::new();
        core::mem::swap(&mut pending, &mut self.pending);
        pending.insert(id);
        self.pending = pending;
    }

    /// A client has the checkpoint loaded.
    pub fn make_ready(&mut self, id: Id256)
        ensures
            final(self)@ == old(self)@.after_ready(id),
    {
        proof {
            use_type_invariant(&*self);
        }
        let mut pending = IdSet::new();
        core::mem::swap(&mut pending, &mut self.pending);
        let mut ready = IdSet::new();
        core::mem::swap(&mut ready, &mut self.ready);
        pending.remove(&id);
        ready.insert(id);
        *self = Membership { pending, ready };
    }

    /// A client left.
    pub fn leave(&mut self, id: &Id256)
        ensures
            final(self)@ == old(self)@.after_leave(*id),
    {
        proof {
            use_type_invariant(&*self);
        }
        let mut pending = IdSet::new();
        core::mem::swap(&mut pending, &mut self.pending);
        let mut ready = IdSet::new();
        core::mem::swap(&mut ready, &mut self.ready);
        pending.remove(id);
        ready.remove(id);
        *self = Membership { pending, ready };
    }

    /// Shows out the clients that did not stay healthy.
    pub fn kick_unhealthy_clients(&mut self, exited: &Vec<ClientInfo>)
        ensures
            final(self)@ == old(self)@.after_kick(exited@),
    {
        let ghost before = self@;
        let mut i: usize = 0;
        assert(before.after_kick(exited@.take(0)) =~= before) by {
            assert(unhealthy(exited@.take(0)) =~= Set::<Id256>::empty());
        }
        while i < exited.len()
            invariant
                i <= exited@.len(),
                self@ == before.after_kick(exited@.take(i as int)),
            decreases exited@.len() - i,
        {
            proof {
                lemma_unhealthy_step(exited@, i as int);
            }
            if exited[i].state != ClientState::Healthy {
                self.leave(&exited[i].id);
            }
            i = i + 1;
            assert(self@ =~= before.after_kick(exited@.take(i as int)));
        }
        assert(exited@.take(i as int) =~= exited@);
    }

    /// Who may be admitted to an epoch, each once.
    pub fn admission(&self, checkpoint_is_p2p: bool) -> (r: Vec<Id256>)
        ensures
            r@ == (if checkpoint_is_p2p {
                self.pending_listed() + self.ready_listed()
            } else {
                self.ready_listed()
            }),
            r@.to_set() == self@.admissible(checkpoint_is_p2p),
            r@.no_duplicates(),
    {
        proof {
            use_type_invariant(self);
            self.lemma_listed();
        }
        if !checkpoint_is_p2p {
            return self.ready.to_vec();
        }
        let mut out = self.pending.to_vec();
        let mut ready = self.ready.to_vec();
        out.append(&mut ready);
        proof {
            let p = self.pending_listed();
            let q = self.ready_listed();
            assert(out@ =~= p + q);
            assert forall|i: int, j: int| 0 <= i < out@.len() && 0 <= j < out@.len() && i
                != j implies out@[i] != out@[j] by {
                if i < p.len() && j >= p.len() {
                    assert(p.to_set().contains(out@[i]) && q.to_set().contains(out@[j]));
                }
                if j < p.len() && i >= p.len() {
                    assert(p.to_set().contains(out@[j]) && q.to_set().contains(out@[i]));
                }
            }
            assert((p + q).to_set() =~= p.to_set().union(q.to_set())) by {
                assert forall|x: Id256| p.contains(x) || q.contains(x) implies (p + q).contains(x) by {
                    if p.contains(x) {
                        let k = choose|k: int| 0 <= k < p.len() && p[k] == x;
                        assert((p + q)[k] == x);
                    } else {
                        let k = choose|k: int| 0 <= k < q.len() && q[k] == x;
                        assert((p + q)[p.len() + k] == x);
                    }
                }
            }
        }
        out
    }
}

/// One more element in a list is one more in its set.
proof fn lemma_push_to_set(s: Seq<Id256>, x: Id256)
    ensures
        s.push(x).to_set() == s.to_set().insert(x),
{
    assert(s.push(x).to_set() =~= s.to_set().insert(x)) by {
        assert(s.push(x)[s.len() as int] == x);
        assert forall|y: Id256| s.contains(y) implies s.push(x).contains(y) by {
            let k = choose|k: int| 0 <= k < s.len() && s[k] == y;
            assert(s.push(x)[k] == y);
        }
    }
}

/// One more client in a list adds itself, or nobody, to the unhealthy ones.
proof fn lemma_unhealthy_step(s: Seq<ClientInfo>, i: int)
    requires
        0 <= i < s.len(),
    ensures
        unhealthy(s.take(i + 1)) == (if s[i].state != ClientState::Healthy {
            unhealthy(s.take(i)).insert(s[i].id)
        } else {
            unhealthy(s.take(i))
        }),
{
    let a = s.take(i);
    let b = s.take(i + 1);
    assert forall|id: Id256| unhealthy(a).contains(id) implies unhealthy(b).contains(id) by {
        let k = choose|k: int|
            0 <= k < a.len() && (#[trigger] a[k]).id == id && a[k].state != ClientState::Healthy;
        assert(b[k].id == id);
    }
    assert forall|id: Id256|
        unhealthy(b).contains(id) && !(s[i].id == id && s[i].state
            != ClientState::Healthy) implies unhealthy(a).contains(id) by {
        let k = choose|k: int|
            0 <= k < b.len() && (#[trigger] b[k]).id == id && b[k].state != ClientState::Healthy;
        assert(a[k].id == id);
    }
    assert(b[i] == s[i]);
    if s[i].state != ClientState::Healthy {
        assert(unhealthy(b) =~= unhealthy(a).insert(s[i].id));
    } else {
        assert(unhealthy(b) =~= unhealthy(a));
    }
}

/// Nobody is both pending and ready, at first and whatever happens: a client that joins, gets ready
/// or leaves, and a kick, keep the two apart.
pub proof fn law_pending_and_ready_are_apart(r: Roster, id: Id256, exited: Seq<ClientInfo>)
    ensures
        Roster::empty().apart(),
        r.apart() ==> r.after_join(id).apart(),
        r.apart() ==> r.after_ready(id).apart(),
        r.apart() ==> r.after_leave(id).apart(),
        r.apart() ==> r.after_kick(exited).apart(),
{
}

/// Slow joiners never disrupt training: while weights do not come from other clients, a client that
/// has joined and has not signalled readiness since may not be admitted on that account.
pub proof fn law_joining_is_not_admission(r: Roster, id: Id256)
    ensures
        r.after_join(id).admissible(false) == r.admissible(false),
        r.after_join(id).admissible(true).contains(id),
{
}

/// A client that signalled readiness may be admitted, wherever the weights come from, and is no
/// longer pending.
pub proof fn law_ready_is_admissible(r: Roster, id: Id256, checkpoint_is_p2p: bool)
    ensures
        r.after_ready(id).admissible(checkpoint_is_p2p).contains(id),
        !r.after_ready(id).pending.contains(id),
        r.after_ready(id).after_ready(id) == r.after_ready(id),
{
    assert(r.after_ready(id).after_ready(id) =~= r.after_ready(id));
}

/// A client that left is not connected, and nobody else is affected.
pub proof fn law_leaving_is_complete(r: Roster, id: Id256)
    ensures
        r.after_leave(id).connected() == r.connected().remove(id),
        r.after_join(id).after_leave(id) == r.after_leave(id),
        r.after_ready(id).after_leave(id) == r.after_leave(id),
{
    assert(r.after_leave(id).connected() =~= r.connected().remove(id));
    assert(r.after_join(id).after_leave(id) =~= r.after_leave(id));
    assert(r.after_ready(id).after_leave(id) =~= r.after_leave(id));
}

/// After a kick nobody is connected who did not stay healthy, and everybody else still is.
pub proof fn law_kick_is_exact(r: Roster, exited: Seq<ClientInfo>)
    ensures
        r.after_kick(exited).connected() == r.connected().difference(unhealthy(exited)),
        r.after_kick(exited).after_kick(exited) == r.after_kick(exited),
{
    assert(r.after_kick(exited).connected() =~= r.connected().difference(unhealthy(exited)));
    assert(r.after_kick(exited).after_kick(exited) =~= r.after_kick(exited));
}

} // verus!
