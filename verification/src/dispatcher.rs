//! Subscriber registry and event dispatcher.
//!
//! The registry owns every subscription: an entry pairs a unique,
//! monotonically increasing id with a status and a callback.  Dispatch walks
//! the current entries and invokes exactly the callbacks whose status is
//! [`Status::Active`]; paused entries are skipped without removal, and a
//! removed entry can never be reached again because it no longer exists in
//! the registry.  Callbacks run synchronously on the dispatching thread.

use vstd::prelude::*;

use crate::event::Event;
use crate::subscription::SubscriptionHandle;

verus! {

/// The current lifecycle state of a subscriber.
#[derive(Debug, Copy, Clone, PartialEq, Eq, Structural)]
pub enum Status {
    /// The subscriber receives events.
    Active,
    /// The subscriber is temporarily ignored.
    Paused,
}

/// A subscription callback.  Implementations receive each dispatched event
/// synchronously, on the thread that performs the dispatch.
pub trait EventCallback {
    /// Called once for each event delivered to this subscriber.
    fn invoke(&self, event: Event);
}

/// One registered subscription.
pub struct Subscriber<C> {
    /// Unique id, never reused while the subscriber is alive.
    pub id: u64,
    /// Whether dispatch currently reaches this subscriber.
    pub status: Status,
    /// The callback invoked on dispatch.
    pub callback: C,
}

/// The set of current subscriptions together with the id counter.
pub struct Registry<C> {
    /// The id the next subscription will receive.
    pub next_id: u64,
    /// Current entries, in subscription order.
    pub subs: Vec<Subscriber<C>>,
}

/// The ids of the active entries of `s`, in order.
pub open spec fn active_ids<C>(s: Seq<Subscriber<C>>) -> Seq<u64>
    decreases s.len(),
{
    if s.len() == 0 {
        Seq::empty()
    } else {
        let rest = active_ids(s.drop_last());
        if s.last().status is Active {
            rest.push(s.last().id)
        } else {
            rest
        }
    }
}

/// Law: dispatch reaches exactly the subscribers that are active at the
/// instant of iteration.  An id is among the invoked ids if and only if an
/// entry with that id exists and its status is `Active`; a paused or removed
/// subscriber is never among them.
pub proof fn lemma_dispatch_exact<C>(s: Seq<Subscriber<C>>)
    ensures
        forall|id: u64|
            active_ids(s).contains(id) <==> (exists|i: int|
                0 <= i < s.len() && s[i].id == id && s[i].status is Active),
    decreases s.len(),
{
    if s.len() == 0 {
    } else {
        let prefix = s.drop_last();
        lemma_dispatch_exact(prefix);
        assert forall|id: u64| active_ids(s).contains(id) implies (exists|i: int|
            0 <= i < s.len() && s[i].id == id && s[i].status is Active) by {
            if s.last().status is Active && id == s.last().id {
                assert(s[s.len() - 1].id == id && s[s.len() - 1].status is Active);
            } else {
                assert(active_ids(prefix).contains(id));
                let i = choose|i: int|
                    0 <= i < prefix.len() && prefix[i].id == id && prefix[i].status is Active;
                assert(s[i].id == id && s[i].status is Active);
            }
        }
        assert forall|id: u64|
            (exists|i: int| 0 <= i < s.len() && s[i].id == id && s[i].status is Active)
            implies active_ids(s).contains(id) by {
            let i = choose|i: int| 0 <= i < s.len() && s[i].id == id && s[i].status is Active;
            if i < s.len() - 1 {
                assert(prefix[i].id == id && prefix[i].status is Active);
                assert(active_ids(prefix).contains(id));
                let j = choose|j: int| 0 <= j < active_ids(prefix).len() && active_ids(prefix)[j] == id;
                assert(active_ids(s)[j] == id);
            } else {
                assert(active_ids(s).last() == id);
            }
        }
    }
}

impl<C> Registry<C> {
    /// Entries are sorted by strictly increasing id, and every id is below
    /// the id counter; ids are therefore unique and never reused while an
    /// entry is alive.
    pub open spec fn wf(&self) -> bool {
        &&& forall|i: int, j: int|
            0 <= i < j < self.subs@.len() ==> self.subs@[i].id < self.subs@[j].id
        &&& forall|i: int| 0 <= i < self.subs@.len() ==> self.subs@[i].id < self.next_id
    }

    /// True when an entry with the given id exists.
    pub open spec fn contains_id(&self, id: u64) -> bool {
        exists|i: int| 0 <= i < self.subs@.len() && self.subs@[i].id == id
    }

    /// An empty registry whose id counter starts at zero.
    pub fn new() -> (r: Self)
        ensures
            r.wf(),
            r.subs@.len() == 0,
            r.next_id == 0,
    {
        Registry { next_id: 0, subs: Vec::new() }
    }

    /// Law: a fresh registry id is distinct from every live id.
    pub proof fn lemma_fresh_id_unique(&self)
        requires
            self.wf(),
        ensures
            forall|i: int| 0 <= i < self.subs@.len() ==> self.subs@[i].id != self.next_id,
    {
    }

    /// Law: subscriber ids are unique and monotonically increasing in
    /// subscription order.
    pub proof fn lemma_subscriber_ids_unique(&self)
        requires
            self.wf(),
        ensures
            forall|i: int, j: int|
                0 <= i < j < self.subs@.len() ==> self.subs@[i].id != self.subs@[j].id,
    {
    }

    /// Allocates the next id, inserts an active entry for `callback`, and
    /// returns the handle bound to that id.
    pub fn subscribe(&mut self, callback: C) -> (h: SubscriptionHandle)
        requires
            old(self).wf(),
            old(self).next_id < u64::MAX,
        ensures
            final(self).wf(),
            h.id == old(self).next_id,
            final(self).next_id == old(self).next_id + 1,
            final(self).subs@.len() == old(self).subs@.len() + 1,
            final(self).subs@.drop_last() == old(self).subs@,
            final(self).subs@.last().id == h.id,
            final(self).subs@.last().status is Active,
    {
        let id = self.next_id;
        self.subs.push(Subscriber { id, status: Status::Active, callback });
        self.next_id = self.next_id + 1;
        proof {
            assert(self.subs@.drop_last() =~= old(self).subs@);
        }
        SubscriptionHandle { id }
    }

    /// The index of the entry with the given id, if one exists.
    pub fn index_of(&self, id: u64) -> (r: Option<usize>)
        ensures
            r matches Some(i) ==> i < self.subs@.len() && self.subs@[i as int].id == id,
            r is None ==> forall|k: int| 0 <= k < self.subs@.len() ==> self.subs@[k].id != id,
    {
        let mut i: usize = 0;
        while i < self.subs.len()
            invariant
                i <= self.subs@.len(),
                forall|k: int| 0 <= k < i ==> self.subs@[k].id != id,
            decreases self.subs@.len() - i,
        {
            if self.subs[i].id == id {
                return Some(i);
            }
            i = i + 1;
        }
        None
    }

    /// Flips the status of the entry with the given id, if it exists; the
    /// membership and order of entries are untouched.
    pub fn set_status(&mut self, id: u64, status: Status)
        requires
            old(self).wf(),
        ensures
            final(self).wf(),
            final(self).next_id == old(self).next_id,
            final(self).subs@.len() == old(self).subs@.len(),
            forall|k: int|
                0 <= k < old(self).subs@.len() ==> {
                    &&& final(self).subs@[k].id == old(self).subs@[k].id
                    &&& final(self).subs@[k].callback == old(self).subs@[k].callback
                    &&& final(self).subs@[k].status == (if old(self).subs@[k].id == id {
                        status
                    } else {
                        old(self).subs@[k].status
                    })
                },
    {
        match self.index_of(id) {
            None => {},
            Some(i) => {
                let mut entry = self.subs.remove(i);
                entry.status = status;
                let ghost updated = entry;
                self.subs.insert(i, entry);
                proof {
                    let mid = old(self).subs@.remove(i as int);
                    assert forall|k: int| 0 <= k < old(self).subs@.len() implies {
                        &&& self.subs@[k].id == old(self).subs@[k].id
                        &&& self.subs@[k].callback == old(self).subs@[k].callback
                        &&& self.subs@[k].status == (if old(self).subs@[k].id == id {
                            status
                        } else {
                            old(self).subs@[k].status
                        })
                    } by {
                        if k < i {
                            assert(self.subs@[k] == mid[k]);
                            assert(mid[k] == old(self).subs@[k]);
                            assert(old(self).subs@[k].id < old(self).subs@[i as int].id);
                        } else if k > i {
                            assert(self.subs@[k] == mid[k - 1]);
                            assert(mid[k - 1] == old(self).subs@[k]);
                            assert(old(self).subs@[i as int].id < old(self).subs@[k].id);
                        } else {
                            assert(self.subs@[k] == updated);
                        }
                    }
                }
            },
        }
    }

    /// Removes the entry with the given id, if it exists; every other entry
    /// is kept, in order, and the id counter is untouched.
    pub fn remove_id(&mut self, id: u64)
        requires
            old(self).wf(),
        ensures
            final(self).wf(),
            final(self).next_id == old(self).next_id,
            forall|k: int| 0 <= k < final(self).subs@.len() ==> final(self).subs@[k].id != id,
            old(self).contains_id(id) ==> (exists|i: int|
                0 <= i < old(self).subs@.len() && old(self).subs@[i].id == id
                    && final(self).subs@ == old(self).subs@.remove(i)),
            !old(self).contains_id(id) ==> final(self).subs@ == old(self).subs@,
    {
        match self.index_of(id) {
            None => {},
            Some(i) => {
                self.subs.remove(i);
                proof {
                    assert forall|k: int| 0 <= k < self.subs@.len() implies self.subs@[k].id
                        != id by {
                        if k < i {
                            assert(self.subs@[k] == old(self).subs@[k]);
                        } else {
                            assert(self.subs@[k] == old(self).subs@[k + 1]);
                        }
                    }
                }
            },
        }
    }

    /// Clears every entry and resets the id counter to zero.
    pub fn remove_all(&mut self)
        ensures
            final(self).wf(),
            final(self).subs@.len() == 0,
            final(self).next_id == 0,
    {
        self.subs = Vec::new();
        self.next_id = 0;
    }
}

impl<C: EventCallback> Registry<C> {
    /// Delivers `event` to every currently active subscriber, in entry
    /// order, and returns the ids that were invoked: exactly the active ids,
    /// never a paused one, never one absent from the registry.
    pub fn dispatch(&self, event: Event) -> (invoked: Vec<u64>)
        ensures
            invoked@ == active_ids(self.subs@),
    {
        let mut invoked: Vec<u64> = Vec::new();
        let mut i: usize = 0;
        while i < self.subs.len()
            invariant
                i <= self.subs@.len(),
                invoked@ == active_ids(self.subs@.take(i as int)),
            decreases self.subs@.len() - i,
        {
            if self.subs[i].status == Status::Active {
                self.subs[i].callback.invoke(event);
                invoked.push(self.subs[i].id);
            }
            proof {
                let t = self.subs@.take(i + 1);
                assert(t.drop_last() =~= self.subs@.take(i as int));
                assert(t.last() == self.subs@[i as int]);
            }
            i = i + 1;
        }
        proof {
            assert(self.subs@.take(self.subs@.len() as int) =~= self.subs@);
        }
        invoked
    }
}

} // verus!
