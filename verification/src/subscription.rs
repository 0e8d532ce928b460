//! Handles through which callers control one subscription.

use vstd::prelude::*;

use crate::dispatcher::{Registry, Status};

verus! {

/// Control over one active subscription: pausing, resuming, or permanently
/// removing the callback bound to its id.
pub struct SubscriptionHandle {
    /// The id of the subscription this handle controls.
    pub id: u64,
}

impl SubscriptionHandle {
    /// Pauses the subscription: its callback is skipped by dispatch until
    /// `resume` is called.  Membership in the registry is untouched.
    pub fn pause<C>(&self, registry: &mut Registry<C>)
        requires
            old(registry).wf(),
        ensures
            final(registry).wf(),
            final(registry).next_id == old(registry).next_id,
            final(registry).subs@.len() == old(registry).subs@.len(),
            forall|k: int|
                0 <= k < old(registry).subs@.len() ==> {
                    &&& final(registry).subs@[k].id == old(registry).subs@[k].id
                    &&& final(registry).subs@[k].callback == old(registry).subs@[k].callback
                    &&& final(registry).subs@[k].status == (if old(registry).subs@[k].id
                        == self.id {
                        Status::Paused
                    } else {
                        old(registry).subs@[k].status
                    })
                },
    {
        registry.set_status(self.id, Status::Paused);
    }

    /// Resumes a previously paused subscription.
    pub fn resume<C>(&self, registry: &mut Registry<C>)
        requires
            old(registry).wf(),
        ensures
            final(registry).wf(),
            final(registry).next_id == old(registry).next_id,
            final(registry).subs@.len() == old(registry).subs@.len(),
            forall|k: int|
                0 <= k < old(registry).subs@.len() ==> {
                    &&& final(registry).subs@[k].id == old(registry).subs@[k].id
                    &&& final(registry).subs@[k].callback == old(registry).subs@[k].callback
                    &&& final(registry).subs@[k].status == (if old(registry).subs@[k].id
                        == self.id {
                        Status::Active
                    } else {
                        old(registry).subs@[k].status
                    })
                },
    {
        registry.set_status(self.id, Status::Active);
    }

    /// Removes the subscription permanently.  The handle is consumed; the
    /// callback is dropped and can never be invoked again.
    pub fn unsubscribe<C>(self, registry: &mut Registry<C>)
        requires
            old(registry).wf(),
        ensures
            final(registry).wf(),
            final(registry).next_id == old(registry).next_id,
            forall|k: int|
                0 <= k < final(registry).subs@.len() ==> final(registry).subs@[k].id != self.id,
            old(registry).contains_id(self.id) ==> (exists|i: int|
                0 <= i < old(registry).subs@.len() && old(registry).subs@[i].id == self.id
                    && final(registry).subs@ == old(registry).subs@.remove(i)),
            !old(registry).contains_id(self.id) ==> final(registry).subs@ == old(registry).subs@,
    {
        registry.remove_id(self.id);
    }
}

} // verus!
