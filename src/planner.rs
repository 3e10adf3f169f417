use vstd::prelude::*;

use crate::ids::IdGenerator;
use crate::model::{Task, Wedding, Vendor, Guest, RegistryItem};
use crate::store::Store;

verus! {

/// Keys that strictly increase along the sequence.
pub open spec fn ascending(keys: Seq<u64>) -> bool {
    forall|i: int, j: int| 0 <= i < j < keys.len() ==> #[trigger] keys[i] < #[trigger] keys[j]
}

/// Task identifiers are below `next` and pairwise distinct.
pub open spec fn tasks_wf(tasks: Seq<Task>, next: u64) -> bool {
    &&& forall|i: int| 0 <= i < tasks.len() ==> #[trigger] tasks[i].id < next
    &&& forall|i: int, j: int|
        0 <= i < tasks.len() && 0 <= j < tasks.len() && i != j ==> #[trigger] tasks[i].id
            != #[trigger] tasks[j].id
}

/// Guest emails are pairwise distinct.
pub open spec fn guests_wf(guests: Seq<Guest>) -> bool {
    forall|i: int, j: int|
        0 <= i < guests.len() && 0 <= j < guests.len() && i != j ==> #[trigger] guests[i].guest_email@
            != #[trigger] guests[j].guest_email@
}

/// Registry item names are pairwise distinct.
pub open spec fn registry_wf(items: Seq<RegistryItem>) -> bool {
    forall|i: int, j: int|
        0 <= i < items.len() && 0 <= j < items.len() && i != j ==> #[trigger] items[i].name@
            != #[trigger] items[j].name@
}

/// The invariants that one wedding's nested collections keep.
pub open spec fn wedding_wf(w: Wedding, next: u64) -> bool {
    &&& tasks_wf(w.tasks@, next)
    &&& guests_wf(w.guest_list@)
    &&& registry_wf(w.registry@)
}

/// The state of the whole system: the identity generator and the two stores of
/// aggregates. Each store scans in increasing order of identifier, since
/// records are added with fresh, growing identifiers and rewritten in place.
pub struct Planner {
    pub ids: IdGenerator,
    pub vendors: Store<Vendor>,
    pub weddings: Store<Wedding>,
}

impl Planner {
    pub open spec fn wf(&self) -> bool {
        &&& self.vendors.wf()
        &&& self.weddings.wf()
        &&& ascending(self.vendors.ids())
        &&& ascending(self.weddings.ids())
        &&& forall|k: u64| #[trigger] self.vendors@.contains_key(k) ==> k < self.ids.peek()
            && self.vendors@[k].id == k
        &&& forall|k: u64| #[trigger] self.weddings@.contains_key(k) ==> k < self.ids.peek()
            && self.weddings@[k].id == k && wedding_wf(self.weddings@[k], self.ids.peek())
    }

    /// A planner with nothing stored and nothing issued.
    pub fn new() -> (r: Planner)
        ensures
            r.wf(),
            r.ids.peek() == 0,
            r.vendors@ == Map::<u64, Vendor>::empty(),
            r.weddings@ == Map::<u64, Wedding>::empty(),
            r.vendors.ids().len() == 0,
            r.weddings.ids().len() == 0,
    {
        Planner { ids: IdGenerator::new(), vendors: Store::new(), weddings: Store::new() }
    }

    /// Issues the next identifier.
    pub fn generate_uuid(&mut self) -> (r: u64)
        requires
            old(self).wf(),
            old(self).ids.can_issue(),
        ensures
            r == old(self).ids.peek(),
            final(self).ids.peek() == r + 1,
            final(self).vendors == old(self).vendors,
            final(self).weddings == old(self).weddings,
            final(self).wf(),
    {
        let r = self.ids.next_id();
        proof {
            let w = self.weddings@;
            assert forall|k: u64| #[trigger] w.contains_key(k) implies
                wedding_wf(w[k], self.ids.peek()) by {
                assert(wedding_wf(w[k], old(self).ids.peek()));
                let ts = w[k].tasks@;
                assert forall|i: int| 0 <= i < ts.len() implies #[trigger] ts[i].id < self.ids.peek() by {
                    assert(ts[i].id < old(self).ids.peek());
                }
            }
        }
        r
    }
}

/// `after` differs from `before` only in the wedding under `id`, which is now `w`;
/// the scan order is kept.
pub open spec fn replaced_wedding(before: Planner, after: Planner, id: u64, w: Wedding) -> bool {
    &&& after.weddings@ == before.weddings@.insert(id, w)
    &&& after.weddings.ids() == before.weddings.ids()
    &&& after.vendors == before.vendors
    &&& after.ids == before.ids
}

} // verus!
