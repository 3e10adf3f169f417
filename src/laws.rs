use vstd::prelude::*;

use crate::model::{Guest, RegistryItem};
use crate::planner::{Planner, registry_wf};
use crate::registry::has_item;
use crate::weddings::{has_guest, seating_load, seats_of};

verus! {

/// Once a reply is recorded under an email, that email is taken on the guest
/// list, so a second reply under it is refused.
pub proof fn lemma_second_rsvp_refused(before: Seq<Guest>, after: Seq<Guest>, g: Guest)
    requires
        after == before.push(g),
    ensures
        has_guest(after, g.guest_email@),
        after.len() == before.len() + 1,
{
    assert(after[before.len() as int] == g);
}

/// Once a gift is in a registry under a name, a second gift under that name is
/// refused.
pub proof fn lemma_second_gift_refused(before: Seq<RegistryItem>, after: Seq<RegistryItem>, it: RegistryItem)
    requires
        after == before.push(it),
    ensures
        has_item(after, it.name@),
{
    assert(after[before.len() as int] == it);
}

/// Deleting a registry item removes exactly the named item: nothing under that
/// name is left, and every other item stays, in order.
pub proof fn lemma_delete_gift_exact(before: Seq<RegistryItem>, after: Seq<RegistryItem>, i: int)
    requires
        registry_wf(before),
        0 <= i < before.len(),
        after == before.remove(i),
    ensures
        !has_item(after, before[i].name@),
        after.len() == before.len() - 1,
        forall|j: int| 0 <= j < i ==> #[trigger] after[j] == before[j],
        forall|j: int| i < j < before.len() ==> after[j - 1] == #[trigger] before[j],
{
    assert forall|a: int| 0 <= a < after.len() implies #[trigger] after[a].name@ != before[i].name@ by {
        let oa = if a < i { a } else { a + 1 };
        assert(before[oa].name@ != before[i].name@);
    }
}

/// Replacing one guest changes the seating load by exactly the difference in
/// seats between the new and the old entry; so approving a guest who was not
/// yet confirmed adds one seat, or two with a plus-one.
pub proof fn lemma_load_after_update(guests: Seq<Guest>, i: int, g: Guest)
    requires
        0 <= i < guests.len(),
    ensures
        seating_load(guests.update(i, g)) == seating_load(guests) - seats_of(guests[i]) + seats_of(g),
    decreases guests.len(),
{
    let u = guests.update(i, g);
    if i == guests.len() - 1 {
        assert(u.drop_last() =~= guests.drop_last());
    } else {
        assert(u.drop_last() =~= guests.drop_last().update(i, g));
        lemma_load_after_update(guests.drop_last(), i, g);
    }
}

/// A record written under `id` is read back unchanged, field for field, after
/// any run of later steps none of which touches `id`: at every step `n` of the
/// run the record under `id` is still `v`.
pub proof fn lemma_reads_back<V>(maps: Seq<Map<u64, V>>, id: u64, v: V, n: int)
    requires
        0 <= n < maps.len(),
        maps[0].contains_key(id),
        maps[0][id] == v,
        forall|k: int| 0 <= k < maps.len() - 1 && (#[trigger] maps[k]).contains_key(id) ==> maps[k + 1].contains_key(id)
            && maps[k + 1][id] == maps[k][id],
    ensures
        maps[n].contains_key(id),
        maps[n][id] == v,
    decreases n,
{
    if n > 0 {
        lemma_reads_back(maps, id, v, n - 1);
        let k = n - 1;
        assert(maps[k].contains_key(id));
    }
}

/// The records a scan yields carry their keys as identifiers, so the vendors
/// (and the weddings) that a full listing returns have pairwise distinct ids.
pub proof fn lemma_scan_records_distinct(p: Planner)
    requires
        p.wf(),
    ensures
        forall|i: int| 0 <= i < p.vendors.vals().len() ==> #[trigger] p.vendors.vals()[i].id == p.vendors.ids()[i],
        forall|i: int, j: int|
            0 <= i < p.vendors.vals().len() && 0 <= j < p.vendors.vals().len() && i != j
                ==> #[trigger] p.vendors.vals()[i].id != #[trigger] p.vendors.vals()[j].id,
        forall|i: int| 0 <= i < p.weddings.vals().len() ==> #[trigger] p.weddings.vals()[i].id == p.weddings.ids()[i],
        forall|i: int, j: int|
            0 <= i < p.weddings.vals().len() && 0 <= j < p.weddings.vals().len() && i != j
                ==> #[trigger] p.weddings.vals()[i].id != #[trigger] p.weddings.vals()[j].id,
{
    assert forall|i: int| 0 <= i < p.vendors.vals().len() implies #[trigger] p.vendors.vals()[i].id == p.vendors.ids()[i] by {
        assert(p.vendors@.contains_key(p.vendors.ids()[i]));
    }
    assert forall|i: int| 0 <= i < p.weddings.vals().len() implies #[trigger] p.weddings.vals()[i].id == p.weddings.ids()[i] by {
        assert(p.weddings@.contains_key(p.weddings.ids()[i]));
    }
    assert forall|i: int, j: int|
        0 <= i < p.vendors.vals().len() && 0 <= j < p.vendors.vals().len() && i != j implies
        #[trigger] p.vendors.vals()[i].id != #[trigger] p.vendors.vals()[j].id by {
        assert(p.vendors@.contains_key(p.vendors.ids()[i]));
        assert(p.vendors@.contains_key(p.vendors.ids()[j]));
    }
    assert forall|i: int, j: int|
        0 <= i < p.weddings.vals().len() && 0 <= j < p.weddings.vals().len() && i != j implies
        #[trigger] p.weddings.vals()[i].id != #[trigger] p.weddings.vals()[j].id by {
        assert(p.weddings@.contains_key(p.weddings.ids()[i]));
        assert(p.weddings@.contains_key(p.weddings.ids()[j]));
    }
}

} // verus!
