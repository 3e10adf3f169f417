use vstd::prelude::*;

use crate::ids::IdGenerator;
use crate::model::{Guest, RegistryItem, Task, Vendor, Wedding};
use crate::planner::{Planner, ascending, guests_wf, registry_wf, tasks_wf, wedding_wf};
use crate::store::Store;

verus! {

/// Records that can make up a planner whose generator stands at `next`: every
/// identifier below `next`, records of one kind in strictly increasing order of
/// identifier, and each wedding's nested collections sound.
pub open spec fn records_valid(next: u64, vendors: Seq<Vendor>, weddings: Seq<Wedding>) -> bool {
    &&& forall|i: int, j: int| 0 <= i < j < vendors.len() ==> #[trigger] vendors[i].id < #[trigger] vendors[j].id
    &&& forall|i: int, j: int| 0 <= i < j < weddings.len() ==> #[trigger] weddings[i].id < #[trigger] weddings[j].id
    &&& forall|i: int| 0 <= i < vendors.len() ==> #[trigger] vendors[i].id < next
    &&& forall|i: int, j: int|
        0 <= i < vendors.len() && 0 <= j < vendors.len() && i != j ==> #[trigger] vendors[i].id
            != #[trigger] vendors[j].id
    &&& forall|i: int| 0 <= i < weddings.len() ==> #[trigger] weddings[i].id < next
        && wedding_wf(weddings[i], next)
    &&& forall|i: int, j: int|
        0 <= i < weddings.len() && 0 <= j < weddings.len() && i != j ==> #[trigger] weddings[i].id
            != #[trigger] weddings[j].id
}

pub fn tasks_sound(tasks: &Vec<Task>, next: u64) -> (r: bool)
    ensures
        r == tasks_wf(tasks@, next),
{
    let mut i: usize = 0;
    while i < tasks.len()
        invariant
            0 <= i <= tasks@.len(),
            forall|a: int| 0 <= a < i ==> #[trigger] tasks@[a].id < next,
            forall|a: int, b: int| 0 <= a < i && 0 <= b < i && a != b ==> #[trigger] tasks@[a].id
                != #[trigger] tasks@[b].id,
        decreases tasks@.len() - i,
    {
        if tasks[i].id >= next {
            return false;
        }
        let mut j: usize = 0;
        while j < i
            invariant
                0 <= j <= i < tasks@.len(),
                forall|b: int| 0 <= b < j ==> #[trigger] tasks@[b].id != tasks@[i as int].id,
            decreases i - j,
        {
            if tasks[j].id == tasks[i].id {
                assert(tasks@[j as int].id == tasks@[i as int].id);
                return false;
            }
            j = j + 1;
        }
        i = i + 1;
    }
    true
}

pub fn guests_sound(guests: &Vec<Guest>) -> (r: bool)
    ensures
        r == guests_wf(guests@),
{
    let mut i: usize = 0;
    while i < guests.len()
        invariant
            0 <= i <= guests@.len(),
            forall|a: int, b: int| 0 <= a < i && 0 <= b < i && a != b ==> #[trigger] guests@[a].guest_email@
                != #[trigger] guests@[b].guest_email@,
        decreases guests@.len() - i,
    {
        let mut j: usize = 0;
        while j < i
            invariant
                0 <= j <= i < guests@.len(),
                forall|b: int| 0 <= b < j ==> #[trigger] guests@[b].guest_email@ != guests@[i as int].guest_email@,
            decreases i - j,
        {
            if guests[j].guest_email == guests[i].guest_email {
                assert(guests@[j as int].guest_email@ == guests@[i as int].guest_email@);
                return false;
            }
            j = j + 1;
        }
        i = i + 1;
    }
    true
}

pub fn registry_sound(items: &Vec<RegistryItem>) -> (r: bool)
    ensures
        r == registry_wf(items@),
{
    let mut i: usize = 0;
    while i < items.len()
        invariant
            0 <= i <= items@.len(),
            forall|a: int, b: int| 0 <= a < i && 0 <= b < i && a != b ==> #[trigger] items@[a].name@
                != #[trigger] items@[b].name@,
        decreases items@.len() - i,
    {
        let mut j: usize = 0;
        while j < i
            invariant
                0 <= j <= i < items@.len(),
                forall|b: int| 0 <= b < j ==> #[trigger] items@[b].name@ != items@[i as int].name@,
            decreases i - j,
        {
            if items[j].name == items[i].name {
                assert(items@[j as int].name@ == items@[i as int].name@);
                return false;
            }
            j = j + 1;
        }
        i = i + 1;
    }
    true
}

pub fn wedding_sound(w: &Wedding, next: u64) -> (r: bool)
    ensures
        r == wedding_wf(*w, next),
{
    tasks_sound(&w.tasks, next) && guests_sound(&w.guest_list) && registry_sound(&w.registry)
}

impl Planner {
    /// Rebuilds a planner from saved records and the saved generator position,
    /// refusing records that break an invariant. Records keep their order.
    pub fn restore(next: u64, vendors: Vec<Vendor>, weddings: Vec<Wedding>) -> (r: Option<Planner>)
        ensures
            r is Some <==> records_valid(next, vendors@, weddings@),
            r is Some ==> {
                let p = r->Some_0;
                &&& p.wf()
                &&& p.ids.peek() == next
                &&& p.vendors.vals() == vendors@
                &&& p.weddings.vals() == weddings@
            },
    {
        let ghost vs = vendors@;
        let ghost ws = weddings@;
        let mut rest_v = vendors;
        let vn: usize = rest_v.len();
        let mut vstore: Store<Vendor> = Store::new();
        let mut vlast: u64 = 0;
        let mut i: usize = 0;
        while rest_v.len() > 0
            invariant
                vstore.wf(),
                i + rest_v@.len() == vs.len(),
                vs.len() == vn,
                vs == vendors@,
                ws == weddings@,
                rest_v@ == vs.skip(i as int),
                vstore.vals() == vs.take(i as int),
                vstore.ids().len() == i,
                i > 0 ==> vlast == vs[i - 1].id,
                forall|a: int, b: int| 0 <= a < b < i ==> #[trigger] vs[a].id < #[trigger] vs[b].id,
                forall|k: int| 0 <= k < i ==> vstore.ids()[k] == #[trigger] vs[k].id,
                forall|a: int| 0 <= a < i ==> #[trigger] vs[a].id < next,
                forall|a: int, b: int| 0 <= a < i && 0 <= b < i && a != b ==> #[trigger] vs[a].id
                    != #[trigger] vs[b].id,
                forall|k: u64| #[trigger] vstore@.contains_key(k) ==> k < next && vstore@[k].id == k,
            decreases rest_v@.len(),
        {
            let v = rest_v.remove(0);
            assert(v == vs[i as int]);
            if v.id >= next {
                assert(vs[i as int].id >= next);
                assert(!records_valid(next, vs, ws));
                return None;
            }
            if i > 0 && v.id <= vlast {
                proof {
                    let k = (i - 1) as int;
                    assert(vs[k].id >= vs[i as int].id);
                    assert(!records_valid(next, vs, ws));
                }
                return None;
            }
            if vstore.contains(v.id) {
                proof {
                    let k = choose|k: int| 0 <= k < vstore.ids().len() && vstore.ids()[k] == v.id;
                    assert(vs[k].id == vs[i as int].id);
                    assert(k != i);
                    assert(!records_valid(next, vs, ws));
                }
                return None;
            }
            let id = v.id;
            vlast = id;
            let ghost before = vstore;
            vstore.put(id, v);
            proof {
                assert(vstore.vals() =~= vs.take(i + 1));
                assert(rest_v@ =~= vs.skip(i + 1));
                assert forall|k: int| 0 <= k < i + 1 implies vstore.ids()[k] == #[trigger] vs[k].id by {
                    if k < i {
                        assert(vstore.ids()[k] == before.ids()[k]);
                    }
                }
                assert forall|a: int, b: int| 0 <= a < i + 1 && 0 <= b < i + 1 && a != b implies
                    #[trigger] vs[a].id != #[trigger] vs[b].id by {
                    if a == i && b < i {
                        assert(before.ids()[b] == vs[b].id);
                        assert(before@.contains_key(vs[b].id));
                    } else if b == i && a < i {
                        assert(before.ids()[a] == vs[a].id);
                        assert(before@.contains_key(vs[a].id));
                    }
                }
                assert forall|k: u64| #[trigger] vstore@.contains_key(k) implies k < next && vstore@[k].id == k by {
                    if k != id {
                        assert(before@.contains_key(k));
                    }
                }
            }
            i = i + 1;
        }
        proof {
            assert(vs.take(i as int) =~= vs);
            assert forall|a: int, b: int| 0 <= a < b < vstore.ids().len() implies
                #[trigger] vstore.ids()[a] < #[trigger] vstore.ids()[b] by {
                assert(vs[a].id < vs[b].id);
            }
        }
        let mut rest_w = weddings;
        let wn: usize = rest_w.len();
        let mut wstore: Store<Wedding> = Store::new();
        let mut wlast: u64 = 0;
        let mut i: usize = 0;
        while rest_w.len() > 0
            invariant
                wstore.wf(),
                i + rest_w@.len() == ws.len(),
                ws.len() == wn,
                vs == vendors@,
                ws == weddings@,
                forall|a: int| 0 <= a < vs.len() ==> #[trigger] vs[a].id < next,
                forall|a: int, b: int| 0 <= a < b < vs.len() ==> #[trigger] vs[a].id < #[trigger] vs[b].id,
                ascending(vstore.ids()),
                forall|a: int, b: int| 0 <= a < vs.len() && 0 <= b < vs.len() && a != b ==> #[trigger] vs[a].id
                    != #[trigger] vs[b].id,
                rest_w@ == ws.skip(i as int),
                wstore.vals() == ws.take(i as int),
                wstore.ids().len() == i,
                i > 0 ==> wlast == ws[i - 1].id,
                forall|a: int, b: int| 0 <= a < b < i ==> #[trigger] ws[a].id < #[trigger] ws[b].id,
                forall|k: int| 0 <= k < i ==> wstore.ids()[k] == #[trigger] ws[k].id,
                forall|a: int| 0 <= a < i ==> #[trigger] ws[a].id < next && wedding_wf(ws[a], next),
                forall|a: int, b: int| 0 <= a < i && 0 <= b < i && a != b ==> #[trigger] ws[a].id
                    != #[trigger] ws[b].id,
                forall|k: u64| #[trigger] wstore@.contains_key(k) ==> k < next && wstore@[k].id == k
                    && wedding_wf(wstore@[k], next),
            decreases rest_w@.len(),
        {
            let w = rest_w.remove(0);
            assert(w == ws[i as int]);
            if w.id >= next || !wedding_sound(&w, next) {
                assert(!(ws[i as int].id < next && wedding_wf(ws[i as int], next)));
                assert(!records_valid(next, vs, ws));
                return None;
            }
            if i > 0 && w.id <= wlast {
                proof {
                    let k = (i - 1) as int;
                    assert(ws[k].id >= ws[i as int].id);
                    assert(!records_valid(next, vs, ws));
                }
                return None;
            }
            if wstore.contains(w.id) {
                proof {
                    let k = choose|k: int| 0 <= k < wstore.ids().len() && wstore.ids()[k] == w.id;
                    assert(ws[k].id == ws[i as int].id);
                    assert(k != i);
                    assert(!records_valid(next, vs, ws));
                }
                return None;
            }
            let id = w.id;
            wlast = id;
            let ghost before = wstore;
            wstore.put(id, w);
            proof {
                assert(wstore.vals() =~= ws.take(i + 1));
                assert(rest_w@ =~= ws.skip(i + 1));
                assert forall|k: int| 0 <= k < i + 1 implies wstore.ids()[k] == #[trigger] ws[k].id by {
                    if k < i {
                        assert(wstore.ids()[k] == before.ids()[k]);
                    }
                }
                assert forall|a: int, b: int| 0 <= a < i + 1 && 0 <= b < i + 1 && a != b implies
                    #[trigger] ws[a].id != #[trigger] ws[b].id by {
                    if a == i && b < i {
                        assert(before.ids()[b] == ws[b].id);
                        assert(before@.contains_key(ws[b].id));
                    } else if b == i && a < i {
                        assert(before.ids()[a] == ws[a].id);
                        assert(before@.contains_key(ws[a].id));
                    }
                }
                assert forall|k: u64| #[trigger] wstore@.contains_key(k) implies k < next && wstore@[k].id == k
                    && wedding_wf(wstore@[k], next) by {
                    if k != id {
                        assert(before@.contains_key(k));
                    }
                }
            }
            i = i + 1;
        }
        proof {
            assert(ws.take(i as int) =~= ws);
            assert(i == ws.len());
            assert forall|a: int, b: int| 0 <= a < b < wstore.ids().len() implies
                #[trigger] wstore.ids()[a] < #[trigger] wstore.ids()[b] by {
                assert(ws[a].id < ws[b].id);
            }
            assert(records_valid(next, vs, ws));
        }
        Some(Planner { ids: IdGenerator::resume(next), vendors: vstore, weddings: wstore })
    }
}

} // verus!
