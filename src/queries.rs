use vstd::prelude::*;

use crate::model::{Category, Guest, Message, RegistryItem, RsvpStatus, Task, TimelineItem, Vendor, Wedding};
use crate::planner::Planner;
use crate::registry::{find_item, has_item};
use crate::tasks::{find_task, has_task};
use crate::weddings::{find_guest, has_guest};

verus! {

/// The stored vendors of `category`, in scan order.
pub open spec fn vendors_in(vendors: Seq<Vendor>, category: Category) -> Seq<Vendor> {
    vendors.filter(|v: Vendor| v.category == category)
}

/// The stored weddings held on `date`, in scan order.
pub open spec fn weddings_on(weddings: Seq<Wedding>, date: Seq<char>) -> Seq<Wedding> {
    weddings.filter(|w: Wedding| w.date@ == date)
}

/// The records behind a list of references.
pub open spec fn deref_all<T>(s: Seq<&T>) -> Seq<T> {
    s.map_values(|x: &T| *x)
}

impl Planner {
    pub fn get_vendor_details(&self, vendor_id: u64) -> (r: Result<&Vendor, Message>)
        requires
            self.wf(),
        ensures
            r is Err <==> !self.vendors@.contains_key(vendor_id),
            r is Err ==> r->Err_0 is VendorNotFound,
            r is Ok ==> *r->Ok_0 == self.vendors@[vendor_id],
    {
        match self.vendors.get(vendor_id) {
            Some(v) => Ok(v),
            None => Err(Message::VendorNotFound("Vendor not found".to_string())),
        }
    }

    /// Every vendor of a category, in scan order; finding none is reported.
    pub fn search_vendors_by_category(&self, category: Category) -> (r: Result<Vec<&Vendor>, Message>)
        requires
            self.wf(),
        ensures
            r is Err <==> vendors_in(self.vendors.vals(), category).len() == 0,
            r is Err ==> r->Err_0 is VendorNotFound,
            r is Ok ==> deref_all(r->Ok_0@) == vendors_in(self.vendors.vals(), category),
    {
        let ghost all = self.vendors.vals();
        let mut found: Vec<&Vendor> = Vec::new();
        let mut i: usize = 0;
        let n = self.vendors.len();
        while i < n
            invariant
                self.vendors.wf(),
                n == all.len(),
                all == self.vendors.vals(),
                0 <= i <= n,
                deref_all(found@) == vendors_in(all.take(i as int), category),
            decreases n - i,
        {
            proof {
                assert(all.take(i + 1).drop_last() =~= all.take(i as int));
                reveal(Seq::filter);
            }
            let (_, v) = self.vendors.entry(i);
            if v.category == category {
                found.push(v);
                proof {
                    assert(deref_all(found@) =~= deref_all(found@.drop_last()).push(*v));
                }
            }
            i = i + 1;
        }
        assert(all.take(n as int) =~= all);
        if found.len() == 0 {
            Err(Message::VendorNotFound("No vendors found in that category".to_string()))
        } else {
            Ok(found)
        }
    }

    /// Every vendor, in scan order; an empty store is reported.
    pub fn get_all_vendors(&self) -> (r: Result<Vec<&Vendor>, Message>)
        requires
            self.wf(),
        ensures
            r is Err <==> self.vendors.vals().len() == 0,
            r is Err ==> r->Err_0 is VendorNotFound,
            r is Ok ==> deref_all(r->Ok_0@) == self.vendors.vals(),
    {
        let ghost all = self.vendors.vals();
        let mut found: Vec<&Vendor> = Vec::new();
        let mut i: usize = 0;
        let n = self.vendors.len();
        while i < n
            invariant
                self.vendors.wf(),
                n == all.len(),
                all == self.vendors.vals(),
                0 <= i <= n,
                deref_all(found@) == all.take(i as int),
            decreases n - i,
        {
            let (_, v) = self.vendors.entry(i);
            let ghost prev = found@;
            found.push(v);
            proof {
                assert(deref_all(found@) =~= deref_all(prev).push(*v));
                assert(all.take(i + 1) =~= all.take(i as int).push(all[i as int]));
            }
            i = i + 1;
        }
        assert(all.take(n as int) =~= all);
        if found.len() == 0 {
            Err(Message::VendorNotFound("No vendors found.".to_string()))
        } else {
            Ok(found)
        }
    }

    pub fn get_wedding_details(&self, wedding_id: u64) -> (r: Result<&Wedding, Message>)
        requires
            self.wf(),
        ensures
            r is Err <==> !self.weddings@.contains_key(wedding_id),
            r is Err ==> r->Err_0 is WeddingNotFound,
            r is Ok ==> *r->Ok_0 == self.weddings@[wedding_id],
    {
        match self.weddings.get(wedding_id) {
            Some(w) => Ok(w),
            None => Err(Message::WeddingNotFound("Wedding not found".to_string())),
        }
    }

    /// Every wedding, in scan order; an empty store is reported.
    pub fn get_all_weddings(&self) -> (r: Result<Vec<&Wedding>, Message>)
        requires
            self.wf(),
        ensures
            r is Err <==> self.weddings.vals().len() == 0,
            r is Err ==> r->Err_0 is WeddingNotFound,
            r is Ok ==> deref_all(r->Ok_0@) == self.weddings.vals(),
    {
        let ghost all = self.weddings.vals();
        let mut found: Vec<&Wedding> = Vec::new();
        let mut i: usize = 0;
        let n = self.weddings.len();
        while i < n
            invariant
                self.weddings.wf(),
                n == all.len(),
                all == self.weddings.vals(),
                0 <= i <= n,
                deref_all(found@) == all.take(i as int),
            decreases n - i,
        {
            let (_, w) = self.weddings.entry(i);
            let ghost prev = found@;
            found.push(w);
            proof {
                assert(deref_all(found@) =~= deref_all(prev).push(*w));
                assert(all.take(i + 1) =~= all.take(i as int).push(all[i as int]));
            }
            i = i + 1;
        }
        assert(all.take(n as int) =~= all);
        if found.len() == 0 {
            Err(Message::WeddingNotFound("No weddings found.".to_string()))
        } else {
            Ok(found)
        }
    }

    /// Every wedding held on `date`, in scan order; finding none is reported.
    pub fn search_weddings_by_date(&self, date: &String) -> (r: Result<Vec<&Wedding>, Message>)
        requires
            self.wf(),
        ensures
            r is Err <==> weddings_on(self.weddings.vals(), date@).len() == 0,
            r is Err ==> r->Err_0 is WeddingNotFound,
            r is Ok ==> deref_all(r->Ok_0@) == weddings_on(self.weddings.vals(), date@),
    {
        let ghost all = self.weddings.vals();
        let mut found: Vec<&Wedding> = Vec::new();
        let mut i: usize = 0;
        let n = self.weddings.len();
        while i < n
            invariant
                self.weddings.wf(),
                n == all.len(),
                all == self.weddings.vals(),
                0 <= i <= n,
                deref_all(found@) == weddings_on(all.take(i as int), date@),
            decreases n - i,
        {
            proof {
                assert(all.take(i + 1).drop_last() =~= all.take(i as int));
                reveal(Seq::filter);
            }
            let (_, w) = self.weddings.entry(i);
            if w.date == *date {
                found.push(w);
                proof {
                    assert(deref_all(found@) =~= deref_all(found@.drop_last()).push(*w));
                }
            }
            i = i + 1;
        }
        assert(all.take(n as int) =~= all);
        if found.len() == 0 {
            Err(Message::WeddingNotFound("No weddings found on that date".to_string()))
        } else {
            Ok(found)
        }
    }

    pub fn get_wedding_timeline(&self, wedding_id: u64) -> (r: Result<&Vec<TimelineItem>, Message>)
        requires
            self.wf(),
        ensures
            ({
                let ws = self.weddings@;
                &&& r is Err <==> (!ws.contains_key(wedding_id) || ws[wedding_id].timeline@.len() == 0)
                &&& !ws.contains_key(wedding_id) ==> r is Err && r->Err_0 is WeddingNotFound
                &&& ws.contains_key(wedding_id) && ws[wedding_id].timeline@.len() == 0 ==> r is Err
                    && r->Err_0 is NoTimeLineItemsFound
                &&& r is Ok ==> *r->Ok_0 == ws[wedding_id].timeline
            }),
    {
        match self.weddings.get(wedding_id) {
            None => Err(Message::WeddingNotFound("Wedding not found".to_string())),
            Some(w) => if w.timeline.len() == 0 {
                Err(Message::NoTimeLineItemsFound("No timeline items found for this wedding".to_string()))
            } else {
                Ok(&w.timeline)
            },
        }
    }

    pub fn get_guest_list(&self, wedding_id: u64) -> (r: Result<&Vec<Guest>, Message>)
        requires
            self.wf(),
        ensures
            ({
                let ws = self.weddings@;
                &&& r is Err <==> (!ws.contains_key(wedding_id) || ws[wedding_id].guest_list@.len() == 0)
                &&& !ws.contains_key(wedding_id) ==> r is Err && r->Err_0 is WeddingNotFound
                &&& ws.contains_key(wedding_id) && ws[wedding_id].guest_list@.len() == 0 ==> r is Err
                    && r->Err_0 is Error
                &&& r is Ok ==> *r->Ok_0 == ws[wedding_id].guest_list
            }),
    {
        match self.weddings.get(wedding_id) {
            None => Err(Message::WeddingNotFound("Wedding not found".to_string())),
            Some(w) => if w.guest_list.len() == 0 {
                Err(Message::Error("No guests found for this wedding".to_string()))
            } else {
                Ok(&w.guest_list)
            },
        }
    }

    pub fn get_guest_details(&self, wedding_id: u64, guest_email: &String) -> (r: Result<&Guest, Message>)
        requires
            self.wf(),
        ensures
            ({
                let ws = self.weddings@;
                &&& r is Err <==> (!ws.contains_key(wedding_id) || !has_guest(
                    ws[wedding_id].guest_list@,
                    guest_email@,
                ))
                &&& !ws.contains_key(wedding_id) ==> r is Err && r->Err_0 is WeddingNotFound
                &&& ws.contains_key(wedding_id) && !has_guest(ws[wedding_id].guest_list@, guest_email@)
                    ==> r is Err && r->Err_0 is Error
                &&& r is Ok ==> ws[wedding_id].guest_list@.contains(*r->Ok_0)
                    && r->Ok_0.guest_email@ == guest_email@
            }),
    {
        match self.weddings.get(wedding_id) {
            None => Err(Message::WeddingNotFound("Wedding not found".to_string())),
            Some(w) => match find_guest(&w.guest_list, guest_email) {
                None => Err(Message::Error("Guest not found".to_string())),
                Some(i) => Ok(&w.guest_list[i]),
            },
        }
    }

    pub fn get_guest_rsvp_status(&self, wedding_id: u64, guest_email: &String) -> (r: Result<RsvpStatus, Message>)
        requires
            self.wf(),
        ensures
            ({
                let ws = self.weddings@;
                let gs = ws[wedding_id].guest_list@;
                &&& r is Err <==> (!ws.contains_key(wedding_id) || !has_guest(gs, guest_email@))
                &&& !ws.contains_key(wedding_id) ==> r is Err && r->Err_0 is WeddingNotFound
                &&& ws.contains_key(wedding_id) && !has_guest(gs, guest_email@) ==> r is Err
                    && r->Err_0 is Error
                &&& r is Ok ==> exists|i: int| #![trigger gs[i]]
                    0 <= i < gs.len() && gs[i].guest_email@ == guest_email@ && gs[i].rsvp_status == r->Ok_0
            }),
    {
        match self.get_guest_details(wedding_id, guest_email) {
            Err(e) => Err(e),
            Ok(g) => Ok(g.rsvp_status),
        }
    }

    /// Number of replies recorded for a wedding.
    pub fn get_guest_rsvp_count(&self, wedding_id: u64) -> (r: Result<u64, Message>)
        requires
            self.wf(),
        ensures
            r is Err <==> !self.weddings@.contains_key(wedding_id),
            r is Err ==> r->Err_0 is WeddingNotFound,
            r is Ok ==> r->Ok_0 == self.weddings@[wedding_id].guest_list@.len(),
    {
        match self.weddings.get(wedding_id) {
            None => Err(Message::WeddingNotFound("Wedding not found".to_string())),
            Some(w) => Ok(w.guest_list.len() as u64),
        }
    }

    pub fn get_task_list(&self, wedding_id: u64) -> (r: Result<&Vec<Task>, Message>)
        requires
            self.wf(),
        ensures
            ({
                let ws = self.weddings@;
                &&& r is Err <==> (!ws.contains_key(wedding_id) || ws[wedding_id].tasks@.len() == 0)
                &&& !ws.contains_key(wedding_id) ==> r is Err && r->Err_0 is WeddingNotFound
                &&& ws.contains_key(wedding_id) && ws[wedding_id].tasks@.len() == 0 ==> r is Err
                    && r->Err_0 is Error
                &&& r is Ok ==> *r->Ok_0 == ws[wedding_id].tasks
            }),
    {
        match self.weddings.get(wedding_id) {
            None => Err(Message::WeddingNotFound("Wedding not found".to_string())),
            Some(w) => if w.tasks.len() == 0 {
                Err(Message::Error("No tasks found for this wedding".to_string()))
            } else {
                Ok(&w.tasks)
            },
        }
    }

    pub fn get_task_details(&self, wedding_id: u64, task_id: u64) -> (r: Result<&Task, Message>)
        requires
            self.wf(),
        ensures
            ({
                let ws = self.weddings@;
                &&& r is Err <==> (!ws.contains_key(wedding_id) || !has_task(ws[wedding_id].tasks@, task_id))
                &&& !ws.contains_key(wedding_id) ==> r is Err && r->Err_0 is WeddingNotFound
                &&& ws.contains_key(wedding_id) && !has_task(ws[wedding_id].tasks@, task_id) ==> r is Err
                    && r->Err_0 is Error
                &&& r is Ok ==> ws[wedding_id].tasks@.contains(*r->Ok_0) && r->Ok_0.id == task_id
            }),
    {
        match self.weddings.get(wedding_id) {
            None => Err(Message::WeddingNotFound("Wedding not found".to_string())),
            Some(w) => match find_task(&w.tasks, task_id) {
                None => Err(Message::Error("Task not found".to_string())),
                Some(i) => Ok(&w.tasks[i]),
            },
        }
    }

    pub fn get_registry_items(&self, wedding_id: u64) -> (r: Result<&Vec<RegistryItem>, Message>)
        requires
            self.wf(),
        ensures
            ({
                let ws = self.weddings@;
                &&& r is Err <==> (!ws.contains_key(wedding_id) || ws[wedding_id].registry@.len() == 0)
                &&& !ws.contains_key(wedding_id) ==> r is Err && r->Err_0 is WeddingNotFound
                &&& ws.contains_key(wedding_id) && ws[wedding_id].registry@.len() == 0 ==> r is Err
                    && r->Err_0 is Error
                &&& r is Ok ==> *r->Ok_0 == ws[wedding_id].registry
            }),
    {
        match self.weddings.get(wedding_id) {
            None => Err(Message::WeddingNotFound("Wedding not found".to_string())),
            Some(w) => if w.registry.len() == 0 {
                Err(Message::Error("No registry items found for this wedding".to_string()))
            } else {
                Ok(&w.registry)
            },
        }
    }

    pub fn get_registry_item_details(&self, wedding_id: u64, item_name: &String) -> (r: Result<
        &RegistryItem,
        Message,
    >)
        requires
            self.wf(),
        ensures
            ({
                let ws = self.weddings@;
                &&& r is Err <==> (!ws.contains_key(wedding_id) || !has_item(
                    ws[wedding_id].registry@,
                    item_name@,
                ))
                &&& !ws.contains_key(wedding_id) ==> r is Err && r->Err_0 is WeddingNotFound
                &&& ws.contains_key(wedding_id) && !has_item(ws[wedding_id].registry@, item_name@) ==> r is Err
                    && r->Err_0 is Error
                &&& r is Ok ==> ws[wedding_id].registry@.contains(*r->Ok_0) && r->Ok_0.name@ == item_name@
            }),
    {
        match self.weddings.get(wedding_id) {
            None => Err(Message::WeddingNotFound("Wedding not found".to_string())),
            Some(w) => match find_item(&w.registry, item_name) {
                None => Err(Message::Error("Registry item not found".to_string())),
                Some(i) => Ok(&w.registry[i]),
            },
        }
    }
}

} // verus!
