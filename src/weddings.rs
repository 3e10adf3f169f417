use vstd::prelude::*;

use crate::model::{
    Guest, Message, RsvpStatus, TableAssignment, TimelineItem, TimelineStatus, VendorBooking, Wedding,
    WeddingStatus,
};
use crate::planner::{Planner, guests_wf, replaced_wedding, wedding_wf};
use crate::vendors::has_booking;

verus! {

/// The new wedding with the given details and nothing planned yet.
pub open spec fn is_new_wedding(
    w: Wedding,
    id: u64,
    couple_names: Vec<String>,
    date: String,
    budget: u64,
    location: String,
    guest_count: u64,
) -> bool {
    &&& w.id == id
    &&& w.couple_names == couple_names
    &&& w.date == date
    &&& w.budget == budget
    &&& w.location == location
    &&& w.guest_count == guest_count
    &&& w.vendors@.len() == 0
    &&& w.timeline@.len() == 0
    &&& w.tasks@.len() == 0
    &&& w.guest_list@.len() == 0
    &&& w.registry@.len() == 0
    &&& w.status == WeddingStatus::Planning
}

/// The bookings that remain once every booking of `vendor_id` is dropped.
pub open spec fn without_vendor(bookings: Seq<VendorBooking>, vendor_id: u64) -> Seq<VendorBooking> {
    bookings.filter(|b: VendorBooking| b.vendor_id != vendor_id)
}

/// Some guest on the list answers to `email`.
pub open spec fn has_guest(guests: Seq<Guest>, email: Seq<char>) -> bool {
    exists|i: int| 0 <= i < guests.len() && #[trigger] guests[i].guest_email@ == email
}

/// Seats one guest takes once confirmed: two with a plus-one, else one.
pub open spec fn seats_of(g: Guest) -> int {
    if g.rsvp_status == RsvpStatus::Confirmed {
        if g.plus_one {
            2
        } else {
            1
        }
    } else {
        0
    }
}

/// Seats taken by the confirmed guests of the list.
pub open spec fn seating_load(guests: Seq<Guest>) -> int
    decreases guests.len(),
{
    if guests.len() == 0 {
        0
    } else {
        seating_load(guests.drop_last()) + seats_of(guests.last())
    }
}

/// Some timeline item is set for `time`.
pub open spec fn has_time(items: Seq<TimelineItem>, time: Seq<char>) -> bool {
    exists|i: int| 0 <= i < items.len() && #[trigger] items[i].time@ == time
}

/// Position of the first guest that answers to `email`.
pub fn find_guest(guests: &Vec<Guest>, email: &String) -> (r: Option<usize>)
    ensures
        match r {
            Some(i) => i < guests@.len() && guests@[i as int].guest_email@ == email@
                && forall|j: int| 0 <= j < i ==> #[trigger] guests@[j].guest_email@ != email@,
            None => !has_guest(guests@, email@),
        },
{
    let mut i: usize = 0;
    while i < guests.len()
        invariant
            0 <= i <= guests@.len(),
            forall|j: int| 0 <= j < i ==> #[trigger] guests@[j].guest_email@ != email@,
        decreases guests@.len() - i,
    {
        if guests[i].guest_email == *email {
            return Some(i);
        }
        i = i + 1;
    }
    None
}

/// Seats already taken by confirmed guests.
pub fn confirmed_load(guests: &Vec<Guest>) -> (r: u128)
    ensures
        r == seating_load(guests@),
{
    let mut total: u128 = 0;
    let mut i: usize = 0;
    while i < guests.len()
        invariant
            0 <= i <= guests@.len(),
            total == seating_load(guests@.take(i as int)),
            total <= 2 * i,
        decreases guests@.len() - i,
    {
        proof {
            assert(guests@.take(i + 1).drop_last() =~= guests@.take(i as int));
        }
        if guests[i].rsvp_status == RsvpStatus::Confirmed {
            if guests[i].plus_one {
                total = total + 2;
            } else {
                total = total + 1;
            }
        }
        i = i + 1;
    }
    assert(guests@.take(i as int) =~= guests@);
    total
}

impl Planner {
    /// Adds a wedding under a new identifier, in planning. Refused only when
    /// every detail is empty or zero at once.
    pub fn create_wedding(
        &mut self,
        couple_names: Vec<String>,
        date: String,
        budget: u64,
        location: String,
        guest_count: u64,
    ) -> (r: Result<u64, Message>)
        requires
            old(self).wf(),
            old(self).ids.can_issue(),
        ensures
            final(self).wf(),
            r is Err <==> (couple_names@.len() == 0 && date@.len() == 0 && budget == 0
                && location@.len() == 0 && guest_count == 0),
            r is Err ==> r->Err_0 is InvalidInput && *final(self) == *old(self),
            r is Ok ==> {
                let id = r->Ok_0;
                &&& id == old(self).ids.peek()
                &&& final(self).ids.peek() == id + 1
                &&& !old(self).weddings@.contains_key(id)
                &&& final(self).weddings@ == old(self).weddings@.insert(id, final(self).weddings@[id])
                &&& final(self).weddings.ids() == old(self).weddings.ids().push(id)
                &&& is_new_wedding(final(self).weddings@[id], id, couple_names, date, budget,
                    location, guest_count)
                &&& final(self).vendors == old(self).vendors
            },
    {
        if couple_names.len() == 0 && date.as_str().is_empty() && budget == 0
            && location.as_str().is_empty() && guest_count == 0 {
            return Err(Message::InvalidInput("Ensure all required fields are provided.".to_string()));
        }
        let id = self.generate_uuid();
        let wedding = Wedding {
            id,
            couple_names,
            date,
            budget,
            location,
            guest_count,
            vendors: Vec::new(),
            timeline: Vec::new(),
            tasks: Vec::new(),
            guest_list: Vec::new(),
            registry: Vec::new(),
            status: WeddingStatus::Planning,
        };
        self.weddings.put(id, wedding);
        proof {
            let ks = self.weddings.ids();
            let oks = old(self).weddings.ids();
            assert forall|a: int, b: int| 0 <= a < b < ks.len() implies #[trigger] ks[a] < #[trigger] ks[b] by {
                if b == oks.len() {
                    assert(old(self).weddings@.contains_key(oks[a]));
                } else {
                    assert(oks[a] < oks[b]);
                }
            }
        }
        Ok(id)
    }

    /// Drops every booking of a vendor from a wedding. The vendor keeps its
    /// back-reference to the wedding.
    pub fn cancel_vendor_booking(&mut self, wedding_id: u64, vendor_id: u64) -> (r: Result<(), Message>)
        requires
            old(self).wf(),
        ensures
            final(self).wf(),
            ({
                let ws = old(self).weddings@;
                &&& r is Err <==> (!ws.contains_key(wedding_id) || !has_booking(
                    ws[wedding_id].vendors@,
                    vendor_id,
                ))
                &&& !ws.contains_key(wedding_id) ==> r is Err && r->Err_0 is WeddingNotFound
                &&& ws.contains_key(wedding_id) && !has_booking(ws[wedding_id].vendors@, vendor_id)
                    ==> r is Err && r->Err_0 is VendorNotFound
                &&& r is Err ==> *final(self) == *old(self)
                &&& r is Ok ==> {
                    let w = final(self).weddings@[wedding_id];
                    &&& replaced_wedding(*old(self), *final(self), wedding_id, w)
                    &&& w == (Wedding { vendors: w.vendors, ..ws[wedding_id] })
                    &&& w.vendors@ == without_vendor(ws[wedding_id].vendors@, vendor_id)
                }
            }),
    {
        match self.weddings.get(wedding_id) {
            None => {
                return Err(Message::WeddingNotFound("Wedding not found".to_string()));
            },
            Some(w) => {
                if crate::vendors::find_booking(&w.vendors, vendor_id).is_none() {
                    return Err(Message::VendorNotFound("Vendor not booked for this wedding".to_string()));
                }
            },
        }
        let (pos, mut wedding) = self.weddings.checkout(wedding_id).unwrap();
        let ghost old_bs = wedding.vendors@;
        let mut kept: Vec<VendorBooking> = Vec::new();
        let mut i: usize = 0;
        while i < wedding.vendors.len()
            invariant
                wedding.vendors@ == old_bs,
                0 <= i <= old_bs.len(),
                kept@ == without_vendor(old_bs.take(i as int), vendor_id),
            decreases old_bs.len() - i,
        {
            proof {
                assert(old_bs.take(i + 1).drop_last() =~= old_bs.take(i as int));
                reveal(Seq::filter);
            }
            if wedding.vendors[i].vendor_id != vendor_id {
                kept.push(wedding.vendors[i].duplicate());
            }
            i = i + 1;
        }
        assert(old_bs.take(i as int) =~= old_bs);
        wedding.vendors = kept;
        let ghost w = wedding;
        self.weddings.put_back(pos, wedding_id, wedding);
        assert(self.weddings.ids() =~= old(self).weddings.ids());
        proof {
            assert(self.weddings@ =~= old(self).weddings@.insert(wedding_id, w));
            assert(wedding_wf(old(self).weddings@[wedding_id], self.ids.peek()));
        }
        Ok(())
    }

    /// Records a guest's reply, pending approval and without a table. A second
    /// reply under the same email is refused.
    pub fn guest_rsvp(
        &mut self,
        wedding_id: u64,
        name: String,
        guest_email: String,
        dietary_restrictions: String,
        plus_one: bool,
    ) -> (r: Result<Guest, Message>)
        requires
            old(self).wf(),
        ensures
            final(self).wf(),
            ({
                let ws = old(self).weddings@;
                &&& r is Err <==> (!ws.contains_key(wedding_id) || has_guest(
                    ws[wedding_id].guest_list@,
                    guest_email@,
                ))
                &&& !ws.contains_key(wedding_id) ==> r is Err && r->Err_0 is WeddingNotFound
                &&& ws.contains_key(wedding_id) && has_guest(ws[wedding_id].guest_list@, guest_email@)
                    ==> r is Err && r->Err_0 is Error
                &&& r is Err ==> *final(self) == *old(self)
                &&& r is Ok ==> {
                    let w = final(self).weddings@[wedding_id];
                    let g = r->Ok_0;
                    &&& g == (Guest {
                        name,
                        guest_email,
                        rsvp_status: RsvpStatus::Pending,
                        dietary_restrictions,
                        plus_one,
                        table_assignment: TableAssignment::Unassigned,
                    })
                    &&& replaced_wedding(*old(self), *final(self), wedding_id, w)
                    &&& w == (Wedding { guest_list: w.guest_list, ..ws[wedding_id] })
                    &&& w.guest_list@ == ws[wedding_id].guest_list@.push(g)
                }
            }),
    {
        match self.weddings.get(wedding_id) {
            None => {
                return Err(Message::WeddingNotFound("Wedding not found".to_string()));
            },
            Some(w) => {
                if find_guest(&w.guest_list, &guest_email).is_some() {
                    return Err(Message::Error("Guest RSVP already submitted".to_string()));
                }
            },
        }
        let (pos, mut wedding) = self.weddings.checkout(wedding_id).unwrap();
        let guest = Guest {
            name,
            guest_email,
            rsvp_status: RsvpStatus::Pending,
            dietary_restrictions,
            plus_one,
            table_assignment: TableAssignment::Unassigned,
        };
        let result = guest.duplicate();
        wedding.guest_list.push(guest);
        let ghost w = wedding;
        self.weddings.put_back(pos, wedding_id, wedding);
        assert(self.weddings.ids() =~= old(self).weddings.ids());
        proof {
            assert(self.weddings@ =~= old(self).weddings@.insert(wedding_id, w));
            let old_gs = old(self).weddings@[wedding_id].guest_list@;
            assert(wedding_wf(old(self).weddings@[wedding_id], self.ids.peek()));
            assert forall|a: int, b: int|
                0 <= a < w.guest_list@.len() && 0 <= b < w.guest_list@.len() && a != b implies
                #[trigger] w.guest_list@[a].guest_email@ != #[trigger] w.guest_list@[b].guest_email@ by {
                if a == old_gs.len() {
                    assert(old_gs[b].guest_email@ != result.guest_email@);
                } else if b == old_gs.len() {
                    assert(old_gs[a].guest_email@ != result.guest_email@);
                }
            }
        }
        Ok(result)
    }

    /// Approves a guest's reply and seats the guest, provided the confirmed
    /// guests do not already fill every seat. The guest being approved is not
    /// counted against the capacity.
    pub fn approve_rsvp(&mut self, wedding_id: u64, guest_email: String, table_assignment: TableAssignment) -> (r:
        Result<Guest, Message>)
        requires
            old(self).wf(),
        ensures
            final(self).wf(),
            ({
                let ws = old(self).weddings@;
                let full = seating_load(ws[wedding_id].guest_list@) >= ws[wedding_id].guest_count;
                &&& r is Err <==> (!ws.contains_key(wedding_id) || full || !has_guest(
                    ws[wedding_id].guest_list@,
                    guest_email@,
                ))
                &&& !ws.contains_key(wedding_id) ==> r is Err && r->Err_0 is WeddingNotFound
                &&& ws.contains_key(wedding_id) && full ==> r is Err && r->Err_0 is BudgetExceeded
                &&& ws.contains_key(wedding_id) && !full && !has_guest(
                    ws[wedding_id].guest_list@,
                    guest_email@,
                ) ==> r is Err && r->Err_0 is Error
                &&& r is Err ==> *final(self) == *old(self)
                &&& r is Ok ==> {
                    let old_gs = ws[wedding_id].guest_list@;
                    let w = final(self).weddings@[wedding_id];
                    let g = r->Ok_0;
                    &&& exists|i: int| #![trigger old_gs[i]]
                        0 <= i < old_gs.len() && old_gs[i].guest_email@ == guest_email@
                        && g == (Guest {
                        rsvp_status: RsvpStatus::Confirmed,
                        table_assignment,
                        ..old_gs[i]
                    }) && w.guest_list@ == old_gs.update(i, g)
                    &&& replaced_wedding(*old(self), *final(self), wedding_id, w)
                    &&& w == (Wedding { guest_list: w.guest_list, ..ws[wedding_id] })
                }
            }),
    {
        let idx = match self.weddings.get(wedding_id) {
            None => {
                return Err(Message::WeddingNotFound("Wedding not found".to_string()));
            },
            Some(w) => {
                let load = confirmed_load(&w.guest_list);
                if load >= w.guest_count as u128 {
                    return Err(Message::BudgetExceeded("Available seats exceeded the wedding limit.".to_string()));
                }
                match find_guest(&w.guest_list, &guest_email) {
                    None => {
                        return Err(Message::Error("Guest not found in the RSVP list.".to_string()));
                    },
                    Some(i) => i,
                }
            },
        };
        let (pos, mut wedding) = self.weddings.checkout(wedding_id).unwrap();
        let mut guest = wedding.guest_list.remove(idx);
        guest.rsvp_status = RsvpStatus::Confirmed;
        guest.table_assignment = table_assignment;
        let result = guest.duplicate();
        wedding.guest_list.insert(idx, guest);
        let ghost w = wedding;
        self.weddings.put_back(pos, wedding_id, wedding);
        assert(self.weddings.ids() =~= old(self).weddings.ids());
        proof {
            let old_gs = old(self).weddings@[wedding_id].guest_list@;
            assert(w.guest_list@ =~= old_gs.update(idx as int, result));
            assert(self.weddings@ =~= old(self).weddings@.insert(wedding_id, w));
            assert(wedding_wf(old(self).weddings@[wedding_id], self.ids.peek()));
            assert forall|a: int, b: int|
                0 <= a < w.guest_list@.len() && 0 <= b < w.guest_list@.len() && a != b implies
                #[trigger] w.guest_list@[a].guest_email@ != #[trigger] w.guest_list@[b].guest_email@ by {
                assert(old_gs[a].guest_email@ != old_gs[b].guest_email@);
            }
        }
        Ok(result)
    }

    /// Adds an item to a wedding's timeline.
    pub fn add_timeline_item(
        &mut self,
        wedding_id: u64,
        time: String,
        description: String,
        responsible: String,
        status: TimelineStatus,
    ) -> (r: Result<TimelineItem, Message>)
        requires
            old(self).wf(),
        ensures
            final(self).wf(),
            ({
                let ws = old(self).weddings@;
                &&& r is Err <==> !ws.contains_key(wedding_id)
                &&& r is Err ==> r->Err_0 is WeddingNotFound && *final(self) == *old(self)
                &&& r is Ok ==> {
                    let w = final(self).weddings@[wedding_id];
                    let t = r->Ok_0;
                    &&& t == (TimelineItem { wedding_id, time, description, responsible, status })
                    &&& replaced_wedding(*old(self), *final(self), wedding_id, w)
                    &&& w == (Wedding { timeline: w.timeline, ..ws[wedding_id] })
                    &&& w.timeline@ == ws[wedding_id].timeline@.push(t)
                }
            }),
    {
        if !self.weddings.contains(wedding_id) {
            return Err(Message::WeddingNotFound("Wedding not found".to_string()));
        }
        let (pos, mut wedding) = self.weddings.checkout(wedding_id).unwrap();
        let item = TimelineItem { wedding_id, time, description, responsible, status };
        let result = item.duplicate();
        wedding.timeline.push(item);
        let ghost w = wedding;
        self.weddings.put_back(pos, wedding_id, wedding);
        assert(self.weddings.ids() =~= old(self).weddings.ids());
        proof {
            assert(self.weddings@ =~= old(self).weddings@.insert(wedding_id, w));
            assert(wedding_wf(old(self).weddings@[wedding_id], self.ids.peek()));
        }
        Ok(result)
    }

    /// Marks every timeline item set for `time` as completed.
    pub fn mark_timeline_item_completed(&mut self, wedding_id: u64, time: String) -> (r: Result<(), Message>)
        requires
            old(self).wf(),
        ensures
            final(self).wf(),
            ({
                let ws = old(self).weddings@;
                &&& r is Err <==> (!ws.contains_key(wedding_id) || !has_time(
                    ws[wedding_id].timeline@,
                    time@,
                ))
                &&& !ws.contains_key(wedding_id) ==> r is Err && r->Err_0 is WeddingNotFound
                &&& ws.contains_key(wedding_id) && !has_time(ws[wedding_id].timeline@, time@) ==> r is Err
                    && r->Err_0 is Error
                &&& r is Err ==> *final(self) == *old(self)
                &&& r is Ok ==> {
                    let old_ts = ws[wedding_id].timeline@;
                    let w = final(self).weddings@[wedding_id];
                    &&& replaced_wedding(*old(self), *final(self), wedding_id, w)
                    &&& w == (Wedding { timeline: w.timeline, ..ws[wedding_id] })
                    &&& w.timeline@.len() == old_ts.len()
                    &&& forall|j: int| 0 <= j < old_ts.len() ==> #[trigger] w.timeline@[j] == if old_ts[j].time@
                        == time@ {
                        TimelineItem { status: TimelineStatus::Completed, ..old_ts[j] }
                    } else {
                        old_ts[j]
                    }
                }
            }),
    {
        let ghost old_ts = self.weddings@[wedding_id].timeline@;
        let updated = match self.weddings.get(wedding_id) {
            None => {
                return Err(Message::WeddingNotFound("Wedding not found".to_string()));
            },
            Some(wedding) => {
                let mut updated: Vec<TimelineItem> = Vec::new();
                let mut found = false;
                let mut i: usize = 0;
                while i < wedding.timeline.len()
                    invariant
                        wedding.timeline@ == old_ts,
                        0 <= i <= old_ts.len(),
                        updated@.len() == i,
                        found == exists|j: int| 0 <= j < i && #[trigger] old_ts[j].time@ == time@,
                        forall|j: int| 0 <= j < i ==> #[trigger] updated@[j] == if old_ts[j].time@ == time@ {
                            TimelineItem { status: TimelineStatus::Completed, ..old_ts[j] }
                        } else {
                            old_ts[j]
                        },
                    decreases old_ts.len() - i,
                {
                    let mut item = wedding.timeline[i].duplicate();
                    if item.time == time {
                        item.status = TimelineStatus::Completed;
                        found = true;
                    }
                    updated.push(item);
                    i = i + 1;
                }
                if !found {
                    return Err(Message::Error("No timeline item found at that time".to_string()));
                }
                updated
            },
        };
        let (pos, mut wedding) = self.weddings.checkout(wedding_id).unwrap();
        wedding.timeline = updated;
        let ghost w = wedding;
        self.weddings.put_back(pos, wedding_id, wedding);
        assert(self.weddings.ids() =~= old(self).weddings.ids());
        proof {
            assert(self.weddings@ =~= old(self).weddings@.insert(wedding_id, w));
            assert(wedding_wf(old(self).weddings@[wedding_id], self.ids.peek()));
        }
        Ok(())
    }
}

} // verus!
