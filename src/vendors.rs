use vstd::prelude::*;

use crate::model::{BookingStatus, Category, Message, PrincipalId, Vendor, VendorBooking, Wedding};
use crate::planner::{Planner, wedding_wf};

verus! {

/// Some booking on the list is for `vendor_id`.
pub open spec fn has_booking(bookings: Seq<VendorBooking>, vendor_id: u64) -> bool {
    exists|i: int| 0 <= i < bookings.len() && #[trigger] bookings[i].vendor_id == vendor_id
}

/// The vendor can be booked on `date`.
pub open spec fn date_offered(availability: Seq<String>, date: Seq<char>) -> bool {
    exists|i: int| 0 <= i < availability.len() && #[trigger] availability[i]@ == date
}

pub fn offers_date(availability: &Vec<String>, date: &String) -> (r: bool)
    ensures
        r == date_offered(availability@, date@),
{
    let mut i: usize = 0;
    while i < availability.len()
        invariant
            0 <= i <= availability@.len(),
            forall|j: int| 0 <= j < i ==> #[trigger] availability@[j]@ != date@,
        decreases availability@.len() - i,
    {
        if availability[i] == *date {
            return true;
        }
        i = i + 1;
    }
    false
}

/// Position of the first booking of `vendor_id` in `bookings`.
pub fn find_booking(bookings: &Vec<VendorBooking>, vendor_id: u64) -> (r: Option<usize>)
    ensures
        match r {
            Some(i) => i < bookings@.len() && bookings@[i as int].vendor_id == vendor_id
                && forall|j: int| 0 <= j < i ==> #[trigger] bookings@[j].vendor_id != vendor_id,
            None => forall|j: int| 0 <= j < bookings@.len() ==> #[trigger] bookings@[j].vendor_id != vendor_id,
        },
{
    let mut i: usize = 0;
    while i < bookings.len()
        invariant
            0 <= i <= bookings@.len(),
            forall|j: int| 0 <= j < i ==> #[trigger] bookings@[j].vendor_id != vendor_id,
        decreases bookings@.len() - i,
    {
        if bookings[i].vendor_id == vendor_id {
            return Some(i);
        }
        i = i + 1;
    }
    None
}

/// A freshly registered vendor with the given details.
pub open spec fn is_new_vendor(
    v: Vendor,
    id: u64,
    owner: PrincipalId,
    name: String,
    category: Category,
    description: String,
    service_cost: u64,
    availability: Vec<String>,
    portfolio: Vec<String>,
) -> bool {
    &&& v.id == id
    &&& v.owner == owner
    &&& v.name == name
    &&& v.category == category
    &&& v.description == description
    &&& v.service_cost == service_cost
    &&& v.availability == availability
    &&& v.rating == 0
    &&& v.reviews@.len() == 0
    &&& v.bookings@.len() == 0
    &&& !v.verified
    &&& v.portfolio == portfolio
}

impl Planner {
    /// Adds a vendor under a new identifier, owned by `owner`.
    pub fn register_vendor(
        &mut self,
        owner: PrincipalId,
        name: String,
        category: Category,
        description: String,
        service_cost: u64,
        availability: Vec<String>,
        portfolio: Vec<String>,
    ) -> (r: Result<u64, Message>)
        requires
            old(self).wf(),
            old(self).ids.can_issue(),
        ensures
            final(self).wf(),
            r is Err <==> (name@.len() == 0 || description@.len() == 0 || service_cost == 0),
            r is Err ==> r->Err_0 is InvalidInput && *final(self) == *old(self),
            r is Ok ==> {
                let id = r->Ok_0;
                &&& id == old(self).ids.peek()
                &&& final(self).ids.peek() == id + 1
                &&& !old(self).vendors@.contains_key(id)
                &&& final(self).vendors@ == old(self).vendors@.insert(id, final(self).vendors@[id])
                &&& final(self).vendors.ids() == old(self).vendors.ids().push(id)
                &&& is_new_vendor(final(self).vendors@[id], id, owner, name, category,
                    description, service_cost, availability, portfolio)
                &&& final(self).weddings == old(self).weddings
            },
    {
        if name.as_str().is_empty() || description.as_str().is_empty() || service_cost == 0 {
            return Err(Message::InvalidInput("Name, description, and service cost are required.".to_string()));
        }
        let id = self.generate_uuid();
        let vendor = Vendor {
            id,
            owner,
            name,
            category,
            description,
            service_cost,
            availability,
            rating: 0,
            reviews: Vec::new(),
            bookings: Vec::new(),
            verified: false,
            portfolio,
        };
        self.vendors.put(id, vendor);
        proof {
            let ks = self.vendors.ids();
            let oks = old(self).vendors.ids();
            assert forall|a: int, b: int| 0 <= a < b < ks.len() implies #[trigger] ks[a] < #[trigger] ks[b] by {
                if b == oks.len() {
                    assert(old(self).vendors@.contains_key(oks[a]));
                } else {
                    assert(oks[a] < oks[b]);
                }
            }
        }
        Ok(id)
    }

    /// Marks a vendor as verified; no ownership is checked.
    pub fn verify_vendor(&mut self, vendor_id: u64) -> (r: Result<(), Message>)
        requires
            old(self).wf(),
        ensures
            final(self).wf(),
            r is Err <==> !old(self).vendors@.contains_key(vendor_id),
            r is Err ==> r->Err_0 is VendorNotFound && *final(self) == *old(self),
            r is Ok ==> final(self).vendors@ == old(self).vendors@.insert(
                vendor_id,
                Vendor { verified: true, ..old(self).vendors@[vendor_id] },
            ) && final(self).vendors.ids() == old(self).vendors.ids() && final(self).weddings == old(self).weddings
                && final(self).ids == old(self).ids,
    {
        if !self.vendors.contains(vendor_id) {
            return Err(Message::VendorNotFound("Vendor not found".to_string()));
        }
        let (vpos, mut vendor) = self.vendors.checkout(vendor_id).unwrap();
        vendor.verified = true;
        self.vendors.put_back(vpos, vendor_id, vendor);
        assert(self.vendors.ids() =~= old(self).vendors.ids());
        proof {
            assert(self.vendors@ =~= old(self).vendors@.insert(vendor_id, vendor));
        }
        Ok(())
    }

    /// Replaces a vendor's availability as a whole.
    pub fn update_vendor_availability(&mut self, vendor_id: u64, new_availability: Vec<String>) -> (r:
        Result<(), Message>)
        requires
            old(self).wf(),
        ensures
            final(self).wf(),
            r is Err <==> !old(self).vendors@.contains_key(vendor_id),
            r is Err ==> r->Err_0 is VendorNotFound && *final(self) == *old(self),
            r is Ok ==> final(self).vendors@ == old(self).vendors@.insert(
                vendor_id,
                Vendor { availability: new_availability, ..old(self).vendors@[vendor_id] },
            ) && final(self).vendors.ids() == old(self).vendors.ids() && final(self).weddings == old(self).weddings
                && final(self).ids == old(self).ids,
    {
        if !self.vendors.contains(vendor_id) {
            return Err(Message::VendorNotFound("Vendor not found".to_string()));
        }
        let (vpos, mut vendor) = self.vendors.checkout(vendor_id).unwrap();
        vendor.availability = new_availability;
        self.vendors.put_back(vpos, vendor_id, vendor);
        assert(self.vendors.ids() =~= old(self).vendors.ids());
        proof {
            assert(self.vendors@ =~= old(self).vendors@.insert(vendor_id, vendor));
        }
        Ok(())
    }

    /// Books a vendor for a wedding on the wedding's date: the wedding gains a
    /// pending booking and the vendor gains a back-reference to the wedding.
    pub fn book_vendor(
        &mut self,
        vendor_id: u64,
        wedding_id: u64,
        wedding_offer: u64,
        additional_details: Option<String>,
    ) -> (r: Result<VendorBooking, Message>)
        requires
            old(self).wf(),
        ensures
            final(self).wf(),
            ({
                let vs = old(self).vendors@;
                let ws = old(self).weddings@;
                &&& r is Err <==> (!ws.contains_key(wedding_id) || !vs.contains_key(vendor_id)
                    || !date_offered(vs[vendor_id].availability@, ws[wedding_id].date@))
                &&& !ws.contains_key(wedding_id) ==> r is Err && r->Err_0 is WeddingNotFound
                &&& ws.contains_key(wedding_id) && !vs.contains_key(vendor_id) ==> r is Err
                    && r->Err_0 is VendorNotFound
                &&& ws.contains_key(wedding_id) && vs.contains_key(vendor_id) && !date_offered(
                    vs[vendor_id].availability@,
                    ws[wedding_id].date@,
                ) ==> r is Err && r->Err_0 is DateUnavailable
                &&& r is Err ==> *final(self) == *old(self)
                &&& r is Ok ==> {
                    let b = r->Ok_0;
                    let w = final(self).weddings@[wedding_id];
                    let v = final(self).vendors@[vendor_id];
                    &&& b == (VendorBooking {
                        vendor_id,
                        wedding_id,
                        wedding_offer,
                        additional_details,
                        status: BookingStatus::Pending,
                        date: ws[wedding_id].date,
                    })
                    &&& final(self).weddings@ == ws.insert(wedding_id, w)
                    &&& final(self).weddings.ids() == old(self).weddings.ids()
                    &&& final(self).vendors.ids() == old(self).vendors.ids()
                    &&& w == (Wedding { vendors: w.vendors, ..ws[wedding_id] })
                    &&& w.vendors@ == ws[wedding_id].vendors@.push(b)
                    &&& final(self).vendors@ == vs.insert(vendor_id, v)
                    &&& v == (Vendor { bookings: v.bookings, ..vs[vendor_id] })
                    &&& v.bookings@ == vs[vendor_id].bookings@.push(wedding_id)
                    &&& final(self).ids == old(self).ids
                }
            }),
    {
        let offered = match self.weddings.get(wedding_id) {
            None => {
                return Err(Message::WeddingNotFound("Wedding not found".to_string()));
            },
            Some(w) => match self.vendors.get(vendor_id) {
                None => {
                    return Err(Message::VendorNotFound("Vendor not found".to_string()));
                },
                Some(v) => offers_date(&v.availability, &w.date),
            },
        };
        if !offered {
            return Err(Message::DateUnavailable("Vendor not available on the wedding date".to_string()));
        }
        let (pos, mut wedding) = self.weddings.checkout(wedding_id).unwrap();
        let booking = VendorBooking {
            vendor_id,
            wedding_id,
            wedding_offer,
            additional_details,
            status: BookingStatus::Pending,
            date: wedding.date.clone(),
        };
        let result = booking.duplicate();
        wedding.vendors.push(booking);
        let ghost w = wedding;
        self.weddings.put_back(pos, wedding_id, wedding);
        assert(self.weddings.ids() =~= old(self).weddings.ids());
        let (vpos, mut vendor) = self.vendors.checkout(vendor_id).unwrap();
        vendor.bookings.push(wedding_id);
        let ghost v = vendor;
        self.vendors.put_back(vpos, vendor_id, vendor);
        assert(self.vendors.ids() =~= old(self).vendors.ids());
        proof {
            assert(self.weddings@ =~= old(self).weddings@.insert(wedding_id, w));
            assert(self.vendors@ =~= old(self).vendors@.insert(vendor_id, v));
            assert(wedding_wf(old(self).weddings@[wedding_id], self.ids.peek()));
        }
        Ok(result)
    }

    /// The vendor's owner confirms the vendor's bookings on a wedding: each
    /// booking of that vendor there changes its status to confirmed and keeps
    /// everything else. The first such booking, confirmed, is handed back.
    pub fn verify_vendor_booking(&mut self, vendor_id: u64, wedding_id: u64, caller: &PrincipalId) -> (r:
        Result<VendorBooking, Message>)
        requires
            old(self).wf(),
        ensures
            final(self).wf(),
            ({
                let vs = old(self).vendors@;
                let ws = old(self).weddings@;
                &&& r is Err <==> (!vs.contains_key(vendor_id) || vs[vendor_id].owner.bytes@
                    != caller.bytes@ || !ws.contains_key(wedding_id) || !has_booking(
                    ws[wedding_id].vendors@,
                    vendor_id,
                ))
                &&& !vs.contains_key(vendor_id) ==> r is Err && r->Err_0 is VendorNotFound
                &&& vs.contains_key(vendor_id) && vs[vendor_id].owner.bytes@ != caller.bytes@
                    ==> r is Err && r->Err_0 is UnauthorizedAction
                &&& vs.contains_key(vendor_id) && vs[vendor_id].owner.bytes@ == caller.bytes@
                    && !ws.contains_key(wedding_id) ==> r is Err && r->Err_0 is WeddingNotFound
                &&& vs.contains_key(vendor_id) && vs[vendor_id].owner.bytes@ == caller.bytes@
                    && ws.contains_key(wedding_id) && !has_booking(ws[wedding_id].vendors@, vendor_id)
                    ==> r is Err && r->Err_0 is Error
                &&& r is Err ==> *final(self) == *old(self)
                &&& r is Ok ==> {
                    let old_bs = ws[wedding_id].vendors@;
                    let w = final(self).weddings@[wedding_id];
                    let b = r->Ok_0;
                    &&& exists|i: int| #![trigger old_bs[i]]
                        0 <= i < old_bs.len() && old_bs[i].vendor_id == vendor_id
                        && (forall|j: int| 0 <= j < i ==> #[trigger] old_bs[j].vendor_id != vendor_id)
                        && b == (VendorBooking { status: BookingStatus::Confirmed, ..old_bs[i] })
                    &&& final(self).weddings@ == ws.insert(wedding_id, w)
                    &&& final(self).weddings.ids() == old(self).weddings.ids()
                    &&& w == (Wedding { vendors: w.vendors, ..ws[wedding_id] })
                    &&& w.vendors@.len() == old_bs.len()
                    &&& forall|j: int| 0 <= j < old_bs.len() ==> #[trigger] w.vendors@[j] == if old_bs[j].vendor_id
                        == vendor_id {
                        VendorBooking { status: BookingStatus::Confirmed, ..old_bs[j] }
                    } else {
                        old_bs[j]
                    }
                    &&& final(self).vendors == old(self).vendors
                    &&& final(self).ids == old(self).ids
                }
            }),
    {
        match self.vendors.get(vendor_id) {
            None => {
                return Err(Message::VendorNotFound("Vendor not found".to_string()));
            },
            Some(v) => {
                if !v.owner.same_as(caller) {
                    return Err(Message::UnauthorizedAction("You are not authorized to perform this action".to_string()));
                }
            },
        }
        let first = match self.weddings.get(wedding_id) {
            None => {
                return Err(Message::WeddingNotFound("Wedding not found".to_string()));
            },
            Some(w) => match find_booking(&w.vendors, vendor_id) {
                None => {
                    return Err(Message::Error("Vendor booking not found".to_string()));
                },
                Some(i) => {
                    let mut b = w.vendors[i].duplicate();
                    b.status = BookingStatus::Confirmed;
                    b
                },
            },
        };
        let (pos, mut wedding) = self.weddings.checkout(wedding_id).unwrap();
        let ghost old_bs = wedding.vendors@;
        let mut updated: Vec<VendorBooking> = Vec::new();
        let mut i: usize = 0;
        while i < wedding.vendors.len()
            invariant
                wedding.vendors@ == old_bs,
                0 <= i <= old_bs.len(),
                updated@.len() == i,
                forall|j: int| 0 <= j < i ==> #[trigger] updated@[j] == if old_bs[j].vendor_id == vendor_id {
                    VendorBooking { status: BookingStatus::Confirmed, ..old_bs[j] }
                } else {
                    old_bs[j]
                },
            decreases old_bs.len() - i,
        {
            let mut b = wedding.vendors[i].duplicate();
            if b.vendor_id == vendor_id {
                b.status = BookingStatus::Confirmed;
            }
            updated.push(b);
            i = i + 1;
        }
        wedding.vendors = updated;
        let ghost w = wedding;
        self.weddings.put_back(pos, wedding_id, wedding);
        assert(self.weddings.ids() =~= old(self).weddings.ids());
        proof {
            assert(self.weddings@ =~= old(self).weddings@.insert(wedding_id, w));
            assert(wedding_wf(old(self).weddings@[wedding_id], self.ids.peek()));
        }
        Ok(first)
    }
}

} // verus!
