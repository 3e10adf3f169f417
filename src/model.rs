use vstd::prelude::*;

verus! {

/// The kind of service a vendor offers.
#[derive(Clone, Copy, Debug, PartialEq, Eq, Structural)]
pub enum Category {
    Venue,
    Catering,
    Photography,
    Music,
    Decor,
    Planning,
    Attire,
    Beauty,
    Transport,
    Stationery,
    Cake,
    Favors,
    Other,
}

/// Where an approved guest is seated.
#[derive(Clone, Copy, Debug, PartialEq, Eq, Structural)]
pub enum TableAssignment {
    VIPTable,
    FamilyTable,
    Table(u8),
    Unassigned,
}

#[derive(Clone, Copy, Debug, PartialEq, Eq, Structural)]
pub enum BookingStatus {
    Pending,
    Confirmed,
    Rejected,
    Paid,
}

#[derive(Clone, Copy, Debug, PartialEq, Eq, Structural)]
pub enum RsvpStatus {
    Pending,
    Confirmed,
    Declined,
}

#[derive(Clone, Copy, Debug, PartialEq, Eq, Structural)]
pub enum TaskStatus {
    Pending,
    InProgress,
    Completed,
}

#[derive(Clone, Copy, Debug, PartialEq, Eq, Structural)]
pub enum RegistryStatus {
    Available,
    Purchased,
}

#[derive(Clone, Copy, Debug, PartialEq, Eq, Structural)]
pub enum TimelineStatus {
    Pending,
    Completed,
    Overdue,
}

#[derive(Clone, Copy, Debug, PartialEq, Eq, Structural)]
pub enum WeddingStatus {
    Planning,
    Upcoming,
    Completed,
}

/// An authenticated caller, held as the raw bytes of its principal.
/// Principals are only ever compared for equality.
#[derive(Clone, Debug)]
pub struct PrincipalId {
    pub bytes: Vec<u8>,
}

impl PrincipalId {
    pub fn same_as(&self, other: &PrincipalId) -> (r: bool)
        ensures
            r == (self.bytes@ == other.bytes@),
    {
        if self.bytes.len() != other.bytes.len() {
            return false;
        }
        let mut i: usize = 0;
        while i < self.bytes.len()
            invariant
                self.bytes@.len() == other.bytes@.len(),
                0 <= i <= self.bytes@.len(),
                forall|j: int| 0 <= j < i ==> self.bytes@[j] == other.bytes@[j],
            decreases self.bytes@.len() - i,
        {
            if self.bytes[i] != other.bytes[i] {
                return false;
            }
            i = i + 1;
        }
        assert(self.bytes@ =~= other.bytes@);
        true
    }
}

#[derive(Clone, Debug)]
pub struct Review {
    pub author: PrincipalId,
    pub rating: u64,
    pub comment: String,
    pub date: String,
}

#[derive(Clone, Debug)]
pub struct Vendor {
    pub id: u64,
    pub owner: PrincipalId,
    pub name: String,
    pub category: Category,
    pub description: String,
    pub service_cost: u64,
    pub availability: Vec<String>,
    pub rating: u64,
    pub reviews: Vec<Review>,
    /// Weddings this vendor was booked for; never pruned on cancellation.
    pub bookings: Vec<u64>,
    pub verified: bool,
    pub portfolio: Vec<String>,
}

#[derive(Clone, Debug)]
pub struct VendorBooking {
    pub vendor_id: u64,
    pub wedding_id: u64,
    pub wedding_offer: u64,
    pub additional_details: Option<String>,
    pub status: BookingStatus,
    pub date: String,
}

#[derive(Clone, Debug)]
pub struct TimelineItem {
    pub wedding_id: u64,
    pub time: String,
    pub description: String,
    pub responsible: String,
    pub status: TimelineStatus,
}

#[derive(Clone, Debug)]
pub struct Task {
    pub id: u64,
    pub title: String,
    pub description: String,
    pub deadline: String,
    pub assigned_to: String,
    pub status: TaskStatus,
    pub budget: u64,
}

#[derive(Clone, Debug)]
pub struct Guest {
    pub name: String,
    pub guest_email: String,
    pub rsvp_status: RsvpStatus,
    pub dietary_restrictions: String,
    pub plus_one: bool,
    pub table_assignment: TableAssignment,
}

#[derive(Clone, Debug)]
pub struct RegistryItem {
    pub name: String,
    pub description: String,
    pub price: u64,
    pub status: RegistryStatus,
    pub purchased_by: String,
}

#[derive(Clone, Debug)]
pub struct Wedding {
    pub id: u64,
    pub couple_names: Vec<String>,
    pub date: String,
    pub budget: u64,
    pub location: String,
    /// Seating capacity; a plus-one takes a seat of its own.
    pub guest_count: u64,
    pub vendors: Vec<VendorBooking>,
    pub timeline: Vec<TimelineItem>,
    pub tasks: Vec<Task>,
    pub guest_list: Vec<Guest>,
    pub registry: Vec<RegistryItem>,
    pub status: WeddingStatus,
}

/// Outcome of an operation: the success companion and every kind of failure,
/// each with a readable detail.
#[derive(Clone, Debug)]
pub enum Message {
    Success(String),
    Error(String),
    InvalidInput(String),
    VendorNotFound(String),
    WeddingNotFound(String),
    NoTimeLineItemsFound(String),
    DateUnavailable(String),
    UnauthorizedAction(String),
    BudgetExceeded(String),
    InvalidDate(String),
}

impl Message {
    /// The readable detail carried by any variant.
    pub fn detail(&self) -> (r: &String)
        ensures
            *r == match *self {
                Message::Success(s) => s,
                Message::Error(s) => s,
                Message::InvalidInput(s) => s,
                Message::VendorNotFound(s) => s,
                Message::WeddingNotFound(s) => s,
                Message::NoTimeLineItemsFound(s) => s,
                Message::DateUnavailable(s) => s,
                Message::UnauthorizedAction(s) => s,
                Message::BudgetExceeded(s) => s,
                Message::InvalidDate(s) => s,
            },
    {
        match self {
            Message::Success(s) => s,
            Message::Error(s) => s,
            Message::InvalidInput(s) => s,
            Message::VendorNotFound(s) => s,
            Message::WeddingNotFound(s) => s,
            Message::NoTimeLineItemsFound(s) => s,
            Message::DateUnavailable(s) => s,
            Message::UnauthorizedAction(s) => s,
            Message::BudgetExceeded(s) => s,
            Message::InvalidDate(s) => s,
        }
    }
}

impl VendorBooking {
    pub fn duplicate(&self) -> (r: VendorBooking)
        ensures
            r == *self,
    {
        let details = match &self.additional_details {
            Some(d) => Some(d.clone()),
            None => None,
        };
        VendorBooking {
            vendor_id: self.vendor_id,
            wedding_id: self.wedding_id,
            wedding_offer: self.wedding_offer,
            additional_details: details,
            status: self.status,
            date: self.date.clone(),
        }
    }
}

impl TimelineItem {
    pub fn duplicate(&self) -> (r: TimelineItem)
        ensures
            r == *self,
    {
        TimelineItem {
            wedding_id: self.wedding_id,
            time: self.time.clone(),
            description: self.description.clone(),
            responsible: self.responsible.clone(),
            status: self.status,
        }
    }
}

impl Task {
    pub fn duplicate(&self) -> (r: Task)
        ensures
            r == *self,
    {
        Task {
            id: self.id,
            title: self.title.clone(),
            description: self.description.clone(),
            deadline: self.deadline.clone(),
            assigned_to: self.assigned_to.clone(),
            status: self.status,
            budget: self.budget,
        }
    }
}

impl Guest {
    pub fn duplicate(&self) -> (r: Guest)
        ensures
            r == *self,
    {
        Guest {
            name: self.name.clone(),
            guest_email: self.guest_email.clone(),
            rsvp_status: self.rsvp_status,
            dietary_restrictions: self.dietary_restrictions.clone(),
            plus_one: self.plus_one,
            table_assignment: self.table_assignment,
        }
    }
}

impl RegistryItem {
    pub fn duplicate(&self) -> (r: RegistryItem)
        ensures
            r == *self,
    {
        RegistryItem {
            name: self.name.clone(),
            description: self.description.clone(),
            price: self.price,
            status: self.status,
            purchased_by: self.purchased_by.clone(),
        }
    }
}

} // verus!
