use wedding_planner::ids::IdGenerator;
use wedding_planner::model::{
    BookingStatus, Category, Message, PrincipalId, RegistryStatus, RsvpStatus, TableAssignment, TaskStatus,
    TimelineStatus, WeddingStatus,
};
use wedding_planner::planner::Planner;
use wedding_planner::store::Store;

fn alice() -> PrincipalId {
    PrincipalId { bytes: vec![1, 2, 3] }
}

fn bob() -> PrincipalId {
    PrincipalId { bytes: vec![9, 9] }
}

fn s(x: &str) -> String {
    x.to_string()
}

fn vendor(p: &mut Planner, category: Category, dates: &[&str]) -> u64 {
    p.register_vendor(
        alice(),
        s("Blooms"),
        category,
        s("Flowers for every table"),
        500,
        dates.iter().map(|d| s(d)).collect(),
        vec![s("photo1.png")],
    )
    .unwrap()
}

fn wedding(p: &mut Planner, date: &str, guest_count: u64) -> u64 {
    p.create_wedding(vec![s("Ann"), s("Ben")], s(date), 10_000, s("Lisbon"), guest_count).unwrap()
}

#[test]
fn ids_strictly_increase() {
    let mut g = IdGenerator::new();
    let a = g.next_id();
    let b = g.next_id();
    let c = g.next_id();
    assert_eq!((a, b, c), (0, 1, 2));
    let mut p = Planner::new();
    let v = vendor(&mut p, Category::Decor, &["2025-06-01"]);
    let w = wedding(&mut p, "2025-06-01", 10);
    let t = p.add_task(w, s("Cake"), s("Order"), s("May"), s("Ann"), 50).unwrap();
    assert!(v < w && w < t.id);
}

#[test]
fn store_round_trip() {
    let mut st: Store<String> = Store::new();
    st.put(7, s("seven"));
    assert_eq!(st.get(7), Some(&s("seven")));
    st.put(7, s("SEVEN"));
    assert_eq!(st.get(7), Some(&s("SEVEN")));
    assert_eq!(st.len(), 1);
    assert_eq!(st.get(8), None);
    assert_eq!(st.take(7), Some(s("SEVEN")));
    assert_eq!(st.len(), 0);
}

#[test]
fn register_vendor_rejects_missing_details() {
    let mut p = Planner::new();
    let r = p.register_vendor(alice(), s(""), Category::Music, s("Band"), 10, vec![], vec![]);
    assert!(matches!(r, Err(Message::InvalidInput(_))));
    let r = p.register_vendor(alice(), s("Band"), Category::Music, s("Live"), 0, vec![], vec![]);
    assert!(matches!(r, Err(Message::InvalidInput(_))));
    assert_eq!(p.vendors.len(), 0);
    let id = p.register_vendor(alice(), s("Band"), Category::Music, s("Live"), 10, vec![], vec![]).unwrap();
    let v = p.get_vendor_details(id).unwrap();
    assert_eq!(v.rating, 0);
    assert!(!v.verified);
    assert!(v.bookings.is_empty() && v.reviews.is_empty());
}

#[test]
fn create_wedding_rejects_only_all_empty() {
    let mut p = Planner::new();
    let r = p.create_wedding(vec![], s(""), 0, s(""), 0);
    assert!(matches!(r, Err(Message::InvalidInput(_))));
    let id = p.create_wedding(vec![], s(""), 0, s("Porto"), 0).unwrap();
    let w = p.get_wedding_details(id).unwrap();
    assert_eq!(w.status, WeddingStatus::Planning);
    assert!(w.tasks.is_empty() && w.guest_list.is_empty() && w.registry.is_empty());
}

#[test]
fn book_vendor_on_available_date() {
    let mut p = Planner::new();
    let v = vendor(&mut p, Category::Decor, &["2025-05-01", "2025-06-01"]);
    let w = wedding(&mut p, "2025-06-01", 10);
    let b = p.book_vendor(v, w, 400, Some(s("white roses"))).unwrap();
    assert_eq!(b.status, BookingStatus::Pending);
    assert_eq!(b.date, s("2025-06-01"));
    assert_eq!(b.wedding_offer, 400);
    assert_eq!(p.get_wedding_details(w).unwrap().vendors.len(), 1);
    assert_eq!(p.get_vendor_details(v).unwrap().bookings, vec![w]);
}

#[test]
fn book_vendor_failures_leave_records_unchanged() {
    let mut p = Planner::new();
    let v = vendor(&mut p, Category::Decor, &["2025-05-01"]);
    let w = wedding(&mut p, "2025-06-01", 10);
    assert!(matches!(p.book_vendor(v, 999, 1, None), Err(Message::WeddingNotFound(_))));
    assert!(matches!(p.book_vendor(999, w, 1, None), Err(Message::VendorNotFound(_))));
    assert!(matches!(p.book_vendor(v, w, 1, None), Err(Message::DateUnavailable(_))));
    assert!(p.get_wedding_details(w).unwrap().vendors.is_empty());
    assert!(p.get_vendor_details(v).unwrap().bookings.is_empty());
}

#[test]
fn booking_confirmation_is_owner_gated() {
    let mut p = Planner::new();
    let v = vendor(&mut p, Category::Venue, &["2025-06-01"]);
    let w = wedding(&mut p, "2025-06-01", 10);
    let other = wedding(&mut p, "2025-06-01", 10);
    p.book_vendor(v, w, 100, None).unwrap();
    assert!(matches!(p.verify_vendor_booking(v, w, &bob()), Err(Message::UnauthorizedAction(_))));
    assert!(matches!(p.verify_vendor_booking(999, w, &alice()), Err(Message::VendorNotFound(_))));
    assert!(matches!(p.verify_vendor_booking(v, 999, &alice()), Err(Message::WeddingNotFound(_))));
    assert!(matches!(p.verify_vendor_booking(v, other, &alice()), Err(Message::Error(_))));
    let b = p.verify_vendor_booking(v, w, &alice()).unwrap();
    assert_eq!(b.status, BookingStatus::Confirmed);
    assert_eq!(p.get_wedding_details(w).unwrap().vendors[0].status, BookingStatus::Confirmed);
}

#[test]
fn verify_vendor_needs_no_owner() {
    let mut p = Planner::new();
    let v = vendor(&mut p, Category::Cake, &[]);
    assert!(matches!(p.verify_vendor(v + 100), Err(Message::VendorNotFound(_))));
    p.verify_vendor(v).unwrap();
    assert!(p.get_vendor_details(v).unwrap().verified);
}

#[test]
fn availability_is_replaced_whole() {
    let mut p = Planner::new();
    let v = vendor(&mut p, Category::Cake, &["a", "b"]);
    p.update_vendor_availability(v, vec![s("c")]).unwrap();
    assert_eq!(p.get_vendor_details(v).unwrap().availability, vec![s("c")]);
    assert!(matches!(p.update_vendor_availability(77, vec![]), Err(Message::VendorNotFound(_))));
}

#[test]
fn cancel_booking_keeps_back_reference() {
    let mut p = Planner::new();
    let v = vendor(&mut p, Category::Music, &["d"]);
    let v2 = vendor(&mut p, Category::Music, &["d"]);
    let w = wedding(&mut p, "d", 10);
    p.book_vendor(v, w, 1, None).unwrap();
    p.book_vendor(v2, w, 2, None).unwrap();
    p.book_vendor(v, w, 3, None).unwrap();
    p.cancel_vendor_booking(w, v).unwrap();
    let bs = &p.get_wedding_details(w).unwrap().vendors;
    assert_eq!(bs.len(), 1);
    assert_eq!(bs[0].vendor_id, v2);
    assert_eq!(p.get_vendor_details(v).unwrap().bookings, vec![w, w]);
    assert!(matches!(p.cancel_vendor_booking(w, v), Err(Message::VendorNotFound(_))));
    assert!(matches!(p.cancel_vendor_booking(999, v), Err(Message::WeddingNotFound(_))));
}

fn rsvp(p: &mut Planner, w: u64, email: &str, plus_one: bool) {
    p.guest_rsvp(w, s("Guest"), s(email), s("none"), plus_one).unwrap();
}

fn confirmed_seats(p: &Planner, w: u64) -> u64 {
    p.get_guest_list(w)
        .unwrap()
        .iter()
        .filter(|g| g.rsvp_status == RsvpStatus::Confirmed)
        .map(|g| if g.plus_one { 2 } else { 1 })
        .sum()
}

fn nine_confirmed_solo(p: &mut Planner) -> u64 {
    let w = wedding(p, "2025-06-01", 10);
    for i in 0..9 {
        let email = format!("g{}@x.org", i);
        rsvp(p, w, &email, false);
        p.approve_rsvp(w, email, TableAssignment::Table(1)).unwrap();
    }
    w
}

#[test]
fn capacity_counts_plus_ones_twice() {
    let mut p = Planner::new();
    let w = nine_confirmed_solo(&mut p);
    assert_eq!(confirmed_seats(&p, w), 9);
    rsvp(&mut p, w, "pair@x.org", true);
    rsvp(&mut p, w, "solo@x.org", false);
    let g = p.approve_rsvp(w, s("solo@x.org"), TableAssignment::FamilyTable).unwrap();
    assert_eq!(g.rsvp_status, RsvpStatus::Confirmed);
    assert_eq!(g.table_assignment, TableAssignment::FamilyTable);
    assert_eq!(confirmed_seats(&p, w), 10);
    let r = p.approve_rsvp(w, s("pair@x.org"), TableAssignment::VIPTable);
    assert!(matches!(r, Err(Message::BudgetExceeded(_))));
    assert_eq!(confirmed_seats(&p, w), 10);
}

#[test]
fn capacity_is_checked_before_the_approved_guest_counts() {
    let mut p = Planner::new();
    let w = nine_confirmed_solo(&mut p);
    rsvp(&mut p, w, "pair@x.org", true);
    p.approve_rsvp(w, s("pair@x.org"), TableAssignment::VIPTable).unwrap();
    assert_eq!(confirmed_seats(&p, w), 11);
}

#[test]
fn approve_unknown_guest_fails() {
    let mut p = Planner::new();
    let w = wedding(&mut p, "d", 3);
    assert!(matches!(p.approve_rsvp(w, s("nobody"), TableAssignment::Unassigned), Err(Message::Error(_))));
    assert!(matches!(p.approve_rsvp(99, s("nobody"), TableAssignment::Unassigned), Err(Message::WeddingNotFound(_))));
}

#[test]
fn duplicate_rsvp_is_refused() {
    let mut p = Planner::new();
    let w = wedding(&mut p, "d", 10);
    let g = p.guest_rsvp(w, s("Cy"), s("cy@x.org"), s("vegan"), true).unwrap();
    assert_eq!(g.rsvp_status, RsvpStatus::Pending);
    assert_eq!(g.table_assignment, TableAssignment::Unassigned);
    let r = p.guest_rsvp(w, s("Cy again"), s("cy@x.org"), s(""), false);
    assert!(matches!(r, Err(Message::Error(_))));
    assert_eq!(p.get_guest_rsvp_count(w).unwrap(), 1);
    assert_eq!(p.get_guest_rsvp_status(w, &s("cy@x.org")).unwrap(), RsvpStatus::Pending);
    assert_eq!(p.get_guest_details(w, &s("cy@x.org")).unwrap().dietary_restrictions, s("vegan"));
    assert!(matches!(p.get_guest_details(w, &s("zz")), Err(Message::Error(_))));
}

#[test]
fn registry_names_are_unique_and_delete_is_exact() {
    let mut p = Planner::new();
    let w = wedding(&mut p, "d", 10);
    let it = p.add_registry_item(w, s("Toaster"), s("Chrome"), 40).unwrap();
    assert_eq!(it.status, RegistryStatus::Available);
    assert_eq!(it.purchased_by, s(""));
    assert!(matches!(p.add_registry_item(w, s("Toaster"), s("Red"), 30), Err(Message::Error(_))));
    p.add_registry_item(w, s("Kettle"), s("Steel"), 25).unwrap();
    p.add_registry_item(w, s("Vase"), s("Glass"), 15).unwrap();
    let upd = p.update_registry_item_status(w, s("Kettle"), RegistryStatus::Purchased, s("Dee")).unwrap();
    assert_eq!((upd.status, upd.purchased_by.as_str(), upd.price), (RegistryStatus::Purchased, "Dee", 25));
    let gone = p.delete_registry_item(w, s("Toaster")).unwrap();
    assert_eq!(gone.description, s("Chrome"));
    let names: Vec<String> = p.get_registry_items(w).unwrap().iter().map(|i| i.name.clone()).collect();
    assert_eq!(names, vec![s("Kettle"), s("Vase")]);
    assert!(matches!(p.get_registry_item_details(w, &s("Toaster")), Err(Message::Error(_))));
    assert_eq!(p.get_registry_item_details(w, &s("Vase")).unwrap().price, 15);
    assert!(matches!(p.delete_registry_item(w, s("Toaster")), Err(Message::Error(_))));
}

#[test]
fn task_lifecycle() {
    let mut p = Planner::new();
    let w = wedding(&mut p, "d", 10);
    assert!(matches!(p.get_task_list(w), Err(Message::Error(_))));
    let t1 = p.add_task(w, s("Venue"), s("Sign"), s("Jan"), s("Ann"), 900).unwrap();
    let t2 = p.add_task(w, s("Music"), s("Pick"), s("Feb"), s("Ben"), 300).unwrap();
    assert_ne!(t1.id, t2.id);
    assert_eq!(t1.status, TaskStatus::Pending);
    let u = p.update_task_status(w, t1.id, TaskStatus::InProgress).unwrap();
    assert_eq!(u.status, TaskStatus::InProgress);
    assert_eq!((u.title.as_str(), u.description.as_str(), u.deadline.as_str()), ("Venue", "Sign", "Jan"));
    assert_eq!((u.assigned_to.as_str(), u.budget), ("Ann", 900));
    assert_eq!(p.get_task_details(w, t1.id).unwrap().status, TaskStatus::InProgress);
    let before = p.get_task_list(w).unwrap().len();
    assert!(matches!(p.delete_task(w, 12345), Err(Message::Error(_))));
    assert_eq!(p.get_task_list(w).unwrap().len(), before);
    let d = p.delete_task(w, t2.id).unwrap();
    assert_eq!(d.title, s("Music"));
    assert_eq!(p.get_task_list(w).unwrap().len(), 1);
    assert!(matches!(p.update_task_status(w, t2.id, TaskStatus::Completed), Err(Message::Error(_))));
    assert!(matches!(p.add_task(77, s(""), s(""), s(""), s(""), 0), Err(Message::WeddingNotFound(_))));
}

#[test]
fn timeline_marks_every_match() {
    let mut p = Planner::new();
    let w = wedding(&mut p, "d", 10);
    assert!(matches!(p.get_wedding_timeline(w), Err(Message::NoTimeLineItemsFound(_))));
    p.add_timeline_item(w, s("10:00"), s("Vows"), s("Ann"), TimelineStatus::Pending).unwrap();
    p.add_timeline_item(w, s("12:00"), s("Lunch"), s("Ben"), TimelineStatus::Pending).unwrap();
    p.add_timeline_item(w, s("10:00"), s("Photos"), s("Cy"), TimelineStatus::Overdue).unwrap();
    p.mark_timeline_item_completed(w, s("10:00")).unwrap();
    let st: Vec<TimelineStatus> = p.get_wedding_timeline(w).unwrap().iter().map(|t| t.status).collect();
    assert_eq!(st, vec![TimelineStatus::Completed, TimelineStatus::Pending, TimelineStatus::Completed]);
    assert!(matches!(p.mark_timeline_item_completed(w, s("23:00")), Err(Message::Error(_))));
}

#[test]
fn scans_count_every_registration() {
    let mut p = Planner::new();
    assert!(matches!(p.get_all_vendors(), Err(Message::VendorNotFound(_))));
    assert!(matches!(p.get_all_weddings(), Err(Message::WeddingNotFound(_))));
    for _ in 0..4 {
        vendor(&mut p, Category::Photography, &[]);
    }
    vendor(&mut p, Category::Beauty, &[]);
    for _ in 0..3 {
        wedding(&mut p, "2025-07-07", 5);
    }
    let mut ids = p.vendors.scan();
    assert_eq!(ids.len(), 5);
    ids.sort();
    ids.dedup();
    assert_eq!(ids.len(), 5);
    assert_eq!(p.get_all_vendors().unwrap().len(), 5);
    assert_eq!(p.get_all_weddings().unwrap().len(), 3);
    assert_eq!(p.weddings.scan().len(), 3);
    assert_eq!(p.search_vendors_by_category(Category::Photography).unwrap().len(), 4);
    assert!(matches!(p.search_vendors_by_category(Category::Transport), Err(Message::VendorNotFound(_))));
    assert_eq!(p.search_weddings_by_date(&s("2025-07-07")).unwrap().len(), 3);
    assert!(matches!(p.search_weddings_by_date(&s("1999-01-01")), Err(Message::WeddingNotFound(_))));
}

#[test]
fn messages_carry_details() {
    let m = Message::Success(s("ok"));
    assert_eq!(m.detail(), &s("ok"));
    assert!(PrincipalId { bytes: vec![1, 2] }.same_as(&PrincipalId { bytes: vec![1, 2] }));
    assert!(!alice().same_as(&bob()));
}

#[test]
fn restore_rebuilds_valid_records() {
    let mut p = Planner::new();
    let v = vendor(&mut p, Category::Attire, &["d"]);
    let w = wedding(&mut p, "d", 4);
    p.add_task(w, s("Suit"), s("Fit"), s("Mar"), s("Ben"), 200).unwrap();
    rsvp(&mut p, w, "a@x.org", false);
    let next = p.ids.upcoming();
    assert_eq!(next, 3);
    let vendors = vec![p.vendors.get(v).unwrap().clone()];
    let weddings = vec![p.weddings.get(w).unwrap().clone()];
    let mut q = Planner::restore(next, vendors, weddings).unwrap();
    assert_eq!(q.get_task_list(w).unwrap().len(), 1);
    assert_eq!(q.get_vendor_details(v).unwrap().name, s("Blooms"));
    let t = q.add_task(w, s("Shoes"), s("Buy"), s("Apr"), s("Ann"), 80).unwrap();
    assert_eq!(t.id, 3);
}

#[test]
fn restore_refuses_broken_records() {
    let mut p = Planner::new();
    let v = vendor(&mut p, Category::Attire, &[]);
    let w = wedding(&mut p, "d", 4);
    let vend = p.vendors.get(v).unwrap().clone();
    let wed = p.weddings.get(w).unwrap().clone();
    // an identifier at or past the generator position
    assert!(Planner::restore(1, vec![vend.clone()], vec![wed.clone()]).is_none());
    // the same vendor twice
    assert!(Planner::restore(2, vec![vend.clone(), vend.clone()], vec![]).is_none());
    // two guests under one email
    let mut bad = wed.clone();
    p.guest_rsvp(w, s("A"), s("same@x.org"), s(""), false).unwrap();
    let g = p.get_guest_list(w).unwrap()[0].clone();
    bad.guest_list = vec![g.clone(), g];
    assert!(Planner::restore(2, vec![vend.clone()], vec![bad]).is_none());
    assert!(Planner::restore(2, vec![vend], vec![wed]).is_some());
}

#[test]
fn generator_resumes_where_it_stopped() {
    let mut g = IdGenerator::resume(41);
    assert!(g.has_capacity());
    assert_eq!(g.next_id(), 41);
    assert_eq!(g.upcoming(), 42);
    assert!(!IdGenerator::resume(u64::MAX).has_capacity());
}

#[test]
fn confirming_keeps_each_booking_its_own_terms() {
    let mut p = Planner::new();
    let v = vendor(&mut p, Category::Catering, &["d"]);
    let other = vendor(&mut p, Category::Catering, &["d"]);
    let w = wedding(&mut p, "d", 10);
    p.book_vendor(v, w, 100, Some(s("lunch"))).unwrap();
    p.book_vendor(other, w, 50, None).unwrap();
    p.book_vendor(v, w, 300, Some(s("dinner"))).unwrap();
    let b = p.verify_vendor_booking(v, w, &alice()).unwrap();
    assert_eq!((b.wedding_offer, b.additional_details.clone()), (100, Some(s("lunch"))));
    let bs = &p.get_wedding_details(w).unwrap().vendors;
    assert_eq!(bs.len(), 3);
    assert_eq!((bs[0].wedding_offer, bs[0].status), (100, BookingStatus::Confirmed));
    assert_eq!((bs[1].wedding_offer, bs[1].status), (50, BookingStatus::Pending));
    assert_eq!((bs[2].wedding_offer, bs[2].status), (300, BookingStatus::Confirmed));
    assert_eq!(bs[2].additional_details, Some(s("dinner")));
}

#[test]
fn scan_order_survives_updates() {
    let mut p = Planner::new();
    let a = vendor(&mut p, Category::Music, &[]);
    let b = vendor(&mut p, Category::Music, &[]);
    let c = vendor(&mut p, Category::Music, &[]);
    let w1 = wedding(&mut p, "d", 3);
    let w2 = wedding(&mut p, "d", 3);
    p.verify_vendor(a).unwrap();
    p.update_vendor_availability(b, vec![s("x")]).unwrap();
    p.guest_rsvp(w1, s("G"), s("g@x.org"), s(""), false).unwrap();
    assert_eq!(p.vendors.scan(), vec![a, b, c]);
    assert_eq!(p.weddings.scan(), vec![w1, w2]);
    let ids: Vec<u64> = p.get_all_vendors().unwrap().iter().map(|v| v.id).collect();
    assert_eq!(ids, vec![a, b, c]);
}

#[test]
fn restore_refuses_records_out_of_order() {
    let mut p = Planner::new();
    let a = vendor(&mut p, Category::Music, &[]);
    let b = vendor(&mut p, Category::Music, &[]);
    let va = p.vendors.get(a).unwrap().clone();
    let vb = p.vendors.get(b).unwrap().clone();
    assert!(Planner::restore(2, vec![vb.clone(), va.clone()], vec![]).is_none());
    assert!(Planner::restore(2, vec![va, vb], vec![]).is_some());
}
