//! Records for wedding planning: vendors and weddings, each a whole aggregate
//! kept in a keyed store, with the invariants that span their nested
//! collections (bookings, guests, timeline, tasks, gift registry).
pub mod ids;
pub mod laws;
pub mod model;
pub mod planner;
pub mod queries;
pub mod registry;
pub mod restore;
pub mod store;
pub mod tasks;
pub mod vendors;
pub mod weddings;
