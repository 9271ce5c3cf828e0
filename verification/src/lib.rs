//! Speaking turns at a meeting: a register of participants, the queue of those
//! waiting to speak, a stopwatch for the speech under way, and the log of the
//! speeches made, with the time spoken per category.

pub mod categories;
pub mod clock;
pub mod controller;
pub mod display;
pub mod error;
pub mod session;
pub mod speakers;
pub mod speeches;
pub mod timespan;
