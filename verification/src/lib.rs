//! Notification scheduling for calendar feeds.
//!
//! Given the events of a feed and the current instant, the library decides
//! which events are upcoming, which of them are due for a notification, and
//! which have been announced already, so that each event is announced once.
//! Fetching feeds and showing notifications is left to the caller; every
//! decision in between is made here and proved against its contract.
//!
//! - [`instant`] and [`event`]: points in time, events and lead times;
//! - [`sort`]: the order in which the events of a feed are handled;
//! - [`scheduler`]: the decision for one event;
//! - [`notified`] and [`epoch`]: the titles announced so far, and for how
//!   long they are remembered;
//! - [`cycle`]: one pass over a feed, action by action;
//! - [`notice`]: the texts shown to the user;
//! - [`locator`] and [`verbosity`]: what the program is started with;
//! - [`laws`]: what holds of every cycle.

pub mod cycle;
pub mod epoch;
pub mod event;
pub mod instant;
pub mod laws;
pub mod locator;
pub mod notice;
pub mod notified;
pub mod scheduler;
pub mod sort;
pub mod verbosity;
