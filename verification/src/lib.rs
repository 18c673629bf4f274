//! Control logic of an hourglass countdown service.
//!
//! The service keeps three values (whether the countdown is ticking, how many
//! seconds remain, and whether termination was requested), lets concurrent
//! callers change them, and reports every change as a snapshot to a single
//! consumer, which alone decides when the listener is stopped.
//!
//! - [`hourglass_state`]: the record of the three values.
//! - [`seconds`]: the counter's arithmetic and its decimal text.
//! - [`reply`]: what a handler answers.
//! - [`control`]: the changes that callers can ask for, as a transition
//!   system, with what holds of it.
//! - [`store`]: the live state, each value behind its own lock.
//! - [`channel`]: the channel to the event loop.
//! - [`webservice`]: the request handlers.
//! - [`lifecycle`]: the decisions of the event loop.

pub mod channel;
pub mod control;
pub mod hourglass_state;
pub mod lifecycle;
pub mod reply;
pub mod seconds;
pub mod store;
pub mod webservice;
