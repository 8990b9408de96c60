//! A fire-and-forget fetch bridge between a single-threaded frame loop and
//! background units of work.
//!
//! Requests and responses travel on typed event channels. A dispatch tick
//! drains every pending request and turns each into a plan for one background
//! unit of work; completion functions turn the outcome of that work into
//! exactly one response event.

pub mod channel;
pub mod dispatch;
pub mod events;
pub mod jpeg;
