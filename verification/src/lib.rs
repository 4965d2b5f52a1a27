//! Core of a cross-platform windowing abstraction: a verified event-loop
//! engine together with the event model it dispatches.
//!
//! The crate is organised around the components of the loop:
//!
//! - [`event`] and [`keyboard`] hold the window, device and input event
//!   model: pure data that the loop routes.
//! - [`window`] holds window-scoped identifiers, attribute enums and the
//!   IME request types with their validation.
//! - [`control_flow`] is the state machine governing how the loop waits
//!   between cycles, and [`runner`] the dispatch engine that queues,
//!   coalesces and orders events into cycles.
//! - [`laws`] states and proves the engine's ordering guarantees.
//! - [`ime_session`] and [`ime_backend`] are the input-method state
//!   machines, per window and per input-method server.
//! - [`monitor`] builds and caches the monitor list from the display
//!   server's raw answers.
//! - [`time`] and [`geometry`] give the loop plain moments, sizes and
//!   positions.
//!
//! Platform backends feed native notifications in and perform the waits
//! and wakes the loop decides on; the decisions themselves live here.

use vstd::prelude::*;

pub mod control_flow;
pub mod error;
pub mod event;
pub mod geometry;
pub mod ime_backend;
pub mod ime_session;
pub mod keyboard;
pub mod laws;
pub mod monitor;
pub mod runner;
pub mod time;
pub mod window;

verus! {

} // verus!
