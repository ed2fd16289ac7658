//! One-shot, timeout-bounded geolocation acquisition.
//!
//! The library models the hand-off between an asynchronous, callback-driven
//! location provider and a foreground consumer: a delegate receives pushed
//! notifications and publishes the first decisive one into a single-slot
//! result cell; a controller owns the session lifecycle and answers
//! non-blocking status polls; a presentation bridge turns each poll into a
//! scheduling decision for whoever drives the waiting (a sleep loop or a UI
//! tick source). All platform, logging and network plumbing stays outside;
//! the state machine here works on plain values (integer microdegrees and
//! millisecond clocks) and is verified.

pub mod bridge;
pub mod cell;
pub mod controller;
pub mod delegate;
pub mod fix;
pub mod render;
