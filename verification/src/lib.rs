//! A verified model of a minimal real-time rendering host.
//!
//! The library captures the decision logic of a single-window GPU renderer:
//! the one-time pipeline bootstrap, the per-frame draw state machine, and
//! the reconciliation of window resizes with the drawable surface. The GPU
//! and windowing calls themselves are performed by an unverified shell that
//! drives these state machines and reports each call's outcome back as a
//! plain value; every decision taken on those outcomes is proved here.

pub mod bootstrap;
pub mod frame;
pub mod geometry;
pub mod host;
