//! Control core of a battery-powered location-tracking node built around a
//! "wake, sense, decide, sleep" loop.
//!
//! The core holds: a retained-memory record guarded by a validity tag
//! ([`sleep_store`]), the hold latching of the two controlled output pins
//! ([`pin_hold`]), the movement-threshold decision over two fixes
//! ([`decide`]), and the wake-to-sleep sequence tying them together
//! ([`cycle`]). Fix acquisition, reporting and the hardware calls themselves
//! are collaborators outside this crate.

pub mod cycle;
pub mod decide;
pub mod pin_hold;
pub mod fix;
pub mod sleep_store;
