//! Presence monitoring and control of a USB lighting keyboard's embedded
//! controller (EC).
//!
//! The crate has two halves. The hotplug half watches OS device
//! notifications: it recognises the keyboard by its vendor/product identity,
//! collapses bursts of duplicate notifications with a debounce ledger, and
//! turns the survivors into presence events. The session half speaks the EC
//! request/response protocol: it validates the board-id and firmware-version
//! strings, maps raw mode bytes to and from the closed [`modes::LedMode`]
//! enumeration, and maintains the cached state of an open control session.
//!
//! All device I/O (udev subscriptions, HID reports) is performed by the
//! embedding program, which feeds the results into the decision functions
//! here as plain values.

pub mod debounce;
pub mod errors;
pub mod filter;
pub mod hexnum;
pub mod modes;
pub mod monitor;
pub mod session;
