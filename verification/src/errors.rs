//! Error taxonomy for the monitor and the control session.
//!
//! The EC and HID layers report their failures through opaque foreign error
//! values; here each is modelled by a small carrier holding a numeric fault
//! code, so that contracts can say exactly which failure propagates where.

use vstd::prelude::*;

verus! {

/// Stands for an error reported by the EC protocol layer.
#[derive(Debug, Clone, Copy, PartialEq, Eq, Structural)]
pub struct EcWrap {
    /// Code distinguishing one EC-layer fault from another.
    pub code: u32,
}

/// Stands for an error reported by the HID transport layer.
#[derive(Debug, Clone, Copy, PartialEq, Eq, Structural)]
pub struct HidFault {
    /// Code distinguishing one HID-layer fault from another.
    pub code: u32,
}

/// Everything that can go wrong while opening or driving a control session.
#[derive(Debug, Clone, Copy, PartialEq, Eq, Structural)]
pub enum LaunchError {
    /// The EC protocol layer failed during a round-trip.
    Ec(EcWrap),
    /// The HID transport failed (layer unavailable, open failed, I/O failed).
    Hid(HidFault),
    /// No candidate device matched the session identity filter.
    DeviceNotFound,
    /// A board-id or firmware-version reply was not valid UTF-8.
    UnicodeError,
    /// The device reported a mode byte outside the closed enumeration.
    UnknownLedMode(u8),
}

} // verus!
