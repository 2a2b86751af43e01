//! The identity filter: recognising the supported keyboard by its
//! vendor/product identity.
//!
//! Two configurations share one vendor/product range. The hotplug path
//! checks only vendor and product (the OS subsystem scoping is applied at
//! the notification source); the session-open path additionally requires the
//! EC's logical HID interface number.

use vstd::prelude::*;

verus! {

/// Vendor id of the supported keyboard family.
pub const VENDOR_ID: u16 = 0x3384;

/// Lowest product id of the supported range (inclusive).
pub const PRODUCT_ID_MIN: u16 = 0x0001;

/// Highest product id of the supported range (inclusive).
pub const PRODUCT_ID_MAX: u16 = 0x000A;

/// Logical HID interface the EC protocol is spoken on.
pub const SESSION_INTERFACE: i32 = 1;

/// Identity of a peripheral, read from OS notification properties.
#[derive(Debug, Clone, Copy, PartialEq, Eq, Structural)]
pub struct DeviceInfo {
    /// Vendor id, decoded from the hex-encoded notification property.
    pub vid: u32,
    /// Product (model) id, decoded from the hex-encoded notification property.
    pub pid: u32,
}

impl DeviceInfo {
    /// Canonical debounce key: the vendor/product pair packed into one
    /// integer, so that distinct identities get distinct keys.
    pub open spec fn key(self) -> u64 {
        (self.vid * 0x1_0000_0000 + self.pid) as u64
    }

    /// Compute the canonical debounce key.
    pub fn key_of(&self) -> (k: u64)
        ensures
            k == self.key(),
    {
        (self.vid as u64) * 0x1_0000_0000 + (self.pid as u64)
    }
}

/// Law: the canonical key is injective — two identities with the same key
/// are the same identity.
pub proof fn lemma_key_injective(a: DeviceInfo, b: DeviceInfo)
    requires
        a.key() == b.key(),
    ensures
        a == b,
{
    assert(a.vid == b.vid && a.pid == b.pid) by (nonlinear_arith)
        requires
            a.vid * 0x1_0000_0000 + a.pid == b.vid * 0x1_0000_0000 + b.pid,
            a.pid < 0x1_0000_0000,
            b.pid < 0x1_0000_0000,
    ;
}

/// Whether a device seen by the hotplug monitor belongs to the supported
/// family: exact vendor match and product id inside the inclusive range.
pub open spec fn hotplug_match(vid: u32, pid: u32) -> bool {
    vid == VENDOR_ID && PRODUCT_ID_MIN <= pid <= PRODUCT_ID_MAX
}

/// Hotplug-path filter over the identity read from notification properties.
pub fn matches_hotplug(vid: u32, pid: u32) -> (r: bool)
    ensures
        r == hotplug_match(vid, pid),
{
    vid == VENDOR_ID as u32 && PRODUCT_ID_MIN as u32 <= pid && pid <= PRODUCT_ID_MAX as u32
}

/// Whether a HID enumeration candidate is the one the session may open:
/// same vendor/product range, and the EC's logical interface.
pub open spec fn session_match(vid: u16, pid: u16, interface: i32) -> bool {
    vid == VENDOR_ID && PRODUCT_ID_MIN <= pid <= PRODUCT_ID_MAX && interface == SESSION_INTERFACE
}

/// Session-open filter over a HID enumeration candidate.
pub fn matches_session(vid: u16, pid: u16, interface: i32) -> (r: bool)
    ensures
        r == session_match(vid, pid, interface),
{
    vid == VENDOR_ID && PRODUCT_ID_MIN <= pid && pid <= PRODUCT_ID_MAX
        && interface == SESSION_INTERFACE
}

} // verus!
