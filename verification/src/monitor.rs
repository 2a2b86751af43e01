//! The hotplug monitor's decision core.
//!
//! The embedding program owns the OS notification source: it performs the
//! cold enumeration at startup, holds the live subscription, and calls in
//! here once per device or notification with the identity properties, the
//! action string, and the current time. Everything decided about a
//! notification — identity extraction, the identity filter, debouncing, and
//! the mapping from action to presence event — happens in this module.

use vstd::prelude::*;

use crate::debounce::{fire_decision, should_fire, DebounceLedger};
use crate::filter::{hotplug_match, matches_hotplug, DeviceInfo};
use crate::hexnum::{hex_seq_val, parse_hex_u32, parses_as_hex_u32};

verus! {

/// A semantic presence transition of the watched peripheral.
#[derive(Debug, Clone, Copy, PartialEq, Eq, Structural)]
pub enum PresenceEvent {
    /// The identified device became present.
    Connected(DeviceInfo),
    /// A watched device went away.
    Disconnected,
}

/// The identity a notification's property bag yields: both hex-encoded
/// properties must be present and well-formed, otherwise the notification
/// is not identifiable.
pub open spec fn identity_of(vid_prop: Option<&str>, pid_prop: Option<&str>) -> Option<DeviceInfo> {
    match (vid_prop, pid_prop) {
        (Some(v), Some(p)) => if parses_as_hex_u32(v@) && parses_as_hex_u32(p@) {
            Some(DeviceInfo { vid: hex_seq_val(v@) as u32, pid: hex_seq_val(p@) as u32 })
        } else {
            None
        },
        _ => None,
    }
}

/// Read a device identity from the notification's vendor-id and model-id
/// properties; either one missing or malformed means "not identifiable".
pub fn extract_info(vid_prop: Option<&str>, pid_prop: Option<&str>) -> (r: Option<DeviceInfo>)
    ensures
        r == identity_of(vid_prop, pid_prop),
{
    match (vid_prop, pid_prop) {
        (Some(v), Some(p)) => match (parse_hex_u32(v), parse_hex_u32(p)) {
            (Some(vid), Some(pid)) => Some(DeviceInfo { vid, pid }),
            _ => None,
        },
        _ => None,
    }
}

/// The presence event an accepted notification maps to: `add` connects,
/// `remove` disconnects, anything else is ignored.
pub open spec fn action_event(action: Seq<char>, info: DeviceInfo) -> Option<PresenceEvent> {
    if action == "add"@ {
        Some(PresenceEvent::Connected(info))
    } else if action == "remove"@ {
        Some(PresenceEvent::Disconnected)
    } else {
        None
    }
}

/// Character-by-character string comparison.
fn str_eq(a: &str, b: &str) -> (r: bool)
    ensures
        r == (a@ == b@),
{
    let na = a.unicode_len();
    let nb = b.unicode_len();
    if na != nb {
        return false;
    }
    let mut i: usize = 0;
    while i < na
        invariant
            na == a@.len(),
            nb == b@.len(),
            na == nb,
            0 <= i <= na,
            forall|j: int| 0 <= j < i ==> a@[j] == b@[j],
        decreases na - i,
    {
        if a.get_char(i) != b.get_char(i) {
            return false;
        }
        i += 1;
    }
    proof {
        assert(a@ =~= b@);
    }
    true
}

/// Watches OS device notifications for the supported keyboard family.
///
/// One instance owns one debounce ledger; the embedding program scopes its
/// enumeration and subscription to [`Self::subsystem`] and feeds each
/// notification to [`Self::on_notification`] (or, during the cold
/// enumeration, to [`Self::on_existing_device`]).
pub struct DeviceListener {
    subsystem: String,
    window_ms: u64,
    ledger: DebounceLedger,
}

impl DeviceListener {
    /// The ledger inside is well-formed.
    pub closed spec fn wf(&self) -> bool {
        self.ledger.wf()
    }

    /// Model of the owned debounce ledger.
    pub closed spec fn ledger_model(&self) -> Map<u64, u64> {
        self.ledger@
    }

    /// The configured debounce window, in milliseconds.
    pub closed spec fn window(&self) -> u64 {
        self.window_ms
    }

    /// The OS subsystem notifications are scoped to.
    pub closed spec fn subsystem_spec(&self) -> Seq<char> {
        self.subsystem@
    }

    /// A monitor in the default configuration: the generic USB subsystem, a
    /// 300 ms debounce window, and a fresh, empty ledger.
    pub fn new() -> (r: DeviceListener)
        ensures
            r.wf(),
            r.ledger_model() == Map::<u64, u64>::empty(),
            r.window() == 300,
            r.subsystem_spec() == "usb"@,
    {
        DeviceListener { subsystem: "usb".to_owned(), window_ms: 300, ledger: DebounceLedger::new() }
    }

    /// The same monitor scoped to another OS subsystem.
    pub fn with_subsystem(self, subsystem: String) -> (r: DeviceListener)
        ensures
            r.wf() == self.wf(),
            r.ledger_model() == self.ledger_model(),
            r.window() == self.window(),
            r.subsystem_spec() == subsystem@,
    {
        DeviceListener { subsystem, ..self }
    }

    /// The same monitor with another debounce window.
    pub fn with_debounce_ms(self, window_ms: u64) -> (r: DeviceListener)
        ensures
            r.wf() == self.wf(),
            r.ledger_model() == self.ledger_model(),
            r.window() == window_ms,
            r.subsystem_spec() == self.subsystem_spec(),
    {
        DeviceListener { window_ms, ..self }
    }

    /// The subsystem name the embedding program must scope enumeration and
    /// subscription to.
    pub fn subsystem(&self) -> (r: &str)
        ensures
            r@ == self.subsystem_spec(),
    {
        self.subsystem.as_str()
    }

    /// Process one device found during cold enumeration at startup. Acts
    /// like a live `add`: an identified, matching, debounce-accepted device
    /// yields a connection event.
    pub fn on_existing_device(
        &mut self,
        vid_prop: Option<&str>,
        pid_prop: Option<&str>,
        now_ms: u64,
    ) -> (ev: Option<PresenceEvent>)
        requires
            old(self).wf(),
        ensures
            final(self).wf(),
            final(self).window() == old(self).window(),
            final(self).subsystem_spec() == old(self).subsystem_spec(),
            (match identity_of(vid_prop, pid_prop) {
                None => ev is None && final(self).ledger_model() == old(self).ledger_model(),
                Some(info) => if !hotplug_match(info.vid, info.pid) {
                    ev is None && final(self).ledger_model() == old(self).ledger_model()
                } else if !fire_decision(
                    old(self).ledger_model(),
                    info.key(),
                    now_ms,
                    old(self).window(),
                ) {
                    ev is None && final(self).ledger_model() == old(self).ledger_model()
                } else {
                    ev == Some(PresenceEvent::Connected(info)) && final(self).ledger_model() == old(
                        self,
                    ).ledger_model().insert(info.key(), now_ms)
                },
            }),
    {
        match extract_info(vid_prop, pid_prop) {
            None => None,
            Some(info) => {
                if !matches_hotplug(info.vid, info.pid) {
                    return None;
                }
                if !should_fire(&mut self.ledger, &info, now_ms, self.window_ms) {
                    return None;
                }
                Some(PresenceEvent::Connected(info))
            },
        }
    }

    /// Process one live OS notification, in arrival order: extract the
    /// identity, apply the identity filter, then the debounce ledger, and
    /// map the action to a presence event. Unidentifiable notifications and
    /// foreign devices leave the ledger untouched and yield nothing; an
    /// accepted transition is recorded even when the action string is
    /// unrecognised (in which case no event is emitted).
    pub fn on_notification(
        &mut self,
        action: &str,
        vid_prop: Option<&str>,
        pid_prop: Option<&str>,
        now_ms: u64,
    ) -> (ev: Option<PresenceEvent>)
        requires
            old(self).wf(),
        ensures
            final(self).wf(),
            final(self).window() == old(self).window(),
            final(self).subsystem_spec() == old(self).subsystem_spec(),
            (match identity_of(vid_prop, pid_prop) {
                None => ev is None && final(self).ledger_model() == old(self).ledger_model(),
                Some(info) => if !hotplug_match(info.vid, info.pid) {
                    ev is None && final(self).ledger_model() == old(self).ledger_model()
                } else if !fire_decision(
                    old(self).ledger_model(),
                    info.key(),
                    now_ms,
                    old(self).window(),
                ) {
                    ev is None && final(self).ledger_model() == old(self).ledger_model()
                } else {
                    ev == action_event(action@, info) && final(self).ledger_model() == old(
                        self,
                    ).ledger_model().insert(info.key(), now_ms)
                },
            }),
    {
        match extract_info(vid_prop, pid_prop) {
            None => None,
            Some(info) => {
                if !matches_hotplug(info.vid, info.pid) {
                    return None;
                }
                if !should_fire(&mut self.ledger, &info, now_ms, self.window_ms) {
                    return None;
                }
                if str_eq(action, "add") {
                    Some(PresenceEvent::Connected(info))
                } else if str_eq(action, "remove") {
                    Some(PresenceEvent::Disconnected)
                } else {
                    None
                }
            },
        }
    }
}

} // verus!
