//! The EC control session: opening, cached identity strings, and the
//! lighting-mode state machine.
//!
//! The embedding program owns the raw HID handle and performs the blocking
//! EC round-trips; this module decides everything about their results. An
//! open attempt is described by an [`OpenAttempt`] value — whether a
//! candidate was found, whether the raw open succeeded, and the replies of
//! the three open-time round-trips (board id, firmware version, current
//! mode) — and [`Launch::try_new`] turns it into a session or the first
//! error, all or nothing. A mode change is described by a
//! [`SetModeTranscript`], and the cached mode afterwards is always the value
//! read back from the device, never the value requested.

use vstd::prelude::*;
use vstd::utf8::{decode_utf8, valid_utf8};

use crate::errors::{EcWrap, HidFault, LaunchError};
use crate::modes::LedMode;

verus! {

/// A raw EC reply buffer together with the count of valid leading bytes.
pub struct EcBytes {
    /// The reply buffer as the transport returned it.
    pub data: Vec<u8>,
    /// How many leading bytes of `data` the device declared valid.
    pub len: usize,
}

/// The replies of the three open-time round-trips, in protocol order.
pub struct OpenTranscript {
    /// Reply to the board-id query.
    pub board: Result<EcBytes, EcWrap>,
    /// Reply to the firmware-version query.
    pub version: Result<EcBytes, EcWrap>,
    /// Reply to the current-mode query.
    pub mode: Result<u8, EcWrap>,
}

/// What an open attempt against the HID transport came to.
pub enum OpenAttempt {
    /// No enumerated candidate matched the session identity filter.
    NoCandidate,
    /// A candidate matched but the raw handle could not be opened.
    OpenFailed(HidFault),
    /// A handle was opened and the three round-trips were attempted.
    Opened(OpenTranscript),
}

/// The bytes a string field is decoded from: the reply buffer truncated to
/// the device-declared valid length (an overlong length keeps the whole
/// buffer, as truncation cannot grow it).
pub open spec fn field_bytes(data: Seq<u8>, len: usize) -> Seq<u8> {
    if len <= data.len() {
        data.take(len as int)
    } else {
        data
    }
}

/// What decoding a string field must yield: the truncated buffer read as
/// UTF-8 text, or a hard error — never a placeholder.
pub open spec fn field_spec(data: Seq<u8>, len: usize) -> Result<Seq<char>, LaunchError> {
    if valid_utf8(field_bytes(data, len)) {
        Ok(decode_utf8(field_bytes(data, len)))
    } else {
        Err(LaunchError::UnicodeError)
    }
}

/// Relies on `String::from_utf8`: it succeeds exactly on valid UTF-8 input
/// and returns the string holding those bytes, i.e. their UTF-8 decoding.
#[verifier::external_body]
fn string_from_utf8(data: Vec<u8>) -> (r: Option<String>)
    ensures
        r is Some <==> valid_utf8(data@),
        r is Some ==> r.unwrap()@ == decode_utf8(data@),
{
    String::from_utf8(data).ok()
}

/// Decode one string field of the identity protocol: truncate the reply
/// buffer to the declared valid length and read it as UTF-8; invalid UTF-8
/// is a hard error.
pub fn decode_field(field: EcBytes) -> (r: Result<String, LaunchError>)
    ensures
        r is Ok <==> field_spec(field.data@, field.len) is Ok,
        r is Ok ==> r.unwrap()@ == field_spec(field.data@, field.len).unwrap(),
        r is Err ==> field_spec(field.data@, field.len) is Err && r->Err_0 == field_spec(
            field.data@,
            field.len,
        )->Err_0,
{
    let EcBytes { mut data, len } = field;
    data.truncate(len);
    proof {
        assert(data@ =~= field_bytes(field.data@, field.len));
    }
    match string_from_utf8(data) {
        Some(s) => Ok(s),
        None => Err(LaunchError::UnicodeError),
    }
}

/// An opened control session: the cached board id, firmware version, and
/// current lighting mode of one exclusively-owned device handle.
///
/// Board and version are fetched once at open time and immutable for the
/// session's lifetime; the cached mode is refreshed from the device after
/// every successful mode change.
#[derive(Debug)]
pub struct Launch {
    board: String,
    version: String,
    current_mode: LedMode,
}

impl Launch {
    /// Cached board id, as decoded at open time.
    pub closed spec fn board_spec(&self) -> Seq<char> {
        self.board@
    }

    /// Cached firmware version, as decoded at open time.
    pub closed spec fn version_spec(&self) -> Seq<char> {
        self.version@
    }

    /// Cached lighting mode: always the value last read back from the
    /// device.
    pub closed spec fn mode_spec(&self) -> LedMode {
        self.current_mode
    }

    /// Build a session from an open attempt, all or nothing: every
    /// round-trip must have succeeded and decoded, otherwise the first
    /// error in protocol order propagates and no session exists.
    pub fn try_new(attempt: OpenAttempt) -> (r: Result<Launch, LaunchError>)
        ensures
            (match attempt {
                OpenAttempt::NoCandidate => r is Err && r.unwrap_err()
                    == LaunchError::DeviceNotFound,
                OpenAttempt::OpenFailed(h) => r is Err && r.unwrap_err() == LaunchError::Hid(h),
                OpenAttempt::Opened(t) => match t.board {
                    Err(e) => r is Err && r.unwrap_err() == LaunchError::Ec(e),
                    Ok(bb) => match field_spec(bb.data@, bb.len) {
                        Err(be) => r is Err && r.unwrap_err() == be,
                        Ok(bs) => match t.version {
                            Err(e) => r is Err && r.unwrap_err() == LaunchError::Ec(e),
                            Ok(vb) => match field_spec(vb.data@, vb.len) {
                                Err(ve) => r is Err && r.unwrap_err() == ve,
                                Ok(vs) => match t.mode {
                                    Err(e) => r is Err && r.unwrap_err() == LaunchError::Ec(e),
                                    Ok(raw) => match LedMode::decode_spec(raw) {
                                        Err(me) => r is Err && r.unwrap_err() == me,
                                        Ok(m) => r is Ok && r.unwrap().board_spec() == bs
                                            && r.unwrap().version_spec() == vs
                                            && r.unwrap().mode_spec() == m,
                                    },
                                },
                            },
                        },
                    },
                },
            }),
    {
        let transcript = match attempt {
            OpenAttempt::NoCandidate => {
                return Err(LaunchError::DeviceNotFound);
            },
            OpenAttempt::OpenFailed(h) => {
                return Err(LaunchError::Hid(h));
            },
            OpenAttempt::Opened(t) => t,
        };
        let board = match transcript.board {
            Err(e) => {
                return Err(LaunchError::Ec(e));
            },
            Ok(bb) => match decode_field(bb) {
                Err(be) => {
                    return Err(be);
                },
                Ok(s) => s,
            },
        };
        let version = match transcript.version {
            Err(e) => {
                return Err(LaunchError::Ec(e));
            },
            Ok(vb) => match decode_field(vb) {
                Err(ve) => {
                    return Err(ve);
                },
                Ok(s) => s,
            },
        };
        let current_mode = match transcript.mode {
            Err(e) => {
                return Err(LaunchError::Ec(e));
            },
            Ok(raw) => match LedMode::try_from_u8(raw) {
                Err(me) => {
                    return Err(me);
                },
                Ok(m) => m,
            },
        };
        Ok(Launch { board, version, current_mode })
    }

    /// The cached board id; a pure read, no device round-trip.
    pub fn board(&self) -> (r: &String)
        ensures
            r@ == self.board_spec(),
    {
        &self.board
    }

    /// The cached firmware version; a pure read, no device round-trip.
    pub fn version(&self) -> (r: &String)
        ensures
            r@ == self.version_spec(),
    {
        &self.version
    }

    /// The cached lighting mode; a pure read, no device round-trip.
    pub fn current_mode(&self) -> (r: LedMode)
        ensures
            r == self.mode_spec(),
    {
        self.current_mode
    }

    /// The wire bytes of a mode-change command: the requested mode's
    /// ordinal and the device-interpreted speed (no client-side range check
    /// beyond the byte's natural bound).
    pub fn set_mode_request(mode: LedMode, speed: u8) -> (cmd: (u8, u8))
        ensures
            cmd.0 == mode.ordinal(),
            cmd.1 == speed,
    {
        (mode.encode(), speed)
    }

    /// Reply of the mode-change round-trips: the set command's outcome and
    /// the unconditional read-back of the mode the device now reports.
    ///
    /// The read-back is what the cached mode is updated from — the device,
    /// not the request, is ground truth, and the two may legitimately
    /// differ.
    pub fn set_led_mode(&mut self, transcript: SetModeTranscript) -> (r: Result<(), LaunchError>)
        ensures
            final(self).board_spec() == old(self).board_spec(),
            final(self).version_spec() == old(self).version_spec(),
            (match transcript.send {
                Err(e) => r is Err && r.unwrap_err() == LaunchError::Ec(e) && final(self).mode_spec()
                    == old(self).mode_spec(),
                Ok(_) => match transcript.readback {
                    Err(e) => r is Err && r.unwrap_err() == LaunchError::Ec(e)
                        && final(self).mode_spec() == old(self).mode_spec(),
                    Ok(raw) => match LedMode::decode_spec(raw) {
                        Err(me) => r is Err && r.unwrap_err() == me && final(self).mode_spec()
                            == old(self).mode_spec(),
                        Ok(m) => r is Ok && final(self).mode_spec() == m,
                    },
                },
            }),
    {
        match transcript.send {
            Err(e) => {
                return Err(LaunchError::Ec(e));
            },
            Ok(_) => {},
        }
        let raw = match transcript.readback {
            Err(e) => {
                return Err(LaunchError::Ec(e));
            },
            Ok(raw) => raw,
        };
        let mode = match LedMode::try_from_u8(raw) {
            Err(me) => {
                return Err(me);
            },
            Ok(m) => m,
        };
        self.current_mode = mode;
        Ok(())
    }
}

/// The replies of one mode-change: the set command's acknowledgement and
/// the subsequent mode read-back.
pub struct SetModeTranscript {
    /// Outcome of sending the set-mode command.
    pub send: Result<(), EcWrap>,
    /// Reply to the unconditional current-mode read that follows.
    pub readback: Result<u8, EcWrap>,
}

} // verus!
