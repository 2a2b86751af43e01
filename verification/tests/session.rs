use launch_control::errors::{EcWrap, HidFault, LaunchError};
use launch_control::modes::LedMode;
use launch_control::session::{
    decode_field, EcBytes, Launch, OpenAttempt, OpenTranscript, SetModeTranscript,
};

fn bytes(text: &[u8], len: usize) -> EcBytes {
    EcBytes { data: text.to_vec(), len }
}

fn full_transcript() -> OpenTranscript {
    OpenTranscript {
        board: Ok(bytes(b"launch_1\0\0\0\0", 8)),
        version: Ok(bytes(b"1.7.0\0\0\0", 5)),
        mode: Ok(4),
    }
}

#[test]
fn open_succeeds_and_caches_all_three_reads() {
    let session = Launch::try_new(OpenAttempt::Opened(full_transcript())).unwrap();
    assert_eq!(session.board(), "launch_1");
    assert_eq!(session.version(), "1.7.0");
    assert_eq!(session.current_mode(), LedMode::CycleUpDown);
}

#[test]
fn open_without_candidate_is_device_not_found() {
    let r = Launch::try_new(OpenAttempt::NoCandidate);
    assert!(matches!(r, Err(LaunchError::DeviceNotFound)));
}

#[test]
fn open_handle_failure_propagates_hid_error() {
    let r = Launch::try_new(OpenAttempt::OpenFailed(HidFault { code: 3 }));
    assert!(matches!(r, Err(LaunchError::Hid(HidFault { code: 3 }))));
}

#[test]
fn open_is_all_or_nothing_on_second_round_trip() {
    // The board read succeeds, the version read (2nd of 3) fails: no
    // session, and exactly that error propagates.
    let transcript = OpenTranscript {
        board: Ok(bytes(b"launch_1", 8)),
        version: Err(EcWrap { code: 9 }),
        mode: Ok(0),
    };
    let r = Launch::try_new(OpenAttempt::Opened(transcript));
    assert!(matches!(r, Err(LaunchError::Ec(EcWrap { code: 9 }))));
}

#[test]
fn open_is_all_or_nothing_on_third_round_trip() {
    let transcript = OpenTranscript {
        board: Ok(bytes(b"launch_1", 8)),
        version: Ok(bytes(b"1.7.0", 5)),
        mode: Err(EcWrap { code: 2 }),
    };
    let r = Launch::try_new(OpenAttempt::Opened(transcript));
    assert!(matches!(r, Err(LaunchError::Ec(EcWrap { code: 2 }))));
}

#[test]
fn open_rejects_unknown_mode_byte() {
    let transcript = OpenTranscript {
        board: Ok(bytes(b"launch_1", 8)),
        version: Ok(bytes(b"1.7.0", 5)),
        mode: Ok(200),
    };
    let r = Launch::try_new(OpenAttempt::Opened(transcript));
    assert!(matches!(r, Err(LaunchError::UnknownLedMode(200))));
}

#[test]
fn open_rejects_invalid_utf8_board() {
    let transcript = OpenTranscript {
        board: Ok(bytes(&[0xFF, 0xFE, 0x41], 3)),
        version: Ok(bytes(b"1.7.0", 5)),
        mode: Ok(0),
    };
    let r = Launch::try_new(OpenAttempt::Opened(transcript));
    assert!(matches!(r, Err(LaunchError::UnicodeError)));
}

#[test]
fn field_truncated_to_declared_length() {
    let r = decode_field(bytes(b"launch_1xyz", 8)).unwrap();
    assert_eq!(r, "launch_1");
}

#[test]
fn field_with_overlong_length_keeps_whole_buffer() {
    let r = decode_field(bytes(b"abc", 100)).unwrap();
    assert_eq!(r, "abc");
}

#[test]
fn field_with_invalid_utf8_is_hard_error() {
    // Valid only up to the declared length boundary cut mid-sequence:
    // 0xC3 starts a two-byte sequence that the truncation cuts off.
    let r = decode_field(bytes(&[0x61, 0xC3, 0xA9, 0x62], 2));
    assert!(matches!(r, Err(LaunchError::UnicodeError)));
    // The same buffer with the full length is fine.
    let ok = decode_field(bytes(&[0x61, 0xC3, 0xA9, 0x62], 4)).unwrap();
    assert_eq!(ok, "a\u{e9}b");
}

#[test]
fn set_mode_request_encodes_ordinal_and_speed() {
    assert_eq!(Launch::set_mode_request(LedMode::SolidColor, 128), (0, 128));
    assert_eq!(Launch::set_mode_request(LedMode::Last, 255), (15, 255));
}

#[test]
fn set_mode_reflects_device_truth() {
    let mut session = Launch::try_new(OpenAttempt::Opened(full_transcript())).unwrap();
    // The device was asked for one mode but reports another on read-back:
    // the cache must hold what the device reports.
    let requested = LedMode::PerKey;
    let (wire_mode, _speed) = Launch::set_mode_request(requested, 10);
    assert_eq!(wire_mode, 1);
    let reported = LedMode::Raindrops;
    let transcript = SetModeTranscript {
        send: Ok(()),
        readback: Ok(reported.encode()),
    };
    session.set_led_mode(transcript).unwrap();
    assert_eq!(session.current_mode(), reported);
    assert_ne!(session.current_mode(), requested);
}

#[test]
fn set_mode_send_failure_keeps_cached_mode() {
    let mut session = Launch::try_new(OpenAttempt::Opened(full_transcript())).unwrap();
    let before = session.current_mode();
    let transcript = SetModeTranscript {
        send: Err(EcWrap { code: 5 }),
        readback: Ok(0),
    };
    let r = session.set_led_mode(transcript);
    assert!(matches!(r, Err(LaunchError::Ec(EcWrap { code: 5 }))));
    assert_eq!(session.current_mode(), before);
}

#[test]
fn set_mode_unknown_readback_keeps_cached_mode() {
    let mut session = Launch::try_new(OpenAttempt::Opened(full_transcript())).unwrap();
    let before = session.current_mode();
    let transcript = SetModeTranscript { send: Ok(()), readback: Ok(77) };
    let r = session.set_led_mode(transcript);
    assert!(matches!(r, Err(LaunchError::UnknownLedMode(77))));
    assert_eq!(session.current_mode(), before);
    // Board and version never move after open.
    assert_eq!(session.board(), "launch_1");
    assert_eq!(session.version(), "1.7.0");
}
