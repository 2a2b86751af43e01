//! The closed enumeration of EC lighting modes and its wire codec.
//!
//! A mode travels on the wire as a single ordinal byte in `0..=15`. Decoding
//! is exact: any other byte is an [`LaunchError::UnknownLedMode`] error,
//! never a silently substituted default.

use vstd::prelude::*;

use crate::errors::LaunchError;

verus! {

/// The sixteen lighting behaviours the embedded controller understands.
#[derive(Debug, Clone, Copy, PartialEq, Eq, Structural)]
pub enum LedMode {
    SolidColor,
    PerKey,
    CycleAll,
    CycleLeftRight,
    CycleUpDown,
    CycleOutIn,
    CycleOutInDual,
    RainbowMovingChevron,
    CyclePinwheel,
    CycleSpiral,
    Raindrops,
    Splash,
    Multisplash,
    ActiveKeys,
    Disabled,
    Last,
}

impl LedMode {
    /// The ordinal byte this mode travels as on the wire.
    pub open spec fn ordinal(self) -> u8 {
        match self {
            LedMode::SolidColor => 0,
            LedMode::PerKey => 1,
            LedMode::CycleAll => 2,
            LedMode::CycleLeftRight => 3,
            LedMode::CycleUpDown => 4,
            LedMode::CycleOutIn => 5,
            LedMode::CycleOutInDual => 6,
            LedMode::RainbowMovingChevron => 7,
            LedMode::CyclePinwheel => 8,
            LedMode::CycleSpiral => 9,
            LedMode::Raindrops => 10,
            LedMode::Splash => 11,
            LedMode::Multisplash => 12,
            LedMode::ActiveKeys => 13,
            LedMode::Disabled => 14,
            LedMode::Last => 15,
        }
    }

    /// What decoding a raw byte must yield: the mode with that ordinal, or an
    /// unknown-mode error carrying the offending byte.
    pub open spec fn decode_spec(value: u8) -> Result<LedMode, LaunchError> {
        if value == 0 {
            Ok(LedMode::SolidColor)
        } else if value == 1 {
            Ok(LedMode::PerKey)
        } else if value == 2 {
            Ok(LedMode::CycleAll)
        } else if value == 3 {
            Ok(LedMode::CycleLeftRight)
        } else if value == 4 {
            Ok(LedMode::CycleUpDown)
        } else if value == 5 {
            Ok(LedMode::CycleOutIn)
        } else if value == 6 {
            Ok(LedMode::CycleOutInDual)
        } else if value == 7 {
            Ok(LedMode::RainbowMovingChevron)
        } else if value == 8 {
            Ok(LedMode::CyclePinwheel)
        } else if value == 9 {
            Ok(LedMode::CycleSpiral)
        } else if value == 10 {
            Ok(LedMode::Raindrops)
        } else if value == 11 {
            Ok(LedMode::Splash)
        } else if value == 12 {
            Ok(LedMode::Multisplash)
        } else if value == 13 {
            Ok(LedMode::ActiveKeys)
        } else if value == 14 {
            Ok(LedMode::Disabled)
        } else if value == 15 {
            Ok(LedMode::Last)
        } else {
            Err(LaunchError::UnknownLedMode(value))
        }
    }

    /// Decode a raw wire byte; exact ordinal match, no fallback mode.
    pub fn try_from_u8(value: u8) -> (r: Result<LedMode, LaunchError>)
        ensures
            r == LedMode::decode_spec(value),
    {
        match value {
            0 => Ok(LedMode::SolidColor),
            1 => Ok(LedMode::PerKey),
            2 => Ok(LedMode::CycleAll),
            3 => Ok(LedMode::CycleLeftRight),
            4 => Ok(LedMode::CycleUpDown),
            5 => Ok(LedMode::CycleOutIn),
            6 => Ok(LedMode::CycleOutInDual),
            7 => Ok(LedMode::RainbowMovingChevron),
            8 => Ok(LedMode::CyclePinwheel),
            9 => Ok(LedMode::CycleSpiral),
            10 => Ok(LedMode::Raindrops),
            11 => Ok(LedMode::Splash),
            12 => Ok(LedMode::Multisplash),
            13 => Ok(LedMode::ActiveKeys),
            14 => Ok(LedMode::Disabled),
            15 => Ok(LedMode::Last),
            other => Err(LaunchError::UnknownLedMode(other)),
        }
    }

    /// Encode this mode as its wire byte (total; every mode has an ordinal).
    pub fn encode(self) -> (b: u8)
        ensures
            b == self.ordinal(),
    {
        match self {
            LedMode::SolidColor => 0,
            LedMode::PerKey => 1,
            LedMode::CycleAll => 2,
            LedMode::CycleLeftRight => 3,
            LedMode::CycleUpDown => 4,
            LedMode::CycleOutIn => 5,
            LedMode::CycleOutInDual => 6,
            LedMode::RainbowMovingChevron => 7,
            LedMode::CyclePinwheel => 8,
            LedMode::CycleSpiral => 9,
            LedMode::Raindrops => 10,
            LedMode::Splash => 11,
            LedMode::Multisplash => 12,
            LedMode::ActiveKeys => 13,
            LedMode::Disabled => 14,
            LedMode::Last => 15,
        }
    }

    /// The human-readable name of this mode.
    pub open spec fn name_spec(self) -> Seq<char> {
        match self {
            LedMode::SolidColor => "Solid Color"@,
            LedMode::PerKey => "Per Key"@,
            LedMode::CycleAll => "Cycle All"@,
            LedMode::CycleLeftRight => "Cycle Left to Right"@,
            LedMode::CycleUpDown => "Cycle Up to Down"@,
            LedMode::CycleOutIn => "Cycle Out to In"@,
            LedMode::CycleOutInDual => "Cycle Out to In Dual"@,
            LedMode::RainbowMovingChevron => "Rainbow Chevron"@,
            LedMode::CyclePinwheel => "Pinwheel"@,
            LedMode::CycleSpiral => "Spiral"@,
            LedMode::Raindrops => "Raindrops"@,
            LedMode::Splash => "Splash"@,
            LedMode::Multisplash => "Multisplash"@,
            LedMode::ActiveKeys => "Active Keys"@,
            LedMode::Disabled => "Disabled"@,
            LedMode::Last => "Last"@,
        }
    }

    /// Human-readable name, for presentation layers.
    pub fn name(self) -> (r: String)
        ensures
            r@ == self.name_spec(),
    {
        match self {
            LedMode::SolidColor => "Solid Color".to_owned(),
            LedMode::PerKey => "Per Key".to_owned(),
            LedMode::CycleAll => "Cycle All".to_owned(),
            LedMode::CycleLeftRight => "Cycle Left to Right".to_owned(),
            LedMode::CycleUpDown => "Cycle Up to Down".to_owned(),
            LedMode::CycleOutIn => "Cycle Out to In".to_owned(),
            LedMode::CycleOutInDual => "Cycle Out to In Dual".to_owned(),
            LedMode::RainbowMovingChevron => "Rainbow Chevron".to_owned(),
            LedMode::CyclePinwheel => "Pinwheel".to_owned(),
            LedMode::CycleSpiral => "Spiral".to_owned(),
            LedMode::Raindrops => "Raindrops".to_owned(),
            LedMode::Splash => "Splash".to_owned(),
            LedMode::Multisplash => "Multisplash".to_owned(),
            LedMode::ActiveKeys => "Active Keys".to_owned(),
            LedMode::Disabled => "Disabled".to_owned(),
            LedMode::Last => "Last".to_owned(),
        }
    }
}

/// Law: decoding the encoding of any mode yields that same mode, for every
/// one of the sixteen modes.
pub proof fn lemma_mode_round_trip(m: LedMode)
    ensures
        LedMode::decode_spec(m.ordinal()) == Ok::<LedMode, LaunchError>(m),
{
}

/// Law: every byte above the last ordinal is rejected with an unknown-mode
/// error carrying that byte; no byte outside `0..=15` decodes to a mode.
pub proof fn lemma_unknown_mode_rejected(value: u8)
    requires
        value > 15,
    ensures
        LedMode::decode_spec(value) == Err::<LedMode, LaunchError>(
            LaunchError::UnknownLedMode(value),
        ),
{
}

} // verus!
