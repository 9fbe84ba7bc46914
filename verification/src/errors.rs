//! Configuration errors.
//!
//! Every error is surfaced synchronously while a configuration is
//! validated; nothing in this library panics on bad configuration.

use vstd::prelude::*;

verus! {

/// Why a remapping configuration or a settings value was rejected.
#[derive(Clone, Copy, Debug, PartialEq, Eq, Structural)]
pub enum ConfigError {
    /// A configured key code does not fit the signed-byte key-code
    /// space of the keyboard report; carries the offending value.
    KeyCodeOutOfRange(i32),
    /// An axis mapping names fewer than two key codes, so no interval
    /// can be formed; carries the count found.
    TooFewAxisKeyCodes(usize),
    /// An axis mapping's minimum and maximum values coincide, so no
    /// value can be quantized.
    InvalidAxisRange,
    /// A hat-switch mapping names neither four nor eight key codes;
    /// carries the count found.
    WrongHatSwitchKeyCodeCount(usize),
    /// A configuration group is keyed by a name that denotes no input
    /// type.
    UnknownInputTypeName,
    /// An entry's payload kind does not fit the input type its group is
    /// keyed by.
    MismatchedInputPayload,
    /// The configured RFCOMM channel id does not fit in a byte; carries
    /// the offending value.
    InvalidRfcommChannelId(i32),
    /// The configured rate-limiting threshold is negative; carries the
    /// offending value.
    NegativeRateLimitingThreshold(i32),
}

} // verus!
