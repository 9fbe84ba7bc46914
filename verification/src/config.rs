//! The structured remapping configuration.
//!
//! The host's configuration loader parses its file format and hands the
//! registry these plain values.  Coarse typing is the loader's job; the
//! fine-grained validation (key-code ranges, code counts, interval
//! formation, payload/kind compatibility) happens in this library when
//! a registry is loaded.

use vstd::prelude::*;

verus! {

/// Configuration payload for a button mapping.
#[derive(Clone, Debug, PartialEq, Eq)]
pub struct ButtonInput {
    pub key_code: i32,
}

/// Configuration payload for an axis mapping: an ordered sequence of
/// key codes spread over the value range `min_value..=max_value`, with
/// the range walked backwards when `reverse_axis` is set.
#[derive(Clone, Debug, PartialEq, Eq)]
pub struct AxisInput {
    pub key_codes: Vec<i32>,
    pub min_value: i32,
    pub max_value: i32,
    pub reverse_axis: bool,
}

/// Configuration payload for a hat-switch mapping: one key code per
/// discrete direction, so exactly four or eight of them.
#[derive(Clone, Debug, PartialEq, Eq)]
pub struct HatSwitchInput {
    pub key_codes: Vec<i32>,
}

/// Configuration payload for a toggle-switch mapping.
#[derive(Clone, Debug, PartialEq, Eq)]
pub struct ToggleSwitchInput {
    pub on_key_code: i32,
    pub off_key_code: i32,
}

/// The typed payload of one remapping entry: exactly one variant per
/// entry.
#[derive(Clone, Debug, PartialEq, Eq)]
pub enum RemappedInput {
    Button(ButtonInput),
    Axis(AxisInput),
    HatSwitch(HatSwitchInput),
    ToggleSwitch(ToggleSwitchInput),
}

/// One remapping entry: the ordinal of the input channel it binds,
/// and the payload describing the mapping.
#[derive(Clone, Debug, PartialEq, Eq)]
pub struct IndexedInput {
    pub index: i32,
    pub input: RemappedInput,
}

/// One group of remapping entries, keyed by the name of the input type
/// its entries bind (for example `"button"` or `"z-axis"`).
#[derive(Clone, Debug, PartialEq, Eq)]
pub struct InputGroup {
    pub input_type_name: String,
    pub inputs: Vec<IndexedInput>,
}

/// A complete remapping configuration: the groups for each device role.
#[derive(Clone, Debug, PartialEq, Eq)]
pub struct InputRemapping {
    pub joystick_inputs: Vec<InputGroup>,
    pub throttle_inputs: Vec<InputGroup>,
}

} // verus!
