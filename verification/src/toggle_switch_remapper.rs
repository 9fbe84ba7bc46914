//! The toggle-switch remapping policy: pulse one of two keys.

use vstd::prelude::*;

use crate::config::ToggleSwitchInput;
use crate::errors::ConfigError;
use crate::key_code::convert_key_code;
use crate::key_code::key_code_fits;
use crate::key_event::KeyEvent;

verus! {

/// The first configuration error in a toggle-switch payload, in
/// validation order: the "on" code, then the "off" code.
pub open spec fn spec_toggle_switch_config_error(input: ToggleSwitchInput) -> Option<ConfigError> {
    if !key_code_fits(input.on_key_code) {
        Some(ConfigError::KeyCodeOutOfRange(input.on_key_code))
    } else if !key_code_fits(input.off_key_code) {
        Some(ConfigError::KeyCodeOutOfRange(input.off_key_code))
    } else {
        None
    }
}

/// Remaps a two-position switch to a pair of keys: every sample pulses
/// the "on" key when the value is non-zero, else the "off" key.
/// Stateless: a pure function of the current sample.
#[derive(Clone, Copy, Debug, PartialEq, Eq, Structural)]
pub struct ToggleSwitchRemapper {
    on_key_code: i8,
    off_key_code: i8,
}

impl ToggleSwitchRemapper {
    /// The key pulsed when the switch reads non-zero.
    pub closed spec fn spec_on_key_code(self) -> i8 {
        self.on_key_code
    }

    /// The key pulsed when the switch reads zero.
    pub closed spec fn spec_off_key_code(self) -> i8 {
        self.off_key_code
    }

    /// The event a sample produces: an atomic press-and-release pulse
    /// of the key matching the switch position.
    pub open spec fn spec_remap(self, value: i32) -> Option<KeyEvent> {
        if value != 0 {
            Some(KeyEvent::PressAndRelease(self.spec_on_key_code()))
        } else {
            Some(KeyEvent::PressAndRelease(self.spec_off_key_code()))
        }
    }

    /// Builds the policy from its configuration payload; the "on" code
    /// is validated first, then the "off" code.
    pub fn try_from_input(input: &ToggleSwitchInput) -> (result: Result<
        ToggleSwitchRemapper,
        ConfigError,
    >)
        ensures
            match result {
                Ok(remapper) => {
                    &&& spec_toggle_switch_config_error(*input) is None
                    &&& remapper.spec_on_key_code() == input.on_key_code as i8
                    &&& remapper.spec_off_key_code() == input.off_key_code as i8
                },
                Err(error) => Some(error) == spec_toggle_switch_config_error(*input),
            },
    {
        let on_key_code = match convert_key_code(input.on_key_code) {
            Ok(code) => code,
            Err(error) => {
                return Err(error);
            },
        };
        let off_key_code = match convert_key_code(input.off_key_code) {
            Ok(code) => code,
            Err(error) => {
                return Err(error);
            },
        };
        Ok(ToggleSwitchRemapper { on_key_code, off_key_code })
    }

    /// Remaps one sample, per [`ToggleSwitchRemapper::spec_remap`].
    pub fn remap(&self, value: i32) -> (result: Option<KeyEvent>)
        ensures
            result == self.spec_remap(value),
    {
        let key_code = if value != 0 {
            self.on_key_code
        } else {
            self.off_key_code
        };
        Some(KeyEvent::PressAndRelease(key_code))
    }
}

} // verus!
