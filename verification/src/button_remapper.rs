//! The button remapping policy: hold a key while the button is held.

use vstd::prelude::*;

use crate::config::ButtonInput;
use crate::errors::ConfigError;
use crate::key_code::convert_key_code;
use crate::key_code::key_code_fits;
use crate::key_event::KeyEvent;

verus! {

/// The configuration error in a button payload: a key code outside
/// the signed-byte space.
pub open spec fn spec_button_config_error(input: ButtonInput) -> Option<ConfigError> {
    if !key_code_fits(input.key_code) {
        Some(ConfigError::KeyCodeOutOfRange(input.key_code))
    } else {
        None
    }
}

/// Remaps a button channel to one key: the key is pressed while the
/// button reads non-zero and released when it reads zero.  Stateless: a
/// pure function of the current sample.
#[derive(Clone, Copy, Debug, PartialEq, Eq, Structural)]
pub struct ButtonRemapper {
    key_code: i8,
}

impl ButtonRemapper {
    /// The key this button is bound to.
    pub closed spec fn spec_key_code(self) -> i8 {
        self.key_code
    }

    /// The event a sample produces: a press for any non-zero value, a
    /// release for zero.
    pub open spec fn spec_remap(self, value: i32) -> Option<KeyEvent> {
        if value != 0 {
            Some(KeyEvent::Press(self.spec_key_code()))
        } else {
            Some(KeyEvent::Release(self.spec_key_code()))
        }
    }

    /// Builds the policy from its configuration payload; the key code
    /// must fit the signed-byte key-code space.
    pub fn try_from_input(input: &ButtonInput) -> (result: Result<ButtonRemapper, ConfigError>)
        ensures
            match result {
                Ok(remapper) => {
                    &&& spec_button_config_error(*input) is None
                    &&& remapper.spec_key_code() == input.key_code as i8
                },
                Err(error) => Some(error) == spec_button_config_error(*input),
            },
    {
        match convert_key_code(input.key_code) {
            Ok(key_code) => Ok(ButtonRemapper { key_code }),
            Err(error) => Err(error),
        }
    }

    /// Remaps one sample, per [`ButtonRemapper::spec_remap`].
    pub fn remap(&self, value: i32) -> (result: Option<KeyEvent>)
        ensures
            result == self.spec_remap(value),
    {
        Some(
            if value != 0 {
                KeyEvent::Press(self.key_code)
            } else {
                KeyEvent::Release(self.key_code)
            },
        )
    }
}

} // verus!
