//! The hat-switch remapping policy: hold the key of the current
//! direction, exchanging keys atomically when the direction changes.

use vstd::prelude::*;

use crate::config::HatSwitchInput;
use crate::errors::ConfigError;
use crate::key_code::convert_key_codes;
use crate::key_code::spec_converted_key_codes;
use crate::key_code::spec_key_codes_error;
use crate::key_event::KeyEvent;

verus! {

/// The first configuration error in a hat-switch payload, in
/// validation order: the direction count first, then key-code range
/// errors.
pub open spec fn spec_hat_switch_config_error(input: HatSwitchInput) -> Option<ConfigError> {
    if input.key_codes@.len() != 4 && input.key_codes@.len() != 8 {
        Some(ConfigError::WrongHatSwitchKeyCodeCount(input.key_codes@.len() as usize))
    } else {
        spec_key_codes_error(input.key_codes@)
    }
}

/// The key a sample resolves to against a direction table: the
/// configured key of its direction, or `0` ("no direction") when the
/// value lies outside the table.
pub open spec fn spec_hat_current_key_code(key_codes: Seq<i8>, value: i32) -> i8 {
    if 0 <= value < key_codes.len() {
        key_codes[value as int]
    } else {
        0
    }
}

/// Remaps a hat switch to one key per discrete direction.  The sampled
/// value indexes the configured key codes; a value outside the
/// sequence (such as the "centered" sentinel an 8-way hat emits) means
/// "no direction", written as key code `0`.  Stateful: the previously
/// resolved key code is remembered so that only transitions emit
/// events.
#[derive(Clone, Debug, PartialEq, Eq)]
pub struct HatSwitchRemapper {
    key_codes: Vec<i8>,
    last_key_code: i8,
}

impl HatSwitchRemapper {
    /// The keys of the directions, in direction order.
    pub closed spec fn spec_key_codes(self) -> Seq<i8> {
        self.key_codes@
    }

    /// The key resolved by the previous sample, or `0` before any
    /// sample and after a "no direction" sample.
    pub closed spec fn spec_last_key_code(self) -> i8 {
        self.last_key_code
    }

    /// A configured hat switch has one key per direction: four or
    /// eight of them.
    pub open spec fn wf(self) -> bool {
        self.spec_key_codes().len() == 4 || self.spec_key_codes().len() == 8
    }

    /// The key a sample resolves to, per [`spec_hat_current_key_code`].
    pub open spec fn spec_current_key_code(self, value: i32) -> i8 {
        spec_hat_current_key_code(self.spec_key_codes(), value)
    }

    /// The event a sample produces, given the previously resolved key
    /// `last` and the newly resolved key `current`:
    ///
    /// * no change: no event;
    /// * from "no direction" to a key: press it;
    /// * from a key to "no direction": release the old key;
    /// * from key to key: one atomic release-then-press exchange, so an
    ///   observer never sees both keys up.
    pub open spec fn spec_transition(last: i8, current: i8) -> Option<KeyEvent> {
        if current == last {
            None
        } else if last == 0 {
            Some(KeyEvent::Press(current))
        } else if current == 0 {
            Some(KeyEvent::Release(last))
        } else {
            Some(KeyEvent::ReleaseAndPress { to_release: last, to_press: current })
        }
    }

    /// The event a sample produces from this state.
    pub open spec fn spec_remap(self, value: i32) -> Option<KeyEvent> {
        Self::spec_transition(self.spec_last_key_code(), self.spec_current_key_code(value))
    }

    /// Builds the policy from its configuration payload, per
    /// [`spec_hat_switch_config_error`]; the remembered key starts at
    /// "no direction".
    pub fn try_from_input(input: &HatSwitchInput) -> (result: Result<
        HatSwitchRemapper,
        ConfigError,
    >)
        ensures
            match result {
                Ok(remapper) => {
                    &&& spec_hat_switch_config_error(*input) is None
                    &&& remapper.wf()
                    &&& remapper.spec_key_codes() == spec_converted_key_codes(input.key_codes@)
                    &&& remapper.spec_last_key_code() == 0
                },
                Err(error) => Some(error) == spec_hat_switch_config_error(*input),
            },
    {
        let num_key_codes = input.key_codes.len();
        if num_key_codes != 4 && num_key_codes != 8 {
            return Err(ConfigError::WrongHatSwitchKeyCodeCount(num_key_codes));
        }
        match convert_key_codes(&input.key_codes) {
            Ok(key_codes) => Ok(HatSwitchRemapper { key_codes, last_key_code: 0 }),
            Err(error) => Err(error),
        }
    }

    /// Remaps one sample, per [`HatSwitchRemapper::spec_remap`].  The
    /// remembered key becomes the newly resolved one on every call,
    /// including when the result is "no direction" or no event.
    pub fn remap(&mut self, value: i32) -> (result: Option<KeyEvent>)
        requires
            old(self).wf(),
        ensures
            final(self).wf(),
            final(self).spec_key_codes() == old(self).spec_key_codes(),
            final(self).spec_last_key_code() == old(self).spec_current_key_code(value),
            result == old(self).spec_remap(value),
    {
        let current_key_code: i8 = if 0 <= value && (value as usize) < self.key_codes.len() {
            self.key_codes[value as usize]
        } else {
            0
        };
        let last_key_code = self.last_key_code;
        self.last_key_code = current_key_code;
        if current_key_code == last_key_code {
            None
        } else if last_key_code == 0 {
            Some(KeyEvent::Press(current_key_code))
        } else if current_key_code == 0 {
            Some(KeyEvent::Release(last_key_code))
        } else {
            Some(
                KeyEvent::ReleaseAndPress {
                    to_release: last_key_code,
                    to_press: current_key_code,
                },
            )
        }
    }
}

} // verus!
