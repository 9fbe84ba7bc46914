//! Key-code range validation.
//!
//! Configured key codes arrive as 32-bit integers but the keyboard
//! report stores single signed bytes; every configured code must fit,
//! and an out-of-range code is a configuration error, never a panic.

use vstd::prelude::*;

use crate::errors::ConfigError;

verus! {

/// Whether a configured key code fits the signed-byte key-code space.
pub open spec fn key_code_fits(value: i32) -> bool {
    i8::MIN <= value <= i8::MAX
}

/// The first range error among a sequence of configured key codes, in
/// order, or `None` when every code fits.
pub open spec fn spec_key_codes_error(key_codes: Seq<i32>) -> Option<ConfigError>
    decreases key_codes.len(),
{
    if key_codes.len() == 0 {
        None
    } else if !key_code_fits(key_codes[0]) {
        Some(ConfigError::KeyCodeOutOfRange(key_codes[0]))
    } else {
        spec_key_codes_error(key_codes.drop_first())
    }
}

/// The converted form of a sequence of fitting key codes.
pub open spec fn spec_converted_key_codes(key_codes: Seq<i32>) -> Seq<i8> {
    key_codes.map_values(|value: i32| value as i8)
}

/// When every code up to `i` fits and the code at `i` does not, the
/// first range error is the one at `i`.
proof fn lemma_key_codes_error_at(key_codes: Seq<i32>, i: int)
    requires
        0 <= i < key_codes.len(),
        forall|j: int| 0 <= j < i ==> key_code_fits(key_codes[j]),
        !key_code_fits(key_codes[i]),
    ensures
        spec_key_codes_error(key_codes) == Some(ConfigError::KeyCodeOutOfRange(key_codes[i])),
    decreases i,
{
    if i > 0 {
        lemma_key_codes_error_at(key_codes.drop_first(), i - 1);
    }
}

/// When every code fits there is no range error.
proof fn lemma_key_codes_error_none(key_codes: Seq<i32>)
    requires
        forall|j: int| 0 <= j < key_codes.len() ==> key_code_fits(key_codes[j]),
    ensures
        spec_key_codes_error(key_codes) is None,
    decreases key_codes.len(),
{
    if key_codes.len() > 0 {
        lemma_key_codes_error_none(key_codes.drop_first());
    }
}

/// Converts one configured key code, rejecting values outside the
/// signed-byte range.
pub fn convert_key_code(key_code: i32) -> (result: Result<i8, ConfigError>)
    ensures
        key_code_fits(key_code) ==> result == Ok::<i8, ConfigError>(key_code as i8),
        !key_code_fits(key_code) ==> result == Err::<i8, ConfigError>(
            ConfigError::KeyCodeOutOfRange(key_code),
        ),
{
    if -128 <= key_code && key_code <= 127 {
        Ok(key_code as i8)
    } else {
        Err(ConfigError::KeyCodeOutOfRange(key_code))
    }
}

/// Converts a sequence of configured key codes, stopping at the first
/// value outside the signed-byte range.
pub fn convert_key_codes(key_codes: &Vec<i32>) -> (result: Result<Vec<i8>, ConfigError>)
    ensures
        match result {
            Ok(converted) => {
                &&& spec_key_codes_error(key_codes@) is None
                &&& converted@ == spec_converted_key_codes(key_codes@)
            },
            Err(error) => Some(error) == spec_key_codes_error(key_codes@),
        },
{
    let mut converted: Vec<i8> = Vec::new();
    let mut i: usize = 0;
    while i < key_codes.len()
        invariant
            i <= key_codes@.len(),
            converted@.len() == i,
            forall|j: int| 0 <= j < i ==> key_code_fits(key_codes@[j]),
            forall|j: int| 0 <= j < i ==> converted@[j] == key_codes@[j] as i8,
        decreases key_codes@.len() - i,
    {
        match convert_key_code(key_codes[i]) {
            Ok(code) => converted.push(code),
            Err(error) => {
                proof {
                    lemma_key_codes_error_at(key_codes@, i as int);
                }
                return Err(error);
            },
        }
        i = i + 1;
    }
    proof {
        lemma_key_codes_error_none(key_codes@);
        assert(converted@ =~= spec_converted_key_codes(key_codes@));
    }
    Ok(converted)
}

} // verus!
