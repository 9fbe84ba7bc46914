//! The axis remapping policy: quantize a continuous value to one of N
//! keys and pulse that key on every sample.

use vstd::prelude::*;

use crate::config::AxisInput;
use crate::errors::ConfigError;
use crate::key_code::convert_key_codes;
use crate::key_code::spec_converted_key_codes;
use crate::key_code::spec_key_codes_error;
use crate::key_event::KeyEvent;

verus! {

/// The first configuration error in an axis payload, in validation
/// order: key-code range errors first, then too few key codes, then a
/// degenerate value range.
pub open spec fn spec_axis_config_error(input: AxisInput) -> Option<ConfigError> {
    match spec_key_codes_error(input.key_codes@) {
        Some(error) => Some(error),
        None => if input.key_codes@.len() < 2 {
            Some(ConfigError::TooFewAxisKeyCodes(input.key_codes@.len() as usize))
        } else if input.min_value == input.max_value {
            Some(ConfigError::InvalidAxisRange)
        } else {
            None
        },
    }
}

/// The bucket a sample falls in, among `buckets` buckets spread over
/// the signed range of width `span` starting at `min_value`: the
/// nearest bucket index to `(value - min_value) * (buckets - 1) /
/// span`, ties rounding toward the higher index, clamped into the
/// valid range.
pub open spec fn spec_axis_index(buckets: int, min_value: int, span: int, value: i32) -> int {
    let num = (value - min_value) * (buckets - 1);
    let pos_num = if span < 0 {
        -num
    } else {
        num
    };
    let pos_den = if span < 0 {
        -span
    } else {
        span
    };
    let rounded = (2 * pos_num + pos_den) / (2 * pos_den);
    if rounded < 0 {
        0
    } else if rounded > buckets - 1 {
        buckets - 1
    } else {
        rounded
    }
}

/// Remaps an axis channel to an ordered sequence of keys by
/// nearest-bucket quantization over the configured value range.  Every
/// sample pulses the key of its bucket, whether or not the bucket
/// changed since the previous sample: collapsing duplicate pulses is
/// the rate limiter's job.  Stateless: a pure function of the current
/// sample.
#[derive(Clone, Debug, PartialEq, Eq)]
pub struct AxisRemapper {
    key_codes: Vec<i8>,
    min_value: i64,
    span: i64,
}

impl AxisRemapper {
    /// The keys of the buckets, lowest bucket first.
    pub closed spec fn spec_key_codes(self) -> Seq<i8> {
        self.key_codes@
    }

    /// The value mapped to the first bucket (the configured maximum
    /// when the axis is reversed).
    pub closed spec fn spec_min_value(self) -> int {
        self.min_value as int
    }

    /// The width of the whole range, signed: the value mapped to the
    /// last bucket minus [`AxisRemapper::spec_min_value`].
    pub closed spec fn spec_span(self) -> int {
        self.span as int
    }

    /// A configured axis always has at least two buckets, a non-empty
    /// range, and bounds drawn from 32-bit configuration values.
    pub open spec fn wf(self) -> bool {
        &&& 2 <= self.spec_key_codes().len()
        &&& self.spec_span() != 0
        &&& i32::MIN <= self.spec_min_value() <= i32::MAX
        &&& -(u32::MAX as int) <= self.spec_span() <= u32::MAX as int
    }

    /// The bucket a sample falls in, per [`spec_axis_index`].
    pub open spec fn spec_index(self, value: i32) -> int {
        spec_axis_index(
            self.spec_key_codes().len() as int,
            self.spec_min_value(),
            self.spec_span(),
            value,
        )
    }

    /// The event a sample produces: an atomic press-and-release pulse
    /// of the key of the sample's bucket.
    pub open spec fn spec_remap(self, value: i32) -> Option<KeyEvent>
        recommends
            self.wf(),
    {
        Some(KeyEvent::PressAndRelease(self.spec_key_codes()[self.spec_index(value)]))
    }

    /// Builds the policy from its configuration payload, per
    /// [`spec_axis_config_error`]: every key code must fit the
    /// signed-byte space, at least two are needed to form an interval,
    /// and the value range must not be empty.  When the axis is
    /// reversed the range bounds swap roles.
    pub fn try_from_input(input: &AxisInput) -> (result: Result<AxisRemapper, ConfigError>)
        ensures
            match result {
                Ok(remapper) => {
                    &&& spec_axis_config_error(*input) is None
                    &&& remapper.wf()
                    &&& remapper.spec_key_codes() == spec_converted_key_codes(input.key_codes@)
                    &&& remapper.spec_min_value() == if input.reverse_axis {
                        input.max_value as int
                    } else {
                        input.min_value as int
                    }
                    &&& remapper.spec_span() == if input.reverse_axis {
                        input.min_value - input.max_value
                    } else {
                        input.max_value - input.min_value
                    }
                },
                Err(error) => Some(error) == spec_axis_config_error(*input),
            },
    {
        let key_codes = match convert_key_codes(&input.key_codes) {
            Ok(codes) => codes,
            Err(error) => {
                return Err(error);
            },
        };
        if key_codes.len() < 2 {
            return Err(ConfigError::TooFewAxisKeyCodes(key_codes.len()));
        }
        if input.min_value == input.max_value {
            return Err(ConfigError::InvalidAxisRange);
        }
        let (min_value, max_value) = if !input.reverse_axis {
            (input.min_value, input.max_value)
        } else {
            (input.max_value, input.min_value)
        };
        let span = (max_value as i64) - (min_value as i64);
        Ok(AxisRemapper { key_codes, min_value: min_value as i64, span })
    }

    /// Remaps one sample, per [`AxisRemapper::spec_remap`].
    pub fn remap(&self, value: i32) -> (result: Option<KeyEvent>)
        requires
            self.wf(),
        ensures
            result == self.spec_remap(value),
    {
        let buckets = self.key_codes.len();
        let diff: i128 = (value as i128) - (self.min_value as i128);
        proof {
            assert(-0x1_0000_0000 <= diff <= 0x1_0000_0000);
            assert((buckets - 1) as i128 <= 0xffff_ffff_ffff_ffff) by {
                assert(buckets <= usize::MAX);
            }
            assert(diff * ((buckets - 1) as i128) <= 0x1_0000_0000 * 0x1_0000_0000_0000_0000
                && -(0x1_0000_0000 * 0x1_0000_0000_0000_0000) <= diff * ((buckets - 1) as i128))
                by (nonlinear_arith)
                requires
                    -0x1_0000_0000 <= diff <= 0x1_0000_0000,
                    0 <= (buckets - 1) as i128 <= 0xffff_ffff_ffff_ffff,
            ;
        }
        let num: i128 = diff * ((buckets - 1) as i128);
        let den: i128 = self.span as i128;
        let (pos_num, pos_den) = if den < 0 {
            (-num, -den)
        } else {
            (num, den)
        };
        let t: i128 = 2 * pos_num + pos_den;
        let ghost spec_rounded = (2 * pos_num + pos_den as int) / (2 * pos_den as int);
        let index: usize = if t < 0 {
            proof {
                lemma_neg_div_pos_is_neg(t as int, 2 * pos_den as int);
            }
            0
        } else {
            let q: i128 = t / (2 * pos_den);
            proof {
                assert(q == spec_rounded);
                assert(q >= 0) by {
                    lemma_nonneg_div_pos_is_nonneg(t as int, 2 * pos_den as int);
                }
            }
            if q > (buckets - 1) as i128 {
                buckets - 1
            } else {
                q as usize
            }
        };
        Some(KeyEvent::PressAndRelease(self.key_codes[index]))
    }
}

/// Dividing a negative value by a positive one yields a negative
/// quotient.
proof fn lemma_neg_div_pos_is_neg(a: int, d: int)
    requires
        a < 0,
        d > 0,
    ensures
        a / d < 0,
{
    assert(a / d < 0) by (nonlinear_arith)
        requires
            a < 0,
            d > 0,
    ;
}

/// Dividing a non-negative value by a positive one yields a
/// non-negative quotient.
proof fn lemma_nonneg_div_pos_is_nonneg(a: int, d: int)
    requires
        a >= 0,
        d > 0,
    ensures
        a / d >= 0,
{
    assert(a / d >= 0) by (nonlinear_arith)
        requires
            a >= 0,
            d > 0,
    ;
}

} // verus!
