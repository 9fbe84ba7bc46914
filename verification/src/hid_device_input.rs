//! Classification of raw device elements into semantic input channels.
//!
//! Each element a device enumerates carries a transport-assigned
//! identifier (its cookie), an element type and a usage code.  The
//! classifier turns that pair of plain integers into an [`InputType`]
//! and assigns the element a dense, zero-based ordinal per input type,
//! in enumeration order.

use vstd::prelude::*;

verus! {

/// Element type code for miscellaneous inputs (axes, hats, and other
/// non-button values), as reported by the HID element tables.
pub const ELEMENT_TYPE_INPUT_MISC: u32 = 1;

/// Element type code for button inputs.
pub const ELEMENT_TYPE_INPUT_BUTTON: u32 = 2;

/// Element type code for null inputs.
pub const ELEMENT_TYPE_INPUT_NULL: u32 = 5;

/// Element type code for output elements.
pub const ELEMENT_TYPE_OUTPUT: u32 = 129;

/// Element type code for collection elements.
pub const ELEMENT_TYPE_COLLECTION: u32 = 513;

/// First generic-desktop axis usage (X axis); everything below it on a
/// miscellaneous-input element is intentionally ignored.
pub const USAGE_GD_X: u32 = 0x30;

/// Generic-desktop usage for the Y axis.
pub const USAGE_GD_Y: u32 = 0x31;

/// Generic-desktop usage for the Z axis.
pub const USAGE_GD_Z: u32 = 0x32;

/// Generic-desktop usage for the Rx axis.
pub const USAGE_GD_RX: u32 = 0x33;

/// Generic-desktop usage for the Ry axis.
pub const USAGE_GD_RY: u32 = 0x34;

/// Generic-desktop usage for the Rz axis.
pub const USAGE_GD_RZ: u32 = 0x35;

/// Generic-desktop usage for sliders.
pub const USAGE_GD_SLIDER: u32 = 0x36;

/// Generic-desktop usage for hat switches.
pub const USAGE_GD_HATSWITCH: u32 = 0x39;

/// The semantic kind of a classified input channel.  `Other` marks
/// elements that are intentionally unmapped (collections, outputs,
/// ignored usage ranges); such elements never produce key events.
#[derive(Clone, Copy, Debug, PartialEq, Eq, Structural)]
pub enum InputType {
    Button,
    Hat,
    XAxis,
    YAxis,
    ZAxis,
    RxAxis,
    RyAxis,
    RzAxis,
    Slider,
    Other,
}

/// The number of distinct [`InputType`] variants; ordinal counters are
/// kept in an array of this length.
pub const INPUT_TYPE_COUNT: usize = 10;

impl InputType {
    /// A dense index for this input type, used to address its ordinal
    /// counter.
    pub open spec fn type_id(self) -> int {
        match self {
            InputType::Button => 0,
            InputType::Hat => 1,
            InputType::XAxis => 2,
            InputType::YAxis => 3,
            InputType::ZAxis => 4,
            InputType::RxAxis => 5,
            InputType::RyAxis => 6,
            InputType::RzAxis => 7,
            InputType::Slider => 8,
            InputType::Other => 9,
        }
    }

    /// Executable counterpart of [`InputType::type_id`].
    pub fn type_index(&self) -> (index: usize)
        ensures
            index == self.type_id(),
            index < INPUT_TYPE_COUNT,
    {
        match self {
            InputType::Button => 0,
            InputType::Hat => 1,
            InputType::XAxis => 2,
            InputType::YAxis => 3,
            InputType::ZAxis => 4,
            InputType::RxAxis => 5,
            InputType::RyAxis => 6,
            InputType::RzAxis => 7,
            InputType::Slider => 8,
            InputType::Other => 9,
        }
    }

    /// Parses a configuration group name into the input type it
    /// denotes, per [`spec_input_type_from_name`].
    pub fn try_from_name(name: &str) -> (result: Option<InputType>)
        ensures
            result == spec_input_type_from_name(name@),
    {
        if crate::strings::str_eq(name, "button") {
            Some(InputType::Button)
        } else if crate::strings::str_eq(name, "hat") {
            Some(InputType::Hat)
        } else if crate::strings::str_eq(name, "x-axis") {
            Some(InputType::XAxis)
        } else if crate::strings::str_eq(name, "y-axis") {
            Some(InputType::YAxis)
        } else if crate::strings::str_eq(name, "z-axis") {
            Some(InputType::ZAxis)
        } else if crate::strings::str_eq(name, "rx-axis") {
            Some(InputType::RxAxis)
        } else if crate::strings::str_eq(name, "ry-axis") {
            Some(InputType::RyAxis)
        } else if crate::strings::str_eq(name, "rz-axis") {
            Some(InputType::RzAxis)
        } else if crate::strings::str_eq(name, "slider") {
            Some(InputType::Slider)
        } else {
            None
        }
    }
}

/// Which [`InputType`] a configuration group name denotes, or `None`
/// for an unknown name.  `Other` has no name: configuration entries can
/// never bind intentionally unmapped channels.
pub open spec fn spec_input_type_from_name(name: Seq<char>) -> Option<InputType> {
    if name == "button"@ {
        Some(InputType::Button)
    } else if name == "hat"@ {
        Some(InputType::Hat)
    } else if name == "x-axis"@ {
        Some(InputType::XAxis)
    } else if name == "y-axis"@ {
        Some(InputType::YAxis)
    } else if name == "z-axis"@ {
        Some(InputType::ZAxis)
    } else if name == "rx-axis"@ {
        Some(InputType::RxAxis)
    } else if name == "ry-axis"@ {
        Some(InputType::RyAxis)
    } else if name == "rz-axis"@ {
        Some(InputType::RzAxis)
    } else if name == "slider"@ {
        Some(InputType::Slider)
    } else {
        None
    }
}

/// The classification policy: which [`InputType`] a raw element of the
/// given element type and usage code belongs to, or `None` when the
/// combination is unrecognized and the element must be omitted.
pub open spec fn spec_classify(element_type: u32, usage: u32) -> Option<InputType> {
    if element_type == ELEMENT_TYPE_INPUT_BUTTON {
        Some(InputType::Button)
    } else if element_type == ELEMENT_TYPE_INPUT_MISC {
        if usage < USAGE_GD_X {
            Some(InputType::Other)
        } else if usage == USAGE_GD_X {
            Some(InputType::XAxis)
        } else if usage == USAGE_GD_Y {
            Some(InputType::YAxis)
        } else if usage == USAGE_GD_Z {
            Some(InputType::ZAxis)
        } else if usage == USAGE_GD_RX {
            Some(InputType::RxAxis)
        } else if usage == USAGE_GD_RY {
            Some(InputType::RyAxis)
        } else if usage == USAGE_GD_RZ {
            Some(InputType::RzAxis)
        } else if usage == USAGE_GD_SLIDER {
            Some(InputType::Slider)
        } else if usage == USAGE_GD_HATSWITCH {
            Some(InputType::Hat)
        } else {
            None
        }
    } else if element_type == ELEMENT_TYPE_INPUT_NULL || element_type == ELEMENT_TYPE_OUTPUT
        || element_type == ELEMENT_TYPE_COLLECTION {
        Some(InputType::Other)
    } else {
        None
    }
}

/// The plain properties of one enumerated device element: its
/// transport-assigned identifier and the element type and usage code
/// that drive classification.
#[derive(Clone, Copy, Debug, PartialEq, Eq, Structural)]
pub struct ElementProperty {
    pub identifier: u32,
    pub element_type: u32,
    pub usage: u32,
}

/// One per-type ordinal counter for each [`InputType`], used while a
/// device's elements are classified.  The counter state is exactly the
/// set of inputs discovered in one enumeration pass and is rebuilt on
/// every device open.
pub struct InputIndexTracker {
    counters: Vec<i32>,
}

impl InputIndexTracker {
    /// The tracker always holds one non-negative counter per input type.
    pub closed spec fn wf(self) -> bool {
        &&& self.counters@.len() == INPUT_TYPE_COUNT
        &&& forall|i: int| 0 <= i < self.counters@.len() ==> self.counters@[i] >= 0
    }

    /// The counter for the given input type.
    pub closed spec fn count_of(self, input_type: InputType) -> int {
        self.counters@[input_type.type_id()] as int
    }

    /// A fresh tracker with every counter at zero.
    pub fn new() -> (tracker: Self)
        ensures
            tracker.wf(),
            forall|t: InputType| tracker.count_of(t) == 0,
    {
        let mut counters: Vec<i32> = Vec::new();
        let mut i: usize = 0;
        while i < INPUT_TYPE_COUNT
            invariant
                i <= INPUT_TYPE_COUNT,
                counters@.len() == i,
                forall|j: int| 0 <= j < i ==> counters@[j] == 0,
            decreases INPUT_TYPE_COUNT - i,
        {
            counters.push(0);
            i = i + 1;
        }
        InputIndexTracker { counters }
    }

    /// Hands out the next ordinal for `input_type`: the current counter
    /// value, which is then incremented.  Counters of other types are
    /// untouched.
    pub fn next_index(&mut self, input_type: InputType) -> (index: i32)
        requires
            old(self).wf(),
            old(self).count_of(input_type) < i32::MAX,
        ensures
            final(self).wf(),
            index == old(self).count_of(input_type),
            final(self).count_of(input_type) == old(self).count_of(input_type) + 1,
            forall|t: InputType|
                t.type_id() != input_type.type_id() ==> final(self).count_of(t) == old(
                    self,
                ).count_of(t),
    {
        let slot = input_type.type_index();
        let current = self.counters[slot];
        self.counters.set(slot, current + 1);
        current
    }
}

/// A classified input channel: its semantic kind and its zero-based
/// ordinal among channels of the same kind, in enumeration order.
#[derive(Clone, Copy, Debug, PartialEq, Eq, Structural)]
pub struct DeviceInput {
    pub input_type: InputType,
    pub index: i32,
}

impl DeviceInput {
    /// Classifies one enumerated element.  A recognized element yields
    /// its identifier together with the new channel, and bumps the
    /// ordinal counter of its input type; an unrecognized element yields
    /// `None` and leaves the tracker untouched.
    pub fn try_new(element: &ElementProperty, index_tracker: &mut InputIndexTracker) -> (result:
        Option<(u32, DeviceInput)>)
        requires
            old(index_tracker).wf(),
            forall|t: InputType| old(index_tracker).count_of(t) < i32::MAX,
        ensures
            final(index_tracker).wf(),
            match spec_classify(element.element_type, element.usage) {
                Some(input_type) => {
                    &&& result == Some(
                        (
                            element.identifier,
                            DeviceInput {
                                input_type,
                                index: old(index_tracker).count_of(input_type) as i32,
                            },
                        ),
                    )
                    &&& final(index_tracker).count_of(input_type) == old(index_tracker).count_of(
                        input_type,
                    ) + 1
                    &&& forall|t: InputType|
                        t.type_id() != input_type.type_id() ==> final(index_tracker).count_of(t)
                            == old(index_tracker).count_of(t)
                },
                None => {
                    &&& result is None
                    &&& *final(index_tracker) == *old(index_tracker)
                },
            },
    {
        let input_type_or_none: Option<InputType> = if element.element_type
            == ELEMENT_TYPE_INPUT_BUTTON {
            Some(InputType::Button)
        } else if element.element_type == ELEMENT_TYPE_INPUT_MISC {
            if element.usage < USAGE_GD_X {
                Some(InputType::Other)
            } else if element.usage == USAGE_GD_X {
                Some(InputType::XAxis)
            } else if element.usage == USAGE_GD_Y {
                Some(InputType::YAxis)
            } else if element.usage == USAGE_GD_Z {
                Some(InputType::ZAxis)
            } else if element.usage == USAGE_GD_RX {
                Some(InputType::RxAxis)
            } else if element.usage == USAGE_GD_RY {
                Some(InputType::RyAxis)
            } else if element.usage == USAGE_GD_RZ {
                Some(InputType::RzAxis)
            } else if element.usage == USAGE_GD_SLIDER {
                Some(InputType::Slider)
            } else if element.usage == USAGE_GD_HATSWITCH {
                Some(InputType::Hat)
            } else {
                None
            }
        } else if element.element_type == ELEMENT_TYPE_INPUT_NULL || element.element_type
            == ELEMENT_TYPE_OUTPUT || element.element_type == ELEMENT_TYPE_COLLECTION {
            Some(InputType::Other)
        } else {
            None
        };
        match input_type_or_none {
            Some(input_type) => {
                let index = index_tracker.next_index(input_type);
                Some((element.identifier, DeviceInput { input_type, index }))
            },
            None => None,
        }
    }
}

} // verus!
