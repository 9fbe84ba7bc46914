//! A classified input device: its role and the lookup table from raw
//! element identifiers to semantic input channels.

use vstd::prelude::*;

use crate::hid_device_input::DeviceInput;
use crate::hid_device_input::ElementProperty;
use crate::hid_device_input::InputIndexTracker;
use crate::hid_device_input::InputType;
use crate::hid_device_input::spec_classify;
use std::collections::HashMap;

verus! {

/// The role a physical device plays in the remapping pipeline.
#[derive(Clone, Copy, Debug, PartialEq, Eq, Structural)]
pub enum DeviceType {
    Joystick,
    Throttle,
}

/// The plain properties the device layer reads off a freshly matched
/// device; only the product name takes part in classification, the
/// rest is diagnostic.
pub struct DeviceProperty {
    pub device_name: String,
    pub vendor_id: u32,
    pub product_id: u32,
    pub transport: String,
}

/// Which device role a product name denotes, or `None` for a product
/// this engine does not handle.
pub open spec fn spec_device_type_of_name(name: Seq<char>) -> Option<DeviceType> {
    if name == "Joystick - HOTAS Warthog"@ {
        Some(DeviceType::Joystick)
    } else if name == "Throttle - HOTAS Warthog"@ {
        Some(DeviceType::Throttle)
    } else {
        None
    }
}

impl DeviceType {
    /// A dense index for this device role, used when identities are
    /// encoded into registry keys.
    pub open spec fn role_id(self) -> int {
        match self {
            DeviceType::Joystick => 0,
            DeviceType::Throttle => 1,
        }
    }

    /// Executable counterpart of [`DeviceType::role_id`].
    pub fn role_index(&self) -> (index: usize)
        ensures
            index == self.role_id(),
    {
        match self {
            DeviceType::Joystick => 0,
            DeviceType::Throttle => 1,
        }
    }

    /// Recognizes the two supported products by their reported names,
    /// per [`spec_device_type_of_name`].
    pub fn try_from_property(property: &DeviceProperty) -> (result: Option<DeviceType>)
        ensures
            result == spec_device_type_of_name(property.device_name@),
    {
        if crate::strings::str_eq(property.device_name.as_str(), "Joystick - HOTAS Warthog") {
            Some(DeviceType::Joystick)
        } else if crate::strings::str_eq(
            property.device_name.as_str(),
            "Throttle - HOTAS Warthog",
        ) {
            Some(DeviceType::Throttle)
        } else {
            None
        }
    }
}

/// A raw input sample as delivered by the device layer: the
/// transport-assigned element identifier and the sampled value.  It
/// carries no semantic meaning until classified.
#[derive(Clone, Copy, Debug, PartialEq, Eq, Structural)]
pub struct RawInputEvent {
    pub input_id: u32,
    pub value: i32,
}

/// A classified input sample: the device role, the semantic input
/// channel and the sampled value.
#[derive(Clone, Copy, Debug, PartialEq, Eq, Structural)]
pub struct InputEvent {
    pub device_type: DeviceType,
    pub device_input: DeviceInput,
    pub value: i32,
}

/// How many elements among the first `i` of `elements` classify to the
/// input type with id `type_id`: the ordinal the next such element gets.
pub open spec fn spec_type_count(elements: Seq<ElementProperty>, i: int, type_id: int) -> int
    decreases i,
{
    if i <= 0 {
        0
    } else {
        spec_type_count(elements, i - 1, type_id) + match spec_classify(
            elements[i - 1].element_type,
            elements[i - 1].usage,
        ) {
            Some(t) => if t.type_id() == type_id {
                1int
            } else {
                0int
            },
            None => 0int,
        }
    }
}

/// The lookup table built from the first `i` elements: each recognized
/// element maps its identifier to its input type and ordinal; later
/// elements that reuse an identifier overwrite earlier ones.
pub open spec fn spec_input_map(elements: Seq<ElementProperty>, i: int) -> Map<u32, DeviceInput>
    decreases i,
{
    if i <= 0 {
        Map::empty()
    } else {
        let prev = spec_input_map(elements, i - 1);
        match spec_classify(elements[i - 1].element_type, elements[i - 1].usage) {
            Some(t) => prev.insert(
                elements[i - 1].identifier,
                DeviceInput {
                    input_type: t,
                    index: spec_type_count(elements, i - 1, t.type_id()) as i32,
                },
            ),
            None => prev,
        }
    }
}

/// At most one element can classify to a type per step, so a type's
/// count over a prefix never exceeds the prefix length.
pub proof fn lemma_type_count_bounded(elements: Seq<ElementProperty>, i: int, type_id: int)
    requires
        0 <= i,
    ensures
        0 <= spec_type_count(elements, i, type_id) <= i,
    decreases i,
{
    if i > 0 {
        lemma_type_count_bounded(elements, i - 1, type_id);
    }
}

/// A type's count never shrinks as the prefix grows.
proof fn lemma_type_count_monotone(elements: Seq<ElementProperty>, i: int, j: int, type_id: int)
    requires
        0 <= i <= j,
    ensures
        spec_type_count(elements, i, type_id) <= spec_type_count(elements, j, type_id),
    decreases j - i,
{
    if i < j {
        lemma_type_count_monotone(elements, i, j - 1, type_id);
    }
}

/// Every key of the lookup table is the identifier of some element in
/// the prefix that built it.
proof fn lemma_input_map_dom(elements: Seq<ElementProperty>, i: int)
    requires
        0 <= i,
    ensures
        forall|id: u32|
            #[trigger] spec_input_map(elements, i).dom().contains(id) ==> exists|j: int|
                0 <= j < i && elements[j].identifier == id,
    decreases i,
{
    if i > 0 {
        lemma_input_map_dom(elements, i - 1);
        assert forall|id: u32|
            #[trigger] spec_input_map(elements, i).dom().contains(id) implies exists|j: int|
            0 <= j < i && elements[j].identifier == id by {
            if id == elements[i - 1].identifier && spec_classify(
                elements[i - 1].element_type,
                elements[i - 1].usage,
            ) is Some {
                assert(elements[i - 1].identifier == id);
            } else {
                assert(spec_input_map(elements, i - 1).dom().contains(id));
            }
        }
    }
}

/// Whether some entry of the table binds ordinal `k` of input type
/// `t`.
pub open spec fn spec_has_ordinal(table: Map<u32, DeviceInput>, t: InputType, k: int) -> bool {
    exists|id: u32|
        #![auto]
        table.dom().contains(id) && table[id].input_type == t && table[id].index == k
}

/// Ordinals are dense, zero-based and never reused per input type:
/// when element identifiers are pairwise distinct, every entry's
/// ordinal lies below its type's final count, every ordinal below
/// that count is bound by some entry, and no two entries of one type
/// share an ordinal.
pub proof fn lemma_ordinals_dense(elements: Seq<ElementProperty>, i: int)
    requires
        0 <= i <= elements.len() <= i32::MAX,
        forall|a: int, b: int|
            0 <= a < b < elements.len() ==> elements[a].identifier != elements[b].identifier,
    ensures
        forall|id: u32|
            #[trigger] spec_input_map(elements, i).dom().contains(id) ==> {
                let entry = spec_input_map(elements, i)[id];
                0 <= entry.index < spec_type_count(elements, i, entry.input_type.type_id())
            },
        forall|t: InputType, k: int|
            0 <= k < spec_type_count(elements, i, t.type_id()) ==> spec_has_ordinal(
                spec_input_map(elements, i),
                t,
                k,
            ),
        forall|id1: u32, id2: u32|
            #![trigger spec_input_map(elements, i)[id1], spec_input_map(elements, i)[id2]]
            spec_input_map(elements, i).dom().contains(id1) && spec_input_map(
                elements,
                i,
            ).dom().contains(id2) && id1 != id2 && spec_input_map(elements, i)[id1].input_type
                == spec_input_map(elements, i)[id2].input_type ==> spec_input_map(elements, i)[
                id1
            ].index != spec_input_map(elements, i)[id2].index,
    decreases i,
{
    if i > 0 {
        lemma_ordinals_dense(elements, i - 1);
        let prev = spec_input_map(elements, i - 1);
        let table = spec_input_map(elements, i);
        match spec_classify(elements[i - 1].element_type, elements[i - 1].usage) {
            None => {
                assert(table == prev);
            },
            Some(fresh_type) => {
                let fresh_id = elements[i - 1].identifier;
                let fresh_index = spec_type_count(elements, i - 1, fresh_type.type_id());
                lemma_type_count_bounded(elements, i - 1, fresh_type.type_id());
                lemma_input_map_dom(elements, i - 1);
                if prev.dom().contains(fresh_id) {
                    let j = choose|j: int| 0 <= j < i - 1 && elements[j].identifier == fresh_id;
                    assert(elements[j].identifier == elements[i - 1].identifier);
                    assert(false);
                }
                assert forall|id: u32| #[trigger] table.dom().contains(id) implies {
                    let entry = table[id];
                    0 <= entry.index < spec_type_count(elements, i, entry.input_type.type_id())
                } by {
                    if id == fresh_id {
                        assert(table[id].index == fresh_index);
                        assert(spec_type_count(elements, i, fresh_type.type_id()) == fresh_index
                            + 1);
                    } else {
                        assert(prev.dom().contains(id));
                        lemma_type_count_monotone(
                            elements,
                            i - 1,
                            i,
                            prev[id].input_type.type_id(),
                        );
                    }
                }
                assert forall|id1: u32, id2: u32|
                    #![trigger table[id1], table[id2]]
                    table.dom().contains(id1) && table.dom().contains(id2) && id1 != id2
                        && table[id1].input_type == table[id2].input_type implies table[id1].index
                    != table[id2].index by {
                    if id1 != fresh_id && id2 != fresh_id {
                        assert(prev.dom().contains(id1) && prev.dom().contains(id2));
                    } else {
                        let other = if id1 == fresh_id {
                            id2
                        } else {
                            id1
                        };
                        assert(prev.dom().contains(other));
                        assert(prev[other].index < spec_type_count(
                            elements,
                            i - 1,
                            prev[other].input_type.type_id(),
                        ));
                    }
                }
                assert forall|t: InputType, k: int|
                    0 <= k < spec_type_count(elements, i, t.type_id()) implies spec_has_ordinal(
                    table,
                    t,
                    k,
                ) by {
                    if t.type_id() == fresh_type.type_id() && k == fresh_index {
                        assert(t == fresh_type);
                        assert(table.dom().contains(fresh_id) && table[fresh_id].input_type == t
                            && table[fresh_id].index == k);
                    } else {
                        assert(k < spec_type_count(elements, i - 1, t.type_id()));
                        assert(spec_has_ordinal(prev, t, k));
                        let id = choose|id: u32|
                            #![auto]
                            prev.dom().contains(id) && prev[id].input_type == t && prev[id].index
                                == k;
                        assert(table.dom().contains(id) && table[id] == prev[id]);
                    }
                }
            },
        }
    }
}

/// A classified input device: the device role together with the table
/// mapping each recognized element identifier to its semantic channel.
pub struct HIDDevice {
    device_type: DeviceType,
    input_map: HashMap<u32, DeviceInput>,
}

impl HIDDevice {
    /// The lookup table from element identifiers to semantic channels.
    pub closed spec fn input_map_view(self) -> Map<u32, DeviceInput> {
        self.input_map@
    }

    /// The device role this device was opened with.
    pub closed spec fn spec_device_type(self) -> DeviceType {
        self.device_type
    }

    /// Classifies a full enumeration pass over a device's elements and
    /// builds its lookup table.  Ordinals are dense and zero-based per
    /// input type, in enumeration order.
    pub fn from_elements(device_type: DeviceType, elements: &Vec<ElementProperty>) -> (device:
        HIDDevice)
        requires
            elements@.len() <= i32::MAX,
        ensures
            device.spec_device_type() == device_type,
            device.input_map_view() == spec_input_map(elements@, elements@.len() as int),
    {
        let ghost all = elements@;
        let mut input_map: HashMap<u32, DeviceInput> = HashMap::new();
        let mut index_tracker = InputIndexTracker::new();
        let mut i: usize = 0;
        while i < elements.len()
            invariant
                i <= elements@.len() <= i32::MAX,
                elements@ == all,
                index_tracker.wf(),
                forall|t: InputType| #[trigger] index_tracker.count_of(t) == spec_type_count(
                    all,
                    i as int,
                    t.type_id(),
                ),
                input_map@ == spec_input_map(all, i as int),
            decreases elements@.len() - i,
        {
            let element = elements[i];
            proof {
                assert forall|t: InputType| #[trigger] index_tracker.count_of(t)
                    < i32::MAX by {
                    lemma_type_count_bounded(all, i as int, t.type_id());
                }
            }
            if let Some((identifier, device_input)) = DeviceInput::try_new(
                &element,
                &mut index_tracker,
            ) {
                input_map.insert(identifier, device_input);
            }
            i = i + 1;
        }
        HIDDevice { device_type, input_map }
    }

    /// The device role this device was opened with.
    pub fn device_type(&self) -> (device_type: DeviceType)
        ensures
            device_type == self.spec_device_type(),
    {
        self.device_type
    }

    /// Resolves a raw sample against the lookup table.  Unknown
    /// identifiers and channels classified `Other` are dropped; every
    /// other sample becomes a classified [`InputEvent`] for this device.
    pub fn interpret_raw_input_event(&self, input_event: RawInputEvent) -> (result: Option<
        InputEvent,
    >)
        ensures
            result == if self.input_map_view().contains_key(input_event.input_id)
                && self.input_map_view()[input_event.input_id].input_type != InputType::Other {
                Some(
                    InputEvent {
                        device_type: self.spec_device_type(),
                        device_input: self.input_map_view()[input_event.input_id],
                        value: input_event.value,
                    },
                )
            } else {
                None::<InputEvent>
            },
    {
        match self.input_map.get(&input_event.input_id) {
            Some(device_input) => {
                if !matches!(device_input.input_type, InputType::Other) {
                    Some(
                        InputEvent {
                            device_type: self.device_type,
                            device_input: *device_input,
                            value: input_event.value,
                        },
                    )
                } else {
                    None
                }
            },
            None => None,
        }
    }
}

} // verus!
