//! The remapper registry: from semantic input identity to configured
//! remapping policy.
//!
//! A registry is loaded atomically from a declarative configuration:
//! either every entry validates and the new registry replaces the old
//! one wholesale, or the first error is returned and the previously
//! loaded registry stays fully intact.  Lookup happens on every input
//! event; an event whose identity has no configured policy is silently
//! ignored.

use vstd::prelude::*;

use crate::axis_remapper::AxisRemapper;
use crate::axis_remapper::spec_axis_config_error;
use crate::axis_remapper::spec_axis_index;
use crate::button_remapper::ButtonRemapper;
use crate::button_remapper::spec_button_config_error;
use crate::config::IndexedInput;
use crate::config::InputGroup;
use crate::config::InputRemapping;
use crate::config::RemappedInput;
use crate::errors::ConfigError;
use crate::hat_switch_remapper::HatSwitchRemapper;
use crate::hat_switch_remapper::spec_hat_current_key_code;
use crate::hat_switch_remapper::spec_hat_switch_config_error;
use crate::hid_device::DeviceType;
use crate::hid_device::InputEvent;
use crate::hid_device_input::DeviceInput;
use crate::hid_device_input::InputType;
use crate::hid_device_input::spec_input_type_from_name;
use crate::key_code::spec_converted_key_codes;
use crate::key_event::KeyEvent;
use crate::toggle_switch_remapper::ToggleSwitchRemapper;
use crate::toggle_switch_remapper::spec_toggle_switch_config_error;
use std::collections::HashMap;

verus! {

/// The semantic identity of one input channel: the device role and the
/// classified channel on that device.
#[derive(Clone, Copy, Debug, PartialEq, Eq, Structural)]
pub struct InputIdentifier {
    pub device_type: DeviceType,
    pub device_input: DeviceInput,
}

/// The registry key an identity is stored under: role and input type
/// in the high half, the ordinal's 32 bits in the low half, so that
/// distinct identities get distinct keys.
pub open spec fn spec_input_key(device_type: DeviceType, input_type: InputType, index: i32) -> u64 {
    ((device_type.role_id() * 16 + input_type.type_id()) * 0x1_0000_0000 + (index as u32 as int))
        as u64
}

impl InputIdentifier {
    /// The registry key for this identity, per [`spec_input_key`].
    pub open spec fn spec_key(self) -> u64 {
        spec_input_key(self.device_type, self.device_input.input_type, self.device_input.index)
    }

    /// The identity an input event carries.
    pub fn from_event(event: &InputEvent) -> (identifier: InputIdentifier)
        ensures
            identifier == (InputIdentifier {
                device_type: event.device_type,
                device_input: event.device_input,
            }),
    {
        InputIdentifier { device_type: event.device_type, device_input: event.device_input }
    }

    /// Computes the registry key, per [`InputIdentifier::spec_key`].
    pub fn key(&self) -> (key: u64)
        ensures
            key == self.spec_key(),
    {
        let role = self.device_type.role_index() as u64;
        let kind = self.device_input.input_type.type_index() as u64;
        let index_part = self.device_input.index as u32 as u64;
        (role * 16 + kind) * 0x1_0000_0000 + index_part
    }
}

/// Distinct identities are stored under distinct registry keys: the
/// key encoding is injective over the identity space.
pub proof fn lemma_input_key_injective(a: InputIdentifier, b: InputIdentifier)
    requires
        a.spec_key() == b.spec_key(),
    ensures
        a == b,
{
    let qa = a.device_type.role_id() * 16 + a.device_input.input_type.type_id();
    let qb = b.device_type.role_id() * 16 + b.device_input.input_type.type_id();
    let ca = a.device_input.index as u32 as int;
    let cb = b.device_input.index as u32 as int;
    assert(0 <= qa <= 25 && 0 <= qb <= 25);
    assert(0 <= ca < 0x1_0000_0000 && 0 <= cb < 0x1_0000_0000);
    assert(qa * 0x1_0000_0000 + ca == qb * 0x1_0000_0000 + cb);
    assert(qa == qb && ca == cb) by (nonlinear_arith)
        requires
            0 <= qa <= 25,
            0 <= qb <= 25,
            0 <= ca < 0x1_0000_0000,
            0 <= cb < 0x1_0000_0000,
            qa * 0x1_0000_0000 + ca == qb * 0x1_0000_0000 + cb,
    ;
    assert(a.device_type == b.device_type && a.device_input.input_type
        == b.device_input.input_type);
    assert(a.device_input.index == b.device_input.index) by {
        let x = a.device_input.index;
        let y = b.device_input.index;
        assert(x as u32 == y as u32);
        assert(x as u32 == y as u32 ==> x == y) by (bit_vector);
    }
}

/// The mathematical model of one configured policy: its configuration
/// values, plus the remembered key for the stateful hat switch.
pub enum RemapperModel {
    Button { key_code: i8 },
    Axis { key_codes: Seq<i8>, min_value: int, span: int },
    HatSwitch { key_codes: Seq<i8>, last_key_code: i8 },
    ToggleSwitch { on_key_code: i8, off_key_code: i8 },
}

/// What a loaded policy always satisfies: an axis has at least two
/// buckets over a non-empty range with 32-bit bounds, and a hat switch
/// has one key per direction.
pub open spec fn spec_model_wf(model: RemapperModel) -> bool {
    match model {
        RemapperModel::Button { .. } => true,
        RemapperModel::Axis { key_codes, min_value, span } => {
            &&& 2 <= key_codes.len()
            &&& span != 0
            &&& i32::MIN <= min_value <= i32::MAX
            &&& -(u32::MAX as int) <= span <= u32::MAX as int
        },
        RemapperModel::HatSwitch { key_codes, .. } => key_codes.len() == 4 || key_codes.len() == 8,
        RemapperModel::ToggleSwitch { .. } => true,
    }
}

/// What one sample does to a policy: the event it emits, if any, and
/// the policy state afterwards.  Only the hat switch has state that
/// moves.
pub open spec fn spec_model_remap(model: RemapperModel, value: i32) -> (Option<KeyEvent>, RemapperModel) {
    match model {
        RemapperModel::Button { key_code } => (
            if value != 0 {
                Some(KeyEvent::Press(key_code))
            } else {
                Some(KeyEvent::Release(key_code))
            },
            model,
        ),
        RemapperModel::Axis { key_codes, min_value, span } => (
            Some(
                KeyEvent::PressAndRelease(
                    key_codes[spec_axis_index(key_codes.len() as int, min_value, span, value)],
                ),
            ),
            model,
        ),
        RemapperModel::HatSwitch { key_codes, last_key_code } => {
            let current = spec_hat_current_key_code(key_codes, value);
            (
                HatSwitchRemapper::spec_transition(last_key_code, current),
                RemapperModel::HatSwitch { key_codes, last_key_code: current },
            )
        },
        RemapperModel::ToggleSwitch { on_key_code, off_key_code } => (
            Some(
                KeyEvent::PressAndRelease(
                    if value != 0 {
                        on_key_code
                    } else {
                        off_key_code
                    },
                ),
            ),
            model,
        ),
    }
}

/// One configured policy, dispatching to the variant that owns the
/// algorithm.
pub enum Remapper {
    Button(ButtonRemapper),
    Axis(AxisRemapper),
    HatSwitch(HatSwitchRemapper),
    ToggleSwitch(ToggleSwitchRemapper),
}

impl Remapper {
    /// The mathematical model of this policy.
    pub open spec fn model(self) -> RemapperModel {
        match self {
            Remapper::Button(remapper) => RemapperModel::Button {
                key_code: remapper.spec_key_code(),
            },
            Remapper::Axis(remapper) => RemapperModel::Axis {
                key_codes: remapper.spec_key_codes(),
                min_value: remapper.spec_min_value(),
                span: remapper.spec_span(),
            },
            Remapper::HatSwitch(remapper) => RemapperModel::HatSwitch {
                key_codes: remapper.spec_key_codes(),
                last_key_code: remapper.spec_last_key_code(),
            },
            Remapper::ToggleSwitch(remapper) => RemapperModel::ToggleSwitch {
                on_key_code: remapper.spec_on_key_code(),
                off_key_code: remapper.spec_off_key_code(),
            },
        }
    }

    /// Remaps one sample, per [`spec_model_remap`].
    pub fn remap(&mut self, value: i32) -> (result: Option<KeyEvent>)
        requires
            spec_model_wf(old(self).model()),
        ensures
            spec_model_wf(final(self).model()),
            (result, final(self).model()) == spec_model_remap(old(self).model(), value),
    {
        match self {
            Remapper::Button(remapper) => remapper.remap(value),
            Remapper::Axis(remapper) => remapper.remap(value),
            Remapper::HatSwitch(remapper) => remapper.remap(value),
            Remapper::ToggleSwitch(remapper) => remapper.remap(value),
        }
    }
}

/// Whether a payload kind fits the input type its group binds: button
/// and toggle-switch payloads bind button channels, hat-switch
/// payloads bind hat channels, axis payloads bind the axis and slider
/// channels.
pub open spec fn spec_payload_matches(input_type: InputType, input: RemappedInput) -> bool {
    match input {
        RemappedInput::Button(_) => input_type == InputType::Button,
        RemappedInput::ToggleSwitch(_) => input_type == InputType::Button,
        RemappedInput::HatSwitch(_) => input_type == InputType::Hat,
        RemappedInput::Axis(_) => {
            ||| input_type == InputType::XAxis
            ||| input_type == InputType::YAxis
            ||| input_type == InputType::ZAxis
            ||| input_type == InputType::RxAxis
            ||| input_type == InputType::RyAxis
            ||| input_type == InputType::RzAxis
            ||| input_type == InputType::Slider
        },
    }
}

/// The first error in one entry, in validation order: a payload that
/// does not fit its group's input type, then the payload's own
/// validation.
pub open spec fn spec_entry_error(input_type: InputType, input: RemappedInput) -> Option<ConfigError> {
    if !spec_payload_matches(input_type, input) {
        Some(ConfigError::MismatchedInputPayload)
    } else {
        match input {
            RemappedInput::Button(button) => spec_button_config_error(button),
            RemappedInput::Axis(axis) => spec_axis_config_error(axis),
            RemappedInput::HatSwitch(hat) => spec_hat_switch_config_error(hat),
            RemappedInput::ToggleSwitch(toggle) => spec_toggle_switch_config_error(toggle),
        }
    }
}

/// The policy a valid entry loads.
pub open spec fn spec_create_remapper(input_type: InputType, input: RemappedInput) -> RemapperModel
    recommends
        spec_entry_error(input_type, input) is None,
{
    match input {
        RemappedInput::Button(button) => RemapperModel::Button {
            key_code: button.key_code as i8,
        },
        RemappedInput::Axis(axis) => RemapperModel::Axis {
            key_codes: spec_converted_key_codes(axis.key_codes@),
            min_value: if axis.reverse_axis {
                axis.max_value as int
            } else {
                axis.min_value as int
            },
            span: if axis.reverse_axis {
                axis.min_value - axis.max_value
            } else {
                axis.max_value - axis.min_value
            },
        },
        RemappedInput::HatSwitch(hat) => RemapperModel::HatSwitch {
            key_codes: spec_converted_key_codes(hat.key_codes@),
            last_key_code: 0,
        },
        RemappedInput::ToggleSwitch(toggle) => RemapperModel::ToggleSwitch {
            on_key_code: toggle.on_key_code as i8,
            off_key_code: toggle.off_key_code as i8,
        },
    }
}

/// The first error among a group's entries, in order.
pub open spec fn spec_entries_error(input_type: InputType, entries: Seq<IndexedInput>) -> Option<
    ConfigError,
>
    decreases entries.len(),
{
    if entries.len() == 0 {
        None
    } else {
        match spec_entry_error(input_type, entries[0].input) {
            Some(error) => Some(error),
            None => spec_entries_error(input_type, entries.drop_first()),
        }
    }
}

/// The first error in one group: an unknown input-type name, then its
/// entries in order.
pub open spec fn spec_group_error(group: InputGroup) -> Option<ConfigError> {
    match spec_input_type_from_name(group.input_type_name@) {
        None => Some(ConfigError::UnknownInputTypeName),
        Some(input_type) => spec_entries_error(input_type, group.inputs@),
    }
}

/// The first error among a device's groups, in order.
pub open spec fn spec_groups_error(groups: Seq<InputGroup>) -> Option<ConfigError>
    decreases groups.len(),
{
    if groups.len() == 0 {
        None
    } else {
        match spec_group_error(groups[0]) {
            Some(error) => Some(error),
            None => spec_groups_error(groups.drop_first()),
        }
    }
}

/// The first error in a whole configuration: the joystick groups in
/// order, then the throttle groups.
pub open spec fn spec_config_error(config: InputRemapping) -> Option<ConfigError> {
    match spec_groups_error(config.joystick_inputs@) {
        Some(error) => Some(error),
        None => spec_groups_error(config.throttle_inputs@),
    }
}

/// The registry contents after loading the first `i` entries of one
/// valid group on top of `m`; later entries for the same identity win.
pub open spec fn spec_entries_map(
    m: Map<u64, RemapperModel>,
    device_type: DeviceType,
    input_type: InputType,
    entries: Seq<IndexedInput>,
    i: int,
) -> Map<u64, RemapperModel>
    decreases i,
{
    if i <= 0 {
        m
    } else {
        spec_entries_map(m, device_type, input_type, entries, i - 1).insert(
            spec_input_key(device_type, input_type, entries[i - 1].index),
            spec_create_remapper(input_type, entries[i - 1].input),
        )
    }
}

/// The registry contents after loading the first `i` valid groups of
/// one device on top of `m`.
pub open spec fn spec_groups_map(
    m: Map<u64, RemapperModel>,
    device_type: DeviceType,
    groups: Seq<InputGroup>,
    i: int,
) -> Map<u64, RemapperModel>
    decreases i,
{
    if i <= 0 {
        m
    } else {
        let prev = spec_groups_map(m, device_type, groups, i - 1);
        match spec_input_type_from_name(groups[i - 1].input_type_name@) {
            Some(input_type) => spec_entries_map(
                prev,
                device_type,
                input_type,
                groups[i - 1].inputs@,
                groups[i - 1].inputs@.len() as int,
            ),
            None => prev,
        }
    }
}

/// The registry a valid configuration loads: joystick groups first,
/// then throttle groups.
pub open spec fn spec_registry(config: InputRemapping) -> Map<u64, RemapperModel> {
    spec_groups_map(
        spec_groups_map(
            Map::empty(),
            DeviceType::Joystick,
            config.joystick_inputs@,
            config.joystick_inputs@.len() as int,
        ),
        DeviceType::Throttle,
        config.throttle_inputs@,
        config.throttle_inputs@.len() as int,
    )
}

/// The model of a stored map: the same keys, each policy abstracted to
/// its model.
pub open spec fn spec_map_model(m: Map<u64, Remapper>) -> Map<u64, RemapperModel> {
    Map::new(|k: u64| m.dom().contains(k), |k: u64| m[k].model())
}

/// Inserting into a stored map inserts the model.
proof fn lemma_map_model_insert(m: Map<u64, Remapper>, key: u64, remapper: Remapper)
    ensures
        spec_map_model(m.insert(key, remapper)) == spec_map_model(m).insert(key, remapper.model()),
{
    assert(spec_map_model(m.insert(key, remapper)) =~= spec_map_model(m).insert(
        key,
        remapper.model(),
    ));
}

/// When every entry up to `i` validates and the entry at `i` does not,
/// the group's first error is the one at `i`.
proof fn lemma_entries_error_at(input_type: InputType, entries: Seq<IndexedInput>, i: int)
    requires
        0 <= i < entries.len(),
        forall|j: int| 0 <= j < i ==> spec_entry_error(input_type, entries[j].input) is None,
        spec_entry_error(input_type, entries[i].input) is Some,
    ensures
        spec_entries_error(input_type, entries) == spec_entry_error(input_type, entries[i].input),
    decreases i,
{
    if i > 0 {
        lemma_entries_error_at(input_type, entries.drop_first(), i - 1);
    }
}

/// When every entry validates the group has no error.
proof fn lemma_entries_error_none(input_type: InputType, entries: Seq<IndexedInput>)
    requires
        forall|j: int|
            0 <= j < entries.len() ==> spec_entry_error(input_type, entries[j].input) is None,
    ensures
        spec_entries_error(input_type, entries) is None,
    decreases entries.len(),
{
    if entries.len() > 0 {
        lemma_entries_error_none(input_type, entries.drop_first());
    }
}

/// When every group up to `i` validates and the group at `i` does not,
/// the device's first error is the one at `i`.
proof fn lemma_groups_error_at(groups: Seq<InputGroup>, i: int)
    requires
        0 <= i < groups.len(),
        forall|j: int| 0 <= j < i ==> spec_group_error(groups[j]) is None,
        spec_group_error(groups[i]) is Some,
    ensures
        spec_groups_error(groups) == spec_group_error(groups[i]),
    decreases i,
{
    if i > 0 {
        lemma_groups_error_at(groups.drop_first(), i - 1);
    }
}

/// When every group validates the device has no error.
proof fn lemma_groups_error_none(groups: Seq<InputGroup>)
    requires
        forall|j: int| 0 <= j < groups.len() ==> spec_group_error(groups[j]) is None,
    ensures
        spec_groups_error(groups) is None,
    decreases groups.len(),
{
    if groups.len() > 0 {
        lemma_groups_error_none(groups.drop_first());
    }
}

/// A group without an error has only valid entries.
proof fn lemma_entries_error_none_forall(input_type: InputType, entries: Seq<IndexedInput>)
    requires
        spec_entries_error(input_type, entries) is None,
    ensures
        forall|j: int|
            0 <= j < entries.len() ==> spec_entry_error(input_type, entries[j].input) is None,
    decreases entries.len(),
{
    if entries.len() > 0 {
        lemma_entries_error_none_forall(input_type, entries.drop_first());
        assert forall|j: int|
            0 <= j < entries.len() implies spec_entry_error(input_type, entries[j].input)
            is None by {
            if j > 0 {
                assert(entries.drop_first()[j - 1] == entries[j]);
            }
        }
    }
}

/// A device without an error has only valid groups.
proof fn lemma_groups_error_none_forall(groups: Seq<InputGroup>)
    requires
        spec_groups_error(groups) is None,
    ensures
        forall|j: int| 0 <= j < groups.len() ==> spec_group_error(groups[j]) is None,
    decreases groups.len(),
{
    if groups.len() > 0 {
        lemma_groups_error_none_forall(groups.drop_first());
        assert forall|j: int| 0 <= j < groups.len() implies spec_group_error(groups[j])
            is None by {
            if j > 0 {
                assert(groups.drop_first()[j - 1] == groups[j]);
            }
        }
    }
}

/// Builds the policy of one entry, per [`spec_entry_error`] and
/// [`spec_create_remapper`].
fn create_input_remapper(input_type: InputType, input: &RemappedInput) -> (result: Result<
    Remapper,
    ConfigError,
>)
    ensures
        match result {
            Ok(remapper) => {
                &&& spec_entry_error(input_type, *input) is None
                &&& remapper.model() == spec_create_remapper(input_type, *input)
                &&& spec_model_wf(remapper.model())
            },
            Err(error) => Some(error) == spec_entry_error(input_type, *input),
        },
{
    match input {
        RemappedInput::Button(button) => {
            if !matches!(input_type, InputType::Button) {
                return Err(ConfigError::MismatchedInputPayload);
            }
            match ButtonRemapper::try_from_input(button) {
                Ok(remapper) => Ok(Remapper::Button(remapper)),
                Err(error) => Err(error),
            }
        },
        RemappedInput::Axis(axis) => {
            let compatible = matches!(
                input_type,
                InputType::XAxis | InputType::YAxis | InputType::ZAxis | InputType::RxAxis
                    | InputType::RyAxis | InputType::RzAxis | InputType::Slider
            );
            if !compatible {
                return Err(ConfigError::MismatchedInputPayload);
            }
            match AxisRemapper::try_from_input(axis) {
                Ok(remapper) => Ok(Remapper::Axis(remapper)),
                Err(error) => Err(error),
            }
        },
        RemappedInput::HatSwitch(hat) => {
            if !matches!(input_type, InputType::Hat) {
                return Err(ConfigError::MismatchedInputPayload);
            }
            match HatSwitchRemapper::try_from_input(hat) {
                Ok(remapper) => Ok(Remapper::HatSwitch(remapper)),
                Err(error) => Err(error),
            }
        },
        RemappedInput::ToggleSwitch(toggle) => {
            if !matches!(input_type, InputType::Button) {
                return Err(ConfigError::MismatchedInputPayload);
            }
            match ToggleSwitchRemapper::try_from_input(toggle) {
                Ok(remapper) => Ok(Remapper::ToggleSwitch(remapper)),
                Err(error) => Err(error),
            }
        },
    }
}

/// Loads the entries of one group into `map`, stopping at the first
/// invalid entry.
fn load_group_entries(
    map: &mut HashMap<u64, Remapper>,
    device_type: DeviceType,
    input_type: InputType,
    entries: &Vec<IndexedInput>,
) -> (result: Result<(), ConfigError>)
    ensures
        match result {
            Ok(()) => {
                &&& spec_entries_error(input_type, entries@) is None
                &&& spec_map_model(final(map)@) == spec_entries_map(
                    spec_map_model(old(map)@),
                    device_type,
                    input_type,
                    entries@,
                    entries@.len() as int,
                )
            },
            Err(error) => Some(error) == spec_entries_error(input_type, entries@),
        },
{
    let ghost initial_model = spec_map_model(old(map)@);
    let mut i: usize = 0;
    while i < entries.len()
        invariant
            i <= entries@.len(),
            forall|j: int| 0 <= j < i ==> spec_entry_error(input_type, entries@[j].input) is None,
            spec_map_model(map@) == spec_entries_map(
                initial_model,
                device_type,
                input_type,
                entries@,
                i as int,
            ),
        decreases entries@.len() - i,
    {
        let entry = &entries[i];
        match create_input_remapper(input_type, &entry.input) {
            Ok(remapper) => {
                let identifier = InputIdentifier {
                    device_type,
                    device_input: DeviceInput { input_type, index: entry.index },
                };
                let key = identifier.key();
                proof {
                    lemma_map_model_insert(map@, key, remapper);
                }
                map.insert(key, remapper);
            },
            Err(error) => {
                proof {
                    lemma_entries_error_at(input_type, entries@, i as int);
                }
                return Err(error);
            },
        }
        i = i + 1;
    }
    proof {
        lemma_entries_error_none(input_type, entries@);
    }
    Ok(())
}

/// Loads every group of one device into `map`, stopping at the first
/// invalid group.
fn load_remapping_for_device(
    map: &mut HashMap<u64, Remapper>,
    device_type: DeviceType,
    groups: &Vec<InputGroup>,
) -> (result: Result<(), ConfigError>)
    ensures
        match result {
            Ok(()) => {
                &&& spec_groups_error(groups@) is None
                &&& spec_map_model(final(map)@) == spec_groups_map(
                    spec_map_model(old(map)@),
                    device_type,
                    groups@,
                    groups@.len() as int,
                )
            },
            Err(error) => Some(error) == spec_groups_error(groups@),
        },
{
    let ghost initial_model = spec_map_model(old(map)@);
    let mut i: usize = 0;
    while i < groups.len()
        invariant
            i <= groups@.len(),
            forall|j: int| 0 <= j < i ==> spec_group_error(groups@[j]) is None,
            spec_map_model(map@) == spec_groups_map(initial_model, device_type, groups@, i as int),
        decreases groups@.len() - i,
    {
        let group = &groups[i];
        match InputType::try_from_name(group.input_type_name.as_str()) {
            Some(input_type) => {
                match load_group_entries(map, device_type, input_type, &group.inputs) {
                    Ok(()) => {},
                    Err(error) => {
                        proof {
                            lemma_groups_error_at(groups@, i as int);
                        }
                        return Err(error);
                    },
                }
            },
            None => {
                proof {
                    lemma_groups_error_at(groups@, i as int);
                }
                return Err(ConfigError::UnknownInputTypeName);
            },
        }
        i = i + 1;
    }
    proof {
        lemma_groups_error_none(groups@);
    }
    Ok(())
}

/// The registry: maps the key of each configured identity to its
/// loaded policy.
pub struct InputRemapper {
    input_remappers: HashMap<u64, Remapper>,
}

impl InputRemapper {
    /// The loaded registry, abstracted to policy models.
    pub closed spec fn registry_view(self) -> Map<u64, RemapperModel> {
        spec_map_model(self.input_remappers@)
    }

    /// Every loaded policy is well formed.
    pub open spec fn wf(self) -> bool {
        forall|key: u64|
            #[trigger] self.registry_view().dom().contains(key) ==> spec_model_wf(
                self.registry_view()[key],
            )
    }

    /// An empty registry: no identity is bound, every event is
    /// ignored.
    pub fn new() -> (registry: InputRemapper)
        ensures
            registry.registry_view() == Map::<u64, RemapperModel>::empty(),
            registry.wf(),
    {
        let registry = InputRemapper { input_remappers: HashMap::new() };
        proof {
            assert(registry.registry_view() =~= Map::<u64, RemapperModel>::empty());
        }
        registry
    }

    /// Loads a configuration atomically, per [`spec_config_error`] and
    /// [`spec_registry`]: when every entry validates the new registry
    /// replaces the old one wholesale; at the first invalid entry its
    /// error is returned and the previously loaded registry stays
    /// fully intact.
    pub fn load_input_remapping(&mut self, config: &InputRemapping) -> (result: Result<
        (),
        ConfigError,
    >)
        ensures
            match result {
                Ok(()) => {
                    &&& spec_config_error(*config) is None
                    &&& final(self).registry_view() == spec_registry(*config)
                    &&& final(self).wf()
                },
                Err(error) => {
                    &&& Some(error) == spec_config_error(*config)
                    &&& *final(self) == *old(self)
                },
            },
    {
        let mut new_map: HashMap<u64, Remapper> = HashMap::new();
        proof {
            assert(spec_map_model(new_map@) =~= Map::<u64, RemapperModel>::empty());
        }
        match load_remapping_for_device(&mut new_map, DeviceType::Joystick, &config.joystick_inputs)
        {
            Ok(()) => {},
            Err(error) => {
                return Err(error);
            },
        }
        match load_remapping_for_device(&mut new_map, DeviceType::Throttle, &config.throttle_inputs)
        {
            Ok(()) => {},
            Err(error) => {
                return Err(error);
            },
        }
        self.input_remappers = new_map;
        proof {
            lemma_registry_wf(*config);
        }
        Ok(())
    }

    /// Remaps one classified event: looks its identity up and, when a
    /// policy is bound, lets that policy turn the value into an event
    /// and advance its state.  An unbound identity is not an error:
    /// the event is silently ignored and the registry is unchanged.
    pub fn remap_input_event(&mut self, input_event: &InputEvent) -> (result: Option<KeyEvent>)
        requires
            old(self).wf(),
        ensures
            final(self).wf(),
            ({
                let key = spec_input_key(
                    input_event.device_type,
                    input_event.device_input.input_type,
                    input_event.device_input.index,
                );
                if old(self).registry_view().dom().contains(key) {
                    let outcome = spec_model_remap(
                        old(self).registry_view()[key],
                        input_event.value,
                    );
                    &&& result == outcome.0
                    &&& final(self).registry_view() == old(self).registry_view().insert(
                        key,
                        outcome.1,
                    )
                } else {
                    &&& result is None
                    &&& *final(self) == *old(self)
                }
            }),
    {
        let key = InputIdentifier::from_event(input_event).key();
        if !self.input_remappers.contains_key(&key) {
            proof {
                assert(!old(self).registry_view().dom().contains(key));
            }
            return None;
        }
        match self.input_remappers.remove(&key) {
            Some(mut remapper) => {
                proof {
                    assert(old(self).registry_view().dom().contains(key));
                    assert(remapper.model() == old(self).registry_view()[key]);
                }
                let result = remapper.remap(input_event.value);
                proof {
                    lemma_map_model_insert(self.input_remappers@, key, remapper);
                }
                self.input_remappers.insert(key, remapper);
                proof {
                    assert(self.registry_view() =~= old(self).registry_view().insert(
                        key,
                        spec_model_remap(old(self).registry_view()[key], input_event.value).1,
                    ));
                    assert forall|other: u64| #[trigger] self.registry_view().dom().contains(
                        other,
                    ) implies spec_model_wf(self.registry_view()[other]) by {
                        if other != key {
                            assert(old(self).registry_view().dom().contains(other));
                        }
                    }
                }
                result
            },
            None => {
                proof {
                    assert(false);
                }
                None
            },
        }
    }
}

/// Every policy a valid configuration loads is well formed.
proof fn lemma_registry_wf(config: InputRemapping)
    requires
        spec_groups_error(config.joystick_inputs@) is None,
        spec_groups_error(config.throttle_inputs@) is None,
    ensures
        forall|key: u64|
            #[trigger] spec_registry(config).dom().contains(key) ==> spec_model_wf(
                spec_registry(config)[key],
            ),
{
    lemma_groups_error_none_forall(config.joystick_inputs@);
    lemma_groups_error_none_forall(config.throttle_inputs@);
    lemma_groups_map_wf(
        Map::empty(),
        DeviceType::Joystick,
        config.joystick_inputs@,
        config.joystick_inputs@.len() as int,
    );
    lemma_groups_map_wf(
        spec_groups_map(
            Map::empty(),
            DeviceType::Joystick,
            config.joystick_inputs@,
            config.joystick_inputs@.len() as int,
        ),
        DeviceType::Throttle,
        config.throttle_inputs@,
        config.throttle_inputs@.len() as int,
    );
}

/// Loading valid entries preserves well-formedness of every stored
/// policy.
proof fn lemma_entries_map_wf(
    m: Map<u64, RemapperModel>,
    device_type: DeviceType,
    input_type: InputType,
    entries: Seq<IndexedInput>,
    i: int,
)
    requires
        i <= entries.len(),
        forall|j: int|
            0 <= j < entries.len() ==> spec_entry_error(input_type, entries[j].input) is None,
        forall|key: u64| #[trigger] m.dom().contains(key) ==> spec_model_wf(m[key]),
    ensures
        forall|key: u64|
            #[trigger] spec_entries_map(m, device_type, input_type, entries, i).dom().contains(key)
                ==> spec_model_wf(spec_entries_map(m, device_type, input_type, entries, i)[key]),
    decreases i,
{
    if i > 0 {
        lemma_entries_map_wf(m, device_type, input_type, entries, i - 1);
        lemma_create_remapper_wf(input_type, entries[i - 1].input);
        let prev = spec_entries_map(m, device_type, input_type, entries, i - 1);
        let current = spec_entries_map(m, device_type, input_type, entries, i);
        let inserted = spec_input_key(device_type, input_type, entries[i - 1].index);
        assert forall|key: u64| #[trigger] current.dom().contains(key) implies spec_model_wf(
            current[key],
        ) by {
            if key != inserted {
                assert(prev.dom().contains(key));
            }
        }
    }
}

/// Loading valid groups preserves well-formedness of every stored
/// policy.
proof fn lemma_groups_map_wf(
    m: Map<u64, RemapperModel>,
    device_type: DeviceType,
    groups: Seq<InputGroup>,
    i: int,
)
    requires
        i <= groups.len(),
        forall|j: int| 0 <= j < groups.len() ==> spec_group_error(groups[j]) is None,
        forall|key: u64| #[trigger] m.dom().contains(key) ==> spec_model_wf(m[key]),
    ensures
        forall|key: u64|
            #[trigger] spec_groups_map(m, device_type, groups, i).dom().contains(key)
                ==> spec_model_wf(spec_groups_map(m, device_type, groups, i)[key]),
    decreases i,
{
    if i > 0 {
        lemma_groups_map_wf(m, device_type, groups, i - 1);
        match spec_input_type_from_name(groups[i - 1].input_type_name@) {
            Some(input_type) => {
                lemma_entries_error_none_forall(input_type, groups[i - 1].inputs@);
                lemma_entries_map_wf(
                    spec_groups_map(m, device_type, groups, i - 1),
                    device_type,
                    input_type,
                    groups[i - 1].inputs@,
                    groups[i - 1].inputs@.len() as int,
                );
            },
            None => {},
        }
    }
}

/// The policy of any entry is well formed, whether or not the entry
/// validates.
proof fn lemma_create_remapper_wf(input_type: InputType, input: RemappedInput)
    requires
        spec_entry_error(input_type, input) is None,
    ensures
        spec_model_wf(spec_create_remapper(input_type, input)),
{
}

} // verus!
