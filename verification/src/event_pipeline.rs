//! The verified event path, end to end: one raw input sample in,
//! zero or more serialized keyboard reports out.
//!
//! A raw sample is resolved against the device's lookup table,
//! dispatched through the remapper registry, and the resulting key
//! event — if any survives the rate limiter — is applied to the
//! keyboard report, which is serialized once per elementary
//! transition.  The host's event loop feeds this function from its
//! input callback and writes the returned reports to its transport.

use vstd::prelude::*;

use crate::hid_device::HIDDevice;
use crate::hid_device::InputEvent;
use crate::hid_device::RawInputEvent;
use crate::hid_device_input::InputType;
use crate::input_remapper::InputRemapper;
use crate::input_remapper::spec_input_key;
use crate::input_remapper::spec_model_remap;
use crate::key_event::KeyEvent;
use crate::keyboard_report::spec_run_slots;
use crate::virtual_device::SentKeyEvent;
use crate::virtual_device::VirtualDevice;

verus! {

/// What the classifier stage yields for a raw sample, mirroring
/// [`HIDDevice::interpret_raw_input_event`].
pub open spec fn spec_interpret(device: HIDDevice, raw_event: RawInputEvent) -> Option<InputEvent> {
    if device.input_map_view().contains_key(raw_event.input_id) && device.input_map_view()[
        raw_event.input_id
    ].input_type != InputType::Other {
        Some(
            InputEvent {
                device_type: device.spec_device_type(),
                device_input: device.input_map_view()[raw_event.input_id],
                value: raw_event.value,
            },
        )
    } else {
        None
    }
}

/// What the registry stage yields for a classified event: the key
/// event emitted, if any, mirroring
/// [`InputRemapper::remap_input_event`].
pub open spec fn spec_remap_outcome(remapper: InputRemapper, event: InputEvent) -> Option<KeyEvent> {
    let key = spec_input_key(event.device_type, event.device_input.input_type, event.device_input.index);
    if remapper.registry_view().dom().contains(key) {
        spec_model_remap(remapper.registry_view()[key], event.value).0
    } else {
        None
    }
}

/// Feeds one raw input sample through the whole pipeline: classifier
/// lookup, registry dispatch, rate limiter and report encoder.
/// Returns the serialized reports to hand to the transport, in send
/// order; an unclassified sample, an unbound identity, a suppressed
/// event each produce none.
pub fn process_raw_input(
    device: &HIDDevice,
    remapper: &mut InputRemapper,
    output: &mut VirtualDevice,
    raw_event: RawInputEvent,
    now_ms: u64,
) -> (reports: Vec<Vec<i8>>)
    requires
        old(remapper).wf(),
        old(output).wf(),
    ensures
        final(remapper).wf(),
        final(output).wf(),
        final(output).spec_threshold_ms() == old(output).spec_threshold_ms(),
        final(output).spec_rfcomm_channel_id() == old(output).spec_rfcomm_channel_id(),
        match spec_interpret(*device, raw_event) {
            None => {
                &&& *final(remapper) == *old(remapper)
                &&& *final(output) == *old(output)
                &&& reports@.len() == 0
            },
            Some(event) => {
                let key = spec_input_key(
                    event.device_type,
                    event.device_input.input_type,
                    event.device_input.index,
                );
                &&& if old(remapper).registry_view().dom().contains(key) {
                    final(remapper).registry_view() == old(remapper).registry_view().insert(
                        key,
                        spec_model_remap(old(remapper).registry_view()[key], event.value).1,
                    )
                } else {
                    *final(remapper) == *old(remapper)
                }
                &&& match spec_remap_outcome(*old(remapper), event) {
                    None => {
                        &&& *final(output) == *old(output)
                        &&& reports@.len() == 0
                    },
                    Some(key_event) => if old(output).spec_should_send(key_event, now_ms) {
                        &&& final(output).spec_last_sent() == Some(
                            SentKeyEvent { event: key_event, timestamp_ms: now_ms },
                        )
                        &&& final(output).spec_input_report().slots() == spec_run_slots(
                            old(output).spec_input_report().slots(),
                            key_event.transitions(),
                        )
                        &&& reports@.len() == key_event.transitions().len()
                    } else {
                        &&& *final(output) == *old(output)
                        &&& reports@.len() == 0
                    },
                }
            },
        },
{
    match device.interpret_raw_input_event(raw_event) {
        Some(event) => {
            match remapper.remap_input_event(&event) {
                Some(key_event) => output.send_key_event(key_event, now_ms),
                None => Vec::new(),
            }
        },
        None => Vec::new(),
    }
}

} // verus!
