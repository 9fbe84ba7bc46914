//! A verified core for a HOTAS-to-virtual-keyboard remapping engine.
//!
//! The library turns raw joystick/throttle input samples into discrete
//! key-press and key-release events and assembles those events into
//! fixed-length keyboard input reports:
//!
//! * [`hid_device_input`] classifies raw device elements into semantic
//!   input channels and assigns stable per-kind ordinals.
//! * [`input_remapper`] holds the registry that maps a semantic input
//!   identity to its configured remapping policy.
//! * `button_remapper`, `axis_remapper`, `hat_switch_remapper` and
//!   `toggle_switch_remapper` implement the per-input-type policies.
//! * [`keyboard_report`] owns the 6-slot rollover buffer of the keyboard
//!   input report.
//! * [`virtual_device`] combines the report encoder with a rate limiter
//!   that bounds how often identical events reach the transport.
//!
//! All platform plumbing (device enumeration, Bluetooth transport,
//! configuration file parsing) lives outside this crate; the library only
//! consumes plain values and produces plain values.

use vstd::prelude::*;

pub mod axis_remapper;
pub mod button_remapper;
pub mod config;
pub mod errors;
pub mod event_pipeline;
pub mod hat_switch_remapper;
pub mod hid_device;
pub mod hid_device_input;
pub mod input_remapper;
pub mod key_code;
pub mod key_event;
pub mod keyboard_report;
pub mod settings;
pub mod strings;
pub mod toggle_switch_remapper;
pub mod virtual_device;

verus! {

/// A human-readable name for the project, used by hosts when logging
/// open and close transitions.
pub fn project_name() -> (name: String)
    ensures
        name@ == "HOTAS Remapper"@,
{
    "HOTAS Remapper".to_owned()
}

/// The connection whose status a host callback reports: one of the two
/// physical input devices, the virtual output device, or the RFCOMM
/// channel carrying the reports.
#[derive(Clone, Copy, Debug, PartialEq, Eq, Structural)]
pub enum ConnectionType {
    Joystick,
    Throttle,
    VirtualDevice,
    RFCOMMChannel,
}

impl From<crate::hid_device::DeviceType> for ConnectionType {
    fn from(value: crate::hid_device::DeviceType) -> (result: Self) {
        match value {
            crate::hid_device::DeviceType::Joystick => ConnectionType::Joystick,
            crate::hid_device::DeviceType::Throttle => ConnectionType::Throttle,
        }
    }
}

impl vstd::std_specs::convert::FromSpecImpl<crate::hid_device::DeviceType> for ConnectionType {
    open spec fn obeys_from_spec() -> bool {
        true
    }

    open spec fn from_spec(value: crate::hid_device::DeviceType) -> Self {
        match value {
            crate::hid_device::DeviceType::Joystick => ConnectionType::Joystick,
            crate::hid_device::DeviceType::Throttle => ConnectionType::Throttle,
        }
    }
}

} // verus!
