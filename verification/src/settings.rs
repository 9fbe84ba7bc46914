//! Host-provided settings, already parsed into plain values.
//!
//! The host's configuration loader parses its settings file and hands
//! this library the resulting values; the library only matches names
//! and validates ranges.

use vstd::prelude::*;

use crate::hid_device::DeviceType;

verus! {

/// Settings for the input-reading side: the product names the two
/// device roles are matched by.
pub struct InputReaderSettings {
    pub joystick_device_name: String,
    pub throttle_device_name: String,
}

impl InputReaderSettings {
    /// Which configured device role a reported device name matches; the
    /// joystick name is checked first, so a name configured for both
    /// roles resolves to the joystick.
    pub open spec fn spec_device_type_of(self, device_name: Seq<char>) -> Option<DeviceType> {
        if device_name == self.joystick_device_name@ {
            Some(DeviceType::Joystick)
        } else if device_name == self.throttle_device_name@ {
            Some(DeviceType::Throttle)
        } else {
            None
        }
    }

    /// Matches a reported device name against the configured names, per
    /// [`InputReaderSettings::spec_device_type_of`].
    pub fn try_get_device_type(&self, device_name: &str) -> (result: Option<DeviceType>)
        ensures
            result == self.spec_device_type_of(device_name@),
    {
        if crate::strings::str_eq(device_name, self.joystick_device_name.as_str()) {
            Some(DeviceType::Joystick)
        } else if crate::strings::str_eq(device_name, self.throttle_device_name.as_str()) {
            Some(DeviceType::Throttle)
        } else {
            None
        }
    }
}

/// Settings for the virtual output device: which Bluetooth peer to
/// drive, over which RFCOMM channel, and how strongly to rate-limit
/// repeated identical key events.
pub struct VirtualDeviceSettings {
    pub mac_address: String,
    pub rfcomm_channel_id: i32,
    pub rate_limiting_threshold_ms: i32,
}

/// The complete host settings.
pub struct Settings {
    pub input_reader_settings: InputReaderSettings,
    pub virtual_device_settings: VirtualDeviceSettings,
}

/// The identity of a Bluetooth peer as the transport reports it.
pub struct DeviceInfo {
    pub name: String,
    pub mac_address: String,
}

/// Selects the configured virtual output device among connected
/// Bluetooth peers by MAC address.
pub struct VirtualDeviceSelector {
    mac_address: String,
}

impl VirtualDeviceSelector {
    /// The MAC address this selector was configured with.
    pub closed spec fn spec_mac_address(self) -> Seq<char> {
        self.mac_address@
    }

    /// A selector for the peer named in the settings.
    pub fn new(settings: &VirtualDeviceSettings) -> (selector: Self)
        ensures
            selector.spec_mac_address() == settings.mac_address@,
    {
        VirtualDeviceSelector { mac_address: settings.mac_address.clone() }
    }

    /// True exactly when the peer's MAC address is the configured one.
    pub fn is_target_device(&self, device_info: &DeviceInfo) -> (result: bool)
        ensures
            result == (device_info.mac_address@ == self.spec_mac_address()),
    {
        crate::strings::str_eq(device_info.mac_address.as_str(), self.mac_address.as_str())
    }
}

} // verus!
