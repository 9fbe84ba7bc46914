use hotas_remapper_lib::ConnectionType;
use hotas_remapper_lib::config::AxisInput;
use hotas_remapper_lib::config::ButtonInput;
use hotas_remapper_lib::config::HatSwitchInput;
use hotas_remapper_lib::config::IndexedInput;
use hotas_remapper_lib::config::InputGroup;
use hotas_remapper_lib::config::InputRemapping;
use hotas_remapper_lib::config::RemappedInput;
use hotas_remapper_lib::errors::ConfigError;
use hotas_remapper_lib::event_pipeline::process_raw_input;
use hotas_remapper_lib::hid_device::DeviceProperty;
use hotas_remapper_lib::hid_device::DeviceType;
use hotas_remapper_lib::hid_device::HIDDevice;
use hotas_remapper_lib::hid_device::InputEvent;
use hotas_remapper_lib::hid_device::RawInputEvent;
use hotas_remapper_lib::hid_device_input::DeviceInput;
use hotas_remapper_lib::hid_device_input::ElementProperty;
use hotas_remapper_lib::hid_device_input::InputIndexTracker;
use hotas_remapper_lib::hid_device_input::InputType;
use hotas_remapper_lib::input_remapper::InputRemapper;
use hotas_remapper_lib::key_event::KeyEvent;
use hotas_remapper_lib::project_name;
use hotas_remapper_lib::settings::DeviceInfo;
use hotas_remapper_lib::settings::InputReaderSettings;
use hotas_remapper_lib::settings::VirtualDeviceSettings;
use hotas_remapper_lib::settings::VirtualDeviceSelector;
use hotas_remapper_lib::strings::str_eq;
use hotas_remapper_lib::virtual_device::VirtualDevice;

fn throttle_button_event(index: i32, value: i32) -> InputEvent {
    InputEvent {
        device_type: DeviceType::Throttle,
        device_input: DeviceInput { input_type: InputType::Button, index },
        value,
    }
}

fn button_group(entries: Vec<(i32, i32)>) -> InputGroup {
    InputGroup {
        input_type_name: "button".to_string(),
        inputs: entries
            .into_iter()
            .map(|(index, key_code)| IndexedInput {
                index,
                input: RemappedInput::Button(ButtonInput { key_code }),
            })
            .collect(),
    }
}

#[test]
fn registry_loads_and_dispatches() {
    let mut registry = InputRemapper::new();
    let config = InputRemapping {
        joystick_inputs: vec![InputGroup {
            input_type_name: "hat".to_string(),
            inputs: vec![IndexedInput {
                index: 0,
                input: RemappedInput::HatSwitch(HatSwitchInput {
                    key_codes: vec![1, 2, 3, 4],
                }),
            }],
        }],
        throttle_inputs: vec![
            button_group(vec![(0, 40), (1, 41)]),
            InputGroup {
                input_type_name: "z-axis".to_string(),
                inputs: vec![IndexedInput {
                    index: 0,
                    input: RemappedInput::Axis(AxisInput {
                        key_codes: vec![10, 20, 30],
                        min_value: 0,
                        max_value: 100,
                        reverse_axis: false,
                    }),
                }],
            },
        ],
    };
    registry.load_input_remapping(&config).unwrap();

    assert_eq!(
        registry.remap_input_event(&throttle_button_event(0, 1)),
        Some(KeyEvent::Press(40))
    );
    assert_eq!(
        registry.remap_input_event(&throttle_button_event(1, 0)),
        Some(KeyEvent::Release(41))
    );
    let z_axis = InputEvent {
        device_type: DeviceType::Throttle,
        device_input: DeviceInput { input_type: InputType::ZAxis, index: 0 },
        value: 100,
    };
    assert_eq!(
        registry.remap_input_event(&z_axis),
        Some(KeyEvent::PressAndRelease(30))
    );
    // The hat is stateful across calls through the registry.
    let hat = |value| InputEvent {
        device_type: DeviceType::Joystick,
        device_input: DeviceInput { input_type: InputType::Hat, index: 0 },
        value,
    };
    assert_eq!(registry.remap_input_event(&hat(0)), Some(KeyEvent::Press(1)));
    assert_eq!(
        registry.remap_input_event(&hat(2)),
        Some(KeyEvent::ReleaseAndPress { to_release: 1, to_press: 3 })
    );
    assert_eq!(registry.remap_input_event(&hat(2)), None);
    // Unbound identities are silently ignored.
    assert_eq!(registry.remap_input_event(&throttle_button_event(7, 1)), None);
    // The same ordinal on the joystick is a different identity.
    let joystick_button = InputEvent {
        device_type: DeviceType::Joystick,
        device_input: DeviceInput { input_type: InputType::Button, index: 0 },
        value: 1,
    };
    assert_eq!(registry.remap_input_event(&joystick_button), None);
}

#[test]
fn registry_load_is_atomic_on_failure() {
    let mut registry = InputRemapper::new();
    let good = InputRemapping {
        joystick_inputs: vec![],
        throttle_inputs: vec![button_group(vec![(0, 40)])],
    };
    registry.load_input_remapping(&good).unwrap();

    // One valid and one invalid entry: the load must fail...
    let bad = InputRemapping {
        joystick_inputs: vec![],
        throttle_inputs: vec![button_group(vec![(1, 50), (2, 999)])],
    };
    assert_eq!(
        registry.load_input_remapping(&bad).unwrap_err(),
        ConfigError::KeyCodeOutOfRange(999)
    );
    // ...and the previously active registry must be fully intact: the
    // old binding still works and nothing of the failed load is
    // visible.
    assert_eq!(
        registry.remap_input_event(&throttle_button_event(0, 1)),
        Some(KeyEvent::Press(40))
    );
    assert_eq!(registry.remap_input_event(&throttle_button_event(1, 1)), None);
}

#[test]
fn registry_later_entry_for_same_identity_wins() {
    let mut registry = InputRemapper::new();
    let config = InputRemapping {
        joystick_inputs: vec![],
        throttle_inputs: vec![
            button_group(vec![(0, 40)]),
            button_group(vec![(0, 41)]),
        ],
    };
    registry.load_input_remapping(&config).unwrap();
    assert_eq!(
        registry.remap_input_event(&throttle_button_event(0, 1)),
        Some(KeyEvent::Press(41))
    );
}

#[test]
fn reload_replaces_previous_registry() {
    let mut registry = InputRemapper::new();
    let first = InputRemapping {
        joystick_inputs: vec![],
        throttle_inputs: vec![button_group(vec![(0, 40)])],
    };
    registry.load_input_remapping(&first).unwrap();
    let second = InputRemapping {
        joystick_inputs: vec![],
        throttle_inputs: vec![button_group(vec![(1, 50)])],
    };
    registry.load_input_remapping(&second).unwrap();
    // Only the newly loaded bindings are active.
    assert_eq!(registry.remap_input_event(&throttle_button_event(0, 1)), None);
    assert_eq!(
        registry.remap_input_event(&throttle_button_event(1, 1)),
        Some(KeyEvent::Press(50))
    );
}

#[test]
fn registry_rejects_bad_groups() {
    let mut registry = InputRemapper::new();
    let unknown_name = InputRemapping {
        joystick_inputs: vec![InputGroup {
            input_type_name: "pedals".to_string(),
            inputs: vec![],
        }],
        throttle_inputs: vec![],
    };
    assert_eq!(
        registry.load_input_remapping(&unknown_name).unwrap_err(),
        ConfigError::UnknownInputTypeName
    );

    // An axis payload under a "button" group is a configuration error.
    let mismatched = InputRemapping {
        joystick_inputs: vec![],
        throttle_inputs: vec![InputGroup {
            input_type_name: "button".to_string(),
            inputs: vec![IndexedInput {
                index: 0,
                input: RemappedInput::Axis(AxisInput {
                    key_codes: vec![1, 2],
                    min_value: 0,
                    max_value: 100,
                    reverse_axis: false,
                }),
            }],
        }],
    };
    assert_eq!(
        registry.load_input_remapping(&mismatched).unwrap_err(),
        ConfigError::MismatchedInputPayload
    );
}

#[test]
fn classifier_assigns_dense_ordinals_per_kind() {
    // Element types: 2 = button, 1 = miscellaneous input.
    let elements = vec![
        ElementProperty { identifier: 100, element_type: 2, usage: 1 },
        ElementProperty { identifier: 101, element_type: 2, usage: 2 },
        ElementProperty { identifier: 102, element_type: 1, usage: 0x30 },
        ElementProperty { identifier: 103, element_type: 1, usage: 0x39 },
        ElementProperty { identifier: 104, element_type: 2, usage: 3 },
        // An unrecognized pairing is omitted.
        ElementProperty { identifier: 105, element_type: 7, usage: 1 },
        // A collection element is classified Other.
        ElementProperty { identifier: 106, element_type: 513, usage: 1 },
    ];
    let device = HIDDevice::from_elements(DeviceType::Joystick, &elements);
    assert_eq!(device.device_type(), DeviceType::Joystick);

    let interpret = |input_id, value| {
        device.interpret_raw_input_event(RawInputEvent { input_id, value })
    };
    let button0 = interpret(100, 1).unwrap();
    assert_eq!(button0.device_input, DeviceInput { input_type: InputType::Button, index: 0 });
    let button1 = interpret(101, 1).unwrap();
    assert_eq!(button1.device_input, DeviceInput { input_type: InputType::Button, index: 1 });
    let button2 = interpret(104, 9).unwrap();
    assert_eq!(button2.device_input, DeviceInput { input_type: InputType::Button, index: 2 });
    assert_eq!(button2.value, 9);
    let x_axis = interpret(102, 512).unwrap();
    assert_eq!(x_axis.device_input, DeviceInput { input_type: InputType::XAxis, index: 0 });
    let hat = interpret(103, 2).unwrap();
    assert_eq!(hat.device_input, DeviceInput { input_type: InputType::Hat, index: 0 });
    // Unknown identifiers and Other channels produce no event.
    assert!(interpret(105, 1).is_none());
    assert!(interpret(106, 1).is_none());
    assert!(interpret(999, 1).is_none());
}

#[test]
fn classifier_tracks_indices_per_type() {
    let mut tracker = InputIndexTracker::new();
    let button = ElementProperty { identifier: 1, element_type: 2, usage: 1 };
    let slider = ElementProperty { identifier: 2, element_type: 1, usage: 0x36 };
    let (id, input) = DeviceInput::try_new(&button, &mut tracker).unwrap();
    assert_eq!((id, input), (1, DeviceInput { input_type: InputType::Button, index: 0 }));
    let (_, input) = DeviceInput::try_new(&button, &mut tracker).unwrap();
    assert_eq!(input.index, 1);
    let (_, input) = DeviceInput::try_new(&slider, &mut tracker).unwrap();
    assert_eq!(input, DeviceInput { input_type: InputType::Slider, index: 0 });
    // The low usage range on a miscellaneous element is Other.
    let ignored = ElementProperty { identifier: 3, element_type: 1, usage: 0x2f };
    let (_, input) = DeviceInput::try_new(&ignored, &mut tracker).unwrap();
    assert_eq!(input.input_type, InputType::Other);
    // An unknown usage on a miscellaneous element is omitted.
    let unknown = ElementProperty { identifier: 4, element_type: 1, usage: 0x37 };
    assert!(DeviceInput::try_new(&unknown, &mut tracker).is_none());
}

#[test]
fn input_type_names() {
    assert_eq!(InputType::try_from_name("button"), Some(InputType::Button));
    assert_eq!(InputType::try_from_name("hat"), Some(InputType::Hat));
    assert_eq!(InputType::try_from_name("x-axis"), Some(InputType::XAxis));
    assert_eq!(InputType::try_from_name("y-axis"), Some(InputType::YAxis));
    assert_eq!(InputType::try_from_name("z-axis"), Some(InputType::ZAxis));
    assert_eq!(InputType::try_from_name("rx-axis"), Some(InputType::RxAxis));
    assert_eq!(InputType::try_from_name("ry-axis"), Some(InputType::RyAxis));
    assert_eq!(InputType::try_from_name("rz-axis"), Some(InputType::RzAxis));
    assert_eq!(InputType::try_from_name("slider"), Some(InputType::Slider));
    assert_eq!(InputType::try_from_name("throttle"), None);
    assert_eq!(InputType::try_from_name(""), None);
}

#[test]
fn device_type_from_property() {
    let joystick = DeviceProperty {
        device_name: "Joystick - HOTAS Warthog".to_string(),
        vendor_id: 0x44f,
        product_id: 0x402,
        transport: "USB".to_string(),
    };
    assert_eq!(DeviceType::try_from_property(&joystick), Some(DeviceType::Joystick));
    let throttle = DeviceProperty {
        device_name: "Throttle - HOTAS Warthog".to_string(),
        vendor_id: 0x44f,
        product_id: 0x404,
        transport: "USB".to_string(),
    };
    assert_eq!(DeviceType::try_from_property(&throttle), Some(DeviceType::Throttle));
    let other = DeviceProperty {
        device_name: "Some Gamepad".to_string(),
        vendor_id: 1,
        product_id: 2,
        transport: "USB".to_string(),
    };
    assert_eq!(DeviceType::try_from_property(&other), None);
}

#[test]
fn device_type_from_settings_names() {
    let settings = InputReaderSettings {
        joystick_device_name: "Stick A".to_string(),
        throttle_device_name: "Throttle B".to_string(),
    };
    assert_eq!(settings.try_get_device_type("Stick A"), Some(DeviceType::Joystick));
    assert_eq!(settings.try_get_device_type("Throttle B"), Some(DeviceType::Throttle));
    assert_eq!(settings.try_get_device_type("Stick B"), None);
}

#[test]
fn selector_matches_mac_address() {
    let settings = VirtualDeviceSettings {
        mac_address: "11-22-33-44-55-66".to_string(),
        rfcomm_channel_id: 3,
        rate_limiting_threshold_ms: 100,
    };
    let selector = VirtualDeviceSelector::new(&settings);
    let target = DeviceInfo {
        name: "Target".to_string(),
        mac_address: "11-22-33-44-55-66".to_string(),
    };
    assert!(selector.is_target_device(&target));
    let other = DeviceInfo {
        name: "Other".to_string(),
        mac_address: "11-22-33-44-55-67".to_string(),
    };
    assert!(!selector.is_target_device(&other));
}

#[test]
fn pipeline_end_to_end() {
    let elements = vec![ElementProperty { identifier: 100, element_type: 2, usage: 1 }];
    let device = HIDDevice::from_elements(DeviceType::Throttle, &elements);

    let mut registry = InputRemapper::new();
    let config = InputRemapping {
        joystick_inputs: vec![],
        throttle_inputs: vec![button_group(vec![(0, 42)])],
    };
    registry.load_input_remapping(&config).unwrap();

    let mut output = VirtualDevice::new(&VirtualDeviceSettings {
        mac_address: "11-22-33-44-55-66".to_string(),
        rfcomm_channel_id: 3,
        rate_limiting_threshold_ms: 100,
    })
    .unwrap();

    let press = RawInputEvent { input_id: 100, value: 1 };
    let reports = process_raw_input(&device, &mut registry, &mut output, press, 0);
    assert_eq!(reports, vec![vec![0, 42, 0, 0, 0, 0, 0]]);

    let release = RawInputEvent { input_id: 100, value: 0 };
    let reports = process_raw_input(&device, &mut registry, &mut output, release, 10);
    assert_eq!(reports, vec![vec![0, 0, 0, 0, 0, 0, 0]]);

    // An unknown element produces nothing.
    let unknown = RawInputEvent { input_id: 999, value: 1 };
    assert!(process_raw_input(&device, &mut registry, &mut output, unknown, 20).is_empty());

    // The same release repeated within the threshold is rate limited.
    let reports = process_raw_input(&device, &mut registry, &mut output, release, 20);
    assert!(reports.is_empty());
}

#[test]
fn project_name_and_connection_types() {
    assert_eq!(project_name(), "HOTAS Remapper");
    assert_eq!(ConnectionType::from(DeviceType::Joystick), ConnectionType::Joystick);
    assert_eq!(ConnectionType::from(DeviceType::Throttle), ConnectionType::Throttle);
}

#[test]
fn string_equality() {
    assert!(str_eq("abc", "abc"));
    assert!(!str_eq("abc", "abd"));
    assert!(!str_eq("abc", "abcd"));
    assert!(str_eq("", ""));
}
