use hotas_remapper_lib::config::AxisInput;
use hotas_remapper_lib::config::ButtonInput;
use hotas_remapper_lib::config::HatSwitchInput;
use hotas_remapper_lib::config::ToggleSwitchInput;
use hotas_remapper_lib::errors::ConfigError;
use hotas_remapper_lib::axis_remapper::AxisRemapper;
use hotas_remapper_lib::button_remapper::ButtonRemapper;
use hotas_remapper_lib::hat_switch_remapper::HatSwitchRemapper;
use hotas_remapper_lib::key_code::convert_key_code;
use hotas_remapper_lib::key_code::convert_key_codes;
use hotas_remapper_lib::key_event::KeyEvent;
use hotas_remapper_lib::toggle_switch_remapper::ToggleSwitchRemapper;

#[test]
fn button_zero_releases_nonzero_presses() {
    let remapper = ButtonRemapper::try_from_input(&ButtonInput { key_code: 42 }).unwrap();
    assert_eq!(remapper.remap(0), Some(KeyEvent::Release(42)));
    assert_eq!(remapper.remap(1), Some(KeyEvent::Press(42)));
    assert_eq!(remapper.remap(-7), Some(KeyEvent::Press(42)));
    assert_eq!(remapper.remap(i32::MAX), Some(KeyEvent::Press(42)));
    assert_eq!(remapper.remap(0), Some(KeyEvent::Release(42)));
}

#[test]
fn button_key_code_out_of_range() {
    let result = ButtonRemapper::try_from_input(&ButtonInput { key_code: 300 });
    assert_eq!(result.unwrap_err(), ConfigError::KeyCodeOutOfRange(300));
}

#[test]
fn axis_quantizes_with_clamping() {
    let remapper = AxisRemapper::try_from_input(&AxisInput {
        key_codes: vec![10, 20, 30],
        min_value: 0,
        max_value: 100,
        reverse_axis: false,
    })
    .unwrap();
    assert_eq!(remapper.remap(0), Some(KeyEvent::PressAndRelease(10)));
    assert_eq!(remapper.remap(50), Some(KeyEvent::PressAndRelease(20)));
    assert_eq!(remapper.remap(100), Some(KeyEvent::PressAndRelease(30)));
    assert_eq!(remapper.remap(-10), Some(KeyEvent::PressAndRelease(10)));
    assert_eq!(remapper.remap(110), Some(KeyEvent::PressAndRelease(30)));
    // Every call pulses, whether or not the bucket changed.
    assert_eq!(remapper.remap(50), Some(KeyEvent::PressAndRelease(20)));
    assert_eq!(remapper.remap(50), Some(KeyEvent::PressAndRelease(20)));
}

#[test]
fn axis_bucket_boundaries() {
    let remapper = AxisRemapper::try_from_input(&AxisInput {
        key_codes: vec![1, 2],
        min_value: 0,
        max_value: 10,
        reverse_axis: false,
    })
    .unwrap();
    assert_eq!(remapper.remap(4), Some(KeyEvent::PressAndRelease(1)));
    // The midpoint rounds to the higher bucket.
    assert_eq!(remapper.remap(5), Some(KeyEvent::PressAndRelease(2)));
    assert_eq!(remapper.remap(6), Some(KeyEvent::PressAndRelease(2)));
}

#[test]
fn axis_reversed_swaps_range_ends() {
    let remapper = AxisRemapper::try_from_input(&AxisInput {
        key_codes: vec![10, 20, 30],
        min_value: 0,
        max_value: 100,
        reverse_axis: true,
    })
    .unwrap();
    assert_eq!(remapper.remap(100), Some(KeyEvent::PressAndRelease(10)));
    assert_eq!(remapper.remap(50), Some(KeyEvent::PressAndRelease(20)));
    assert_eq!(remapper.remap(0), Some(KeyEvent::PressAndRelease(30)));
}

#[test]
fn axis_config_errors() {
    let too_few = AxisRemapper::try_from_input(&AxisInput {
        key_codes: vec![10],
        min_value: 0,
        max_value: 100,
        reverse_axis: false,
    });
    assert_eq!(too_few.unwrap_err(), ConfigError::TooFewAxisKeyCodes(1));

    let empty_range = AxisRemapper::try_from_input(&AxisInput {
        key_codes: vec![10, 20],
        min_value: 5,
        max_value: 5,
        reverse_axis: false,
    });
    assert_eq!(empty_range.unwrap_err(), ConfigError::InvalidAxisRange);

    let bad_code = AxisRemapper::try_from_input(&AxisInput {
        key_codes: vec![10, 500],
        min_value: 0,
        max_value: 100,
        reverse_axis: false,
    });
    assert_eq!(bad_code.unwrap_err(), ConfigError::KeyCodeOutOfRange(500));
}

#[test]
fn hat_switch_transitions() {
    // North, East, South, West.
    let mut remapper = HatSwitchRemapper::try_from_input(&HatSwitchInput {
        key_codes: vec![11, 12, 13, 14],
    })
    .unwrap();
    assert_eq!(remapper.remap(0), Some(KeyEvent::Press(11)));
    assert_eq!(
        remapper.remap(2),
        Some(KeyEvent::ReleaseAndPress { to_release: 11, to_press: 13 })
    );
    // 15 is the centered sentinel an 8-way hat emits: out of range,
    // treated as no direction.
    assert_eq!(remapper.remap(15), Some(KeyEvent::Release(13)));
    assert_eq!(remapper.remap(15), None);
}

#[test]
fn hat_switch_same_direction_suppressed() {
    let mut remapper = HatSwitchRemapper::try_from_input(&HatSwitchInput {
        key_codes: vec![11, 12, 13, 14],
    })
    .unwrap();
    assert_eq!(remapper.remap(1), Some(KeyEvent::Press(12)));
    assert_eq!(remapper.remap(1), None);
    assert_eq!(remapper.remap(1), None);
    assert_eq!(
        remapper.remap(3),
        Some(KeyEvent::ReleaseAndPress { to_release: 12, to_press: 14 })
    );
}

#[test]
fn hat_switch_wrong_code_count() {
    let five = HatSwitchRemapper::try_from_input(&HatSwitchInput {
        key_codes: vec![1, 2, 3, 4, 5],
    });
    assert_eq!(five.unwrap_err(), ConfigError::WrongHatSwitchKeyCodeCount(5));

    let eight = HatSwitchRemapper::try_from_input(&HatSwitchInput {
        key_codes: vec![1, 2, 3, 4, 5, 6, 7, 8],
    });
    assert!(eight.is_ok());
}

#[test]
fn toggle_switch_pulses_on_and_off_keys() {
    let remapper = ToggleSwitchRemapper::try_from_input(&ToggleSwitchInput {
        on_key_code: 21,
        off_key_code: 22,
    })
    .unwrap();
    assert_eq!(remapper.remap(1), Some(KeyEvent::PressAndRelease(21)));
    assert_eq!(remapper.remap(0), Some(KeyEvent::PressAndRelease(22)));
    assert_eq!(remapper.remap(5), Some(KeyEvent::PressAndRelease(21)));
}

#[test]
fn toggle_switch_rejects_bad_codes() {
    let bad_on = ToggleSwitchRemapper::try_from_input(&ToggleSwitchInput {
        on_key_code: -200,
        off_key_code: 22,
    });
    assert_eq!(bad_on.unwrap_err(), ConfigError::KeyCodeOutOfRange(-200));

    let bad_off = ToggleSwitchRemapper::try_from_input(&ToggleSwitchInput {
        on_key_code: 21,
        off_key_code: 1000,
    });
    assert_eq!(bad_off.unwrap_err(), ConfigError::KeyCodeOutOfRange(1000));
}

#[test]
fn axis_handles_extreme_values() {
    let remapper = AxisRemapper::try_from_input(&AxisInput {
        key_codes: vec![1, 2],
        min_value: i32::MIN,
        max_value: i32::MAX,
        reverse_axis: false,
    })
    .unwrap();
    assert_eq!(remapper.remap(i32::MIN), Some(KeyEvent::PressAndRelease(1)));
    assert_eq!(remapper.remap(i32::MAX), Some(KeyEvent::PressAndRelease(2)));
    assert_eq!(remapper.remap(0), Some(KeyEvent::PressAndRelease(2)));
    assert_eq!(remapper.remap(-2), Some(KeyEvent::PressAndRelease(1)));
}

#[test]
fn eight_way_hat_switch() {
    let mut remapper = HatSwitchRemapper::try_from_input(&HatSwitchInput {
        key_codes: vec![1, 2, 3, 4, 5, 6, 7, 8],
    })
    .unwrap();
    assert_eq!(remapper.remap(7), Some(KeyEvent::Press(8)));
    assert_eq!(
        remapper.remap(0),
        Some(KeyEvent::ReleaseAndPress { to_release: 8, to_press: 1 })
    );
    assert_eq!(remapper.remap(8), Some(KeyEvent::Release(1)));
    // Negative values are out of the direction range too.
    assert_eq!(remapper.remap(-1), None);
}

#[test]
fn key_code_conversion() {
    assert_eq!(convert_key_code(127), Ok(127));
    assert_eq!(convert_key_code(-128), Ok(-128));
    assert_eq!(convert_key_code(128), Err(ConfigError::KeyCodeOutOfRange(128)));
    assert_eq!(convert_key_code(-129), Err(ConfigError::KeyCodeOutOfRange(-129)));

    assert_eq!(convert_key_codes(&vec![1, 2, 3]).unwrap(), vec![1i8, 2, 3]);
    // The first out-of-range value is reported.
    assert_eq!(
        convert_key_codes(&vec![1, 400, 500]).unwrap_err(),
        ConfigError::KeyCodeOutOfRange(400)
    );
}
