use hotas_remapper_lib::errors::ConfigError;
use hotas_remapper_lib::key_event::KeyEvent;
use hotas_remapper_lib::keyboard_report::KeyboardInputReport;
use hotas_remapper_lib::settings::VirtualDeviceSettings;
use hotas_remapper_lib::virtual_device::VirtualDevice;

fn settings(rfcomm_channel_id: i32, rate_limiting_threshold_ms: i32) -> VirtualDeviceSettings {
    VirtualDeviceSettings {
        mac_address: "aa-bb-cc-dd-ee-ff".to_string(),
        rfcomm_channel_id,
        rate_limiting_threshold_ms,
    }
}

#[test]
fn fresh_report_is_all_zero() {
    let report = KeyboardInputReport::new();
    assert_eq!(report.report().as_slice(), &[0i8; 7]);
    assert!(report.pressed_key_codes().is_empty());
}

#[test]
fn press_is_idempotent() {
    let mut report = KeyboardInputReport::new();
    assert!(report.update_key_state(42, true));
    assert!(report.update_key_state(42, true));
    assert_eq!(report.report().as_slice(), &[0, 42, 0, 0, 0, 0, 0]);
    assert_eq!(report.pressed_key_codes(), vec![42i8]);
}

#[test]
fn rollover_fills_slots_in_first_press_order() {
    let mut report = KeyboardInputReport::new();
    for code in 1..=6i8 {
        assert!(report.update_key_state(code, true));
    }
    assert_eq!(report.report().as_slice(), &[0, 1, 2, 3, 4, 5, 6]);
    // The seventh concurrent press is dropped and the slots are
    // unchanged.
    assert!(!report.update_key_state(7, true));
    assert_eq!(report.report().as_slice(), &[0, 1, 2, 3, 4, 5, 6]);
}

#[test]
fn release_clears_only_its_slot_and_frees_it() {
    let mut report = KeyboardInputReport::new();
    assert!(report.update_key_state(10, true));
    assert!(report.update_key_state(20, true));
    assert!(report.update_key_state(30, true));
    assert!(report.update_key_state(20, false));
    assert_eq!(report.report().as_slice(), &[0, 10, 0, 30, 0, 0, 0]);
    // The freed slot is the first empty one, so the next press takes it.
    assert!(report.update_key_state(40, true));
    assert_eq!(report.report().as_slice(), &[0, 10, 40, 30, 0, 0, 0]);
}

#[test]
fn key_code_zero_never_occupies_a_slot() {
    let mut report = KeyboardInputReport::new();
    assert!(report.update_key_state(0, true));
    assert_eq!(report.report().as_slice(), &[0i8; 7]);
    assert!(report.update_key_state(0, false));
    assert_eq!(report.report().as_slice(), &[0i8; 7]);
    assert!(report.pressed_key_codes().is_empty());
}

#[test]
fn release_of_unknown_key_is_ignored() {
    let mut report = KeyboardInputReport::new();
    assert!(report.update_key_state(10, true));
    assert!(report.update_key_state(99, false));
    assert_eq!(report.report().as_slice(), &[0, 10, 0, 0, 0, 0, 0]);
}

#[test]
fn decode_recovers_net_press_history() {
    let mut report = KeyboardInputReport::new();
    // Press A, pulse B (press then release), press C, release A.
    assert!(report.update_key_state(65, true));
    assert!(report.update_key_state(66, true));
    assert!(report.update_key_state(66, false));
    assert!(report.update_key_state(67, true));
    assert!(report.update_key_state(65, false));
    // Only C is still down: the transient pulse and the released key
    // leave no trace.
    assert_eq!(report.pressed_key_codes(), vec![67i8]);
}

fn settings_error(rfcomm_channel_id: i32, rate_limiting_threshold_ms: i32) -> ConfigError {
    match VirtualDevice::new(&settings(rfcomm_channel_id, rate_limiting_threshold_ms)) {
        Ok(_) => panic!("expected the settings to be rejected"),
        Err(error) => error,
    }
}

#[test]
fn virtual_device_validates_settings() {
    assert_eq!(settings_error(256, 100), ConfigError::InvalidRfcommChannelId(256));
    assert_eq!(settings_error(-1, 100), ConfigError::InvalidRfcommChannelId(-1));
    assert_eq!(settings_error(3, -5), ConfigError::NegativeRateLimitingThreshold(-5));
    let device = match VirtualDevice::new(&settings(3, 100)) {
        Ok(device) => device,
        Err(_) => panic!("expected the settings to be accepted"),
    };
    assert_eq!(device.rfcomm_channel_id(), 3);
}

#[test]
fn rate_limiter_suppresses_identical_events_within_threshold() {
    let mut device = VirtualDevice::new(&settings(3, 100)).unwrap();
    let event = KeyEvent::PressAndRelease(42);
    let reports = device.send_key_event(event, 0);
    assert_eq!(reports.len(), 2);
    // Identical event 10 ms later: suppressed.
    assert!(!device.should_send_key_event(event, 10));
    assert!(device.send_key_event(event, 10).is_empty());
    // Identical event 150 ms after the first send: passes.
    assert!(device.should_send_key_event(event, 150));
    assert_eq!(device.send_key_event(event, 150).len(), 2);
}

#[test]
fn rate_limiter_passes_different_events() {
    let mut device = VirtualDevice::new(&settings(3, 100)).unwrap();
    device.send_key_event(KeyEvent::Press(42), 0);
    // A different event passes immediately.
    assert!(device.should_send_key_event(KeyEvent::Release(42), 1));
    assert_eq!(device.send_key_event(KeyEvent::Release(42), 1).len(), 1);
}

#[test]
fn zero_threshold_disables_rate_limiting() {
    let mut device = VirtualDevice::new(&settings(3, 0)).unwrap();
    let event = KeyEvent::PressAndRelease(42);
    assert_eq!(device.send_key_event(event, 5).len(), 2);
    assert!(device.should_send_key_event(event, 5));
    assert_eq!(device.send_key_event(event, 5).len(), 2);
}

#[test]
fn send_key_event_serializes_each_transition() {
    let mut device = VirtualDevice::new(&settings(3, 100)).unwrap();
    let reports = device.send_key_event(KeyEvent::Press(42), 0);
    assert_eq!(reports, vec![vec![0, 42, 0, 0, 0, 0, 0]]);

    let reports = device.send_key_event(
        KeyEvent::ReleaseAndPress { to_release: 42, to_press: 43 },
        200,
    );
    assert_eq!(
        reports,
        vec![vec![0, 0, 0, 0, 0, 0, 0], vec![0, 43, 0, 0, 0, 0, 0]]
    );

    let reports = device.send_key_event(KeyEvent::PressAndRelease(50), 400);
    assert_eq!(
        reports,
        vec![vec![0, 43, 50, 0, 0, 0, 0], vec![0, 43, 0, 0, 0, 0, 0]]
    );
}
