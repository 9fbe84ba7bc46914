//! The virtual output device: the keyboard report it maintains and
//! the rate limiter that bounds the transport message rate.
//!
//! Sending a key event means deciding whether it may be sent at all
//! (rate limiting), applying its elementary transitions to the report,
//! and serializing the report once per transition for the transport.
//! The transport itself — an RFCOMM channel to a Bluetooth peer — is
//! the host's business: this core hands back the ready-to-send report
//! bytes in order.

use vstd::prelude::*;

use crate::errors::ConfigError;
use crate::key_event::KeyEvent;
use crate::keyboard_report::KeyboardInputReport;
use crate::keyboard_report::REPORT_LENGTH;
use crate::keyboard_report::spec_run_slots;
use crate::keyboard_report::spec_update_slots;
use crate::settings::VirtualDeviceSettings;

verus! {

/// The record the rate limiter keeps: the last event actually sent
/// and when it was sent.
#[derive(Clone, Copy, Debug, PartialEq, Eq, Structural)]
pub struct SentKeyEvent {
    pub event: KeyEvent,
    pub timestamp_ms: u64,
}

/// How much time has passed since `last_timestamp_ms`, by a clock
/// reading `now_ms`; a clock that ran backwards counts as no time
/// passed.
pub open spec fn spec_elapsed_ms(last_timestamp_ms: u64, now_ms: u64) -> int {
    if now_ms >= last_timestamp_ms {
        now_ms - last_timestamp_ms
    } else {
        0
    }
}

/// The first error in the virtual-device settings, in validation
/// order: the RFCOMM channel id must fit in a byte, then the
/// rate-limiting threshold must be non-negative.
pub open spec fn spec_virtual_device_settings_error(settings: VirtualDeviceSettings) -> Option<
    ConfigError,
> {
    if !(0 <= settings.rfcomm_channel_id <= u8::MAX) {
        Some(ConfigError::InvalidRfcommChannelId(settings.rfcomm_channel_id))
    } else if settings.rate_limiting_threshold_ms < 0 {
        Some(ConfigError::NegativeRateLimitingThreshold(settings.rate_limiting_threshold_ms))
    } else {
        None
    }
}

/// The virtual keyboard: its current input report, the rate-limiter
/// record, and the configured threshold and RFCOMM channel id.
pub struct VirtualDevice {
    input_report: KeyboardInputReport,
    last_sent_key_event: Option<SentKeyEvent>,
    rate_limiting_threshold_ms: u64,
    rfcomm_channel_id: u8,
}

impl VirtualDevice {
    /// The current keyboard input report.
    pub closed spec fn spec_input_report(self) -> KeyboardInputReport {
        self.input_report
    }

    /// The rate-limiter record, absent before the first send.
    pub closed spec fn spec_last_sent(self) -> Option<SentKeyEvent> {
        self.last_sent_key_event
    }

    /// The configured rate-limiting threshold in milliseconds;
    /// threshold `0` disables rate limiting.
    pub closed spec fn spec_threshold_ms(self) -> u64 {
        self.rate_limiting_threshold_ms
    }

    /// The configured RFCOMM channel id, for the host's transport.
    pub closed spec fn spec_rfcomm_channel_id(self) -> u8 {
        self.rfcomm_channel_id
    }

    /// The device's report is always well formed.
    pub open spec fn wf(self) -> bool {
        self.spec_input_report().wf()
    }

    /// Whether an event may be sent now: always before the first
    /// send; afterwards when it differs from the last event sent, or
    /// when at least the threshold has passed since then.
    pub open spec fn spec_should_send(self, new_event: KeyEvent, now_ms: u64) -> bool {
        match self.spec_last_sent() {
            None => true,
            Some(last) => new_event != last.event || spec_elapsed_ms(last.timestamp_ms, now_ms)
                >= self.spec_threshold_ms(),
        }
    }

    /// Builds the device from its settings, per
    /// [`spec_virtual_device_settings_error`]: no key pressed, no
    /// event sent yet.
    pub fn new(settings: &VirtualDeviceSettings) -> (result: Result<VirtualDevice, ConfigError>)
        ensures
            match result {
                Ok(device) => {
                    &&& spec_virtual_device_settings_error(*settings) is None
                    &&& device.wf()
                    &&& device.spec_last_sent() is None
                    &&& device.spec_threshold_ms() == settings.rate_limiting_threshold_ms as u64
                    &&& device.spec_rfcomm_channel_id() == settings.rfcomm_channel_id as u8
                    &&& device.spec_input_report().report_seq() == Seq::new(
                        REPORT_LENGTH as nat,
                        |i: int| 0i8,
                    )
                },
                Err(error) => Some(error) == spec_virtual_device_settings_error(*settings),
            },
    {
        if settings.rfcomm_channel_id < 0 || settings.rfcomm_channel_id > 255 {
            return Err(ConfigError::InvalidRfcommChannelId(settings.rfcomm_channel_id));
        }
        if settings.rate_limiting_threshold_ms < 0 {
            return Err(ConfigError::NegativeRateLimitingThreshold(
                settings.rate_limiting_threshold_ms,
            ));
        }
        Ok(
            VirtualDevice {
                input_report: KeyboardInputReport::new(),
                last_sent_key_event: None,
                rate_limiting_threshold_ms: settings.rate_limiting_threshold_ms as u64,
                rfcomm_channel_id: settings.rfcomm_channel_id as u8,
            },
        )
    }

    /// The configured RFCOMM channel id, for the host's transport.
    pub fn rfcomm_channel_id(&self) -> (id: u8)
        ensures
            id == self.spec_rfcomm_channel_id(),
    {
        self.rfcomm_channel_id
    }

    /// Decides whether an event may be sent now, per
    /// [`VirtualDevice::spec_should_send`].
    pub fn should_send_key_event(&self, new_event: KeyEvent, now_ms: u64) -> (send: bool)
        ensures
            send == self.spec_should_send(new_event, now_ms),
    {
        match &self.last_sent_key_event {
            None => true,
            Some(last) => {
                if new_event != last.event {
                    true
                } else {
                    let elapsed: u64 = if now_ms >= last.timestamp_ms {
                        now_ms - last.timestamp_ms
                    } else {
                        0
                    };
                    elapsed >= self.rate_limiting_threshold_ms
                }
            },
        }
    }

    /// Applies one elementary transition to the report and appends
    /// the freshly serialized report to `reports`.
    fn update_and_collect(&mut self, key_code: i8, is_pressed: bool, reports: &mut Vec<Vec<i8>>)
        requires
            old(self).wf(),
        ensures
            final(self).wf(),
            final(self).spec_last_sent() == old(self).spec_last_sent(),
            final(self).spec_threshold_ms() == old(self).spec_threshold_ms(),
            final(self).spec_rfcomm_channel_id() == old(self).spec_rfcomm_channel_id(),
            final(self).spec_input_report().slots() == spec_update_slots(
                old(self).spec_input_report().slots(),
                key_code,
                is_pressed,
            ),
            final(reports)@.len() == old(reports)@.len() + 1,
            forall|i: int| 0 <= i < old(reports)@.len() ==> final(reports)@[i] == old(reports)@[i],
            final(reports)@.last()@ == seq![0i8] + final(self).spec_input_report().slots(),
    {
        let _accepted = self.input_report.update_key_state(key_code, is_pressed);
        let bytes = self.input_report.report().clone();
        proof {
            assert(bytes@ =~= seq![0i8] + self.input_report.slots());
        }
        reports.push(bytes);
    }

    /// Sends one key event: when the rate limiter refuses it, nothing
    /// changes and no report is produced; otherwise the rate-limiter
    /// record is set to this event at this time, the event's
    /// elementary transitions are applied to the report in order, and
    /// one serialized report per transition is returned for the
    /// transport, in send order.
    pub fn send_key_event(&mut self, key_event: KeyEvent, now_ms: u64) -> (reports: Vec<Vec<i8>>)
        requires
            old(self).wf(),
        ensures
            final(self).wf(),
            final(self).spec_threshold_ms() == old(self).spec_threshold_ms(),
            final(self).spec_rfcomm_channel_id() == old(self).spec_rfcomm_channel_id(),
            !old(self).spec_should_send(key_event, now_ms) ==> (*final(self) == *old(self)
                && reports@.len() == 0),
            old(self).spec_should_send(key_event, now_ms) ==> ({
                let transitions = key_event.transitions();
                &&& final(self).spec_last_sent() == Some(
                    SentKeyEvent { event: key_event, timestamp_ms: now_ms },
                )
                &&& final(self).spec_input_report().slots() == spec_run_slots(
                    old(self).spec_input_report().slots(),
                    transitions,
                )
                &&& reports@.len() == transitions.len()
                &&& forall|i: int|
                    0 <= i < reports@.len() ==> reports@[i]@ == seq![0i8] + spec_run_slots(
                        old(self).spec_input_report().slots(),
                        transitions.take(i + 1),
                    )
            }),
    {
        if !self.should_send_key_event(key_event, now_ms) {
            return Vec::new();
        }
        self.last_sent_key_event = Some(SentKeyEvent { event: key_event, timestamp_ms: now_ms });
        let mut reports: Vec<Vec<i8>> = Vec::new();
        let ghost initial_slots = self.input_report.slots();
        let ghost transitions = key_event.transitions();
        match key_event {
            KeyEvent::Press(key_code) => {
                self.update_and_collect(key_code, true, &mut reports);
            },
            KeyEvent::Release(key_code) => {
                self.update_and_collect(key_code, false, &mut reports);
            },
            KeyEvent::PressAndRelease(key_code) => {
                self.update_and_collect(key_code, true, &mut reports);
                self.update_and_collect(key_code, false, &mut reports);
            },
            KeyEvent::ReleaseAndPress { to_release, to_press } => {
                self.update_and_collect(to_release, false, &mut reports);
                self.update_and_collect(to_press, true, &mut reports);
            },
        }
        proof {
            lemma_transition_runs(initial_slots, key_event);
            assert forall|i: int| 0 <= i < reports@.len() implies reports@[i]@ == seq![0i8]
                + spec_run_slots(initial_slots, transitions.take(i + 1)) by {
                if transitions.len() == 1 {
                    assert(transitions.take(1) =~= transitions);
                } else {
                    assert(transitions.take(1) =~= seq![transitions[0]]);
                    assert(transitions.take(2) =~= transitions);
                    lemma_transition_single(initial_slots, transitions[0]);
                }
            }
        }
        reports
    }
}

/// A zero threshold disables rate limiting: every decision is to
/// send, whatever was sent before and whenever.
pub proof fn lemma_zero_threshold_always_sends(
    device: VirtualDevice,
    new_event: KeyEvent,
    now_ms: u64,
)
    requires
        device.spec_threshold_ms() == 0,
    ensures
        device.spec_should_send(new_event, now_ms),
{
}

/// Within the threshold, only a different event may be sent: a
/// repeat of the last sent event is suppressed exactly as long as
/// less than the threshold has passed.
pub proof fn lemma_repeat_suppressed_within_threshold(
    device: VirtualDevice,
    new_event: KeyEvent,
    now_ms: u64,
)
    requires
        device.spec_last_sent() matches Some(last) && last.event == new_event,
    ensures
        device.spec_should_send(new_event, now_ms) <==> spec_elapsed_ms(
            device.spec_last_sent()->0.timestamp_ms,
            now_ms,
        ) >= device.spec_threshold_ms(),
{
}

/// Running a single transition is one update.
proof fn lemma_transition_single(slots: Seq<i8>, transition: (i8, bool))
    ensures
        spec_run_slots(slots, seq![transition]) == spec_update_slots(
            slots,
            transition.0,
            transition.1,
        ),
{
    let single = seq![transition];
    assert(single.len() == 1 && single[0] == transition);
    assert(single.drop_first() =~= Seq::<(i8, bool)>::empty());
    let updated = spec_update_slots(slots, transition.0, transition.1);
    assert(spec_run_slots(updated, Seq::<(i8, bool)>::empty()) == updated);
    assert(spec_run_slots(slots, single) == spec_run_slots(updated, single.drop_first()));
}

/// Running the one or two transitions of a key event applies the
/// updates in order.
proof fn lemma_transition_runs(slots: Seq<i8>, key_event: KeyEvent)
    ensures
        spec_run_slots(slots, key_event.transitions()) == match key_event {
            KeyEvent::Press(code) => spec_update_slots(slots, code, true),
            KeyEvent::Release(code) => spec_update_slots(slots, code, false),
            KeyEvent::PressAndRelease(code) => spec_update_slots(
                spec_update_slots(slots, code, true),
                code,
                false,
            ),
            KeyEvent::ReleaseAndPress { to_release, to_press } => spec_update_slots(
                spec_update_slots(slots, to_release, false),
                to_press,
                true,
            ),
        },
{
    match key_event {
        KeyEvent::Press(code) => {
            lemma_transition_single(slots, (code, true));
        },
        KeyEvent::Release(code) => {
            lemma_transition_single(slots, (code, false));
        },
        KeyEvent::PressAndRelease(code) => {
            let transitions = key_event.transitions();
            assert(transitions.drop_first() =~= seq![(code, false)]);
            lemma_transition_single(spec_update_slots(slots, code, true), (code, false));
        },
        KeyEvent::ReleaseAndPress { to_release, to_press } => {
            let transitions = key_event.transitions();
            assert(transitions.drop_first() =~= seq![(to_press, true)]);
            lemma_transition_single(spec_update_slots(slots, to_release, false), (to_press, true));
        },
    }
}

} // verus!
