//! Discrete key events produced by the remapping policies.

use vstd::prelude::*;

verus! {

/// A key-state transition requested by a remapper.  Key codes are single
/// signed bytes, matching the key-code space of the keyboard input
/// report; code `0` is the "no key" sentinel and never names a real key.
///
/// `PressAndRelease` is an atomic pulse: both transitions are applied in
/// the same report cycle with no externally observable "held" interval.
/// `ReleaseAndPress` is an atomic exchange: the release is applied before
/// the press in the same report cycle, so an observer never sees both
/// keys up at once.
#[derive(Clone, Copy, Debug, PartialEq, Eq, Structural)]
pub enum KeyEvent {
    Press(i8),
    Release(i8),
    PressAndRelease(i8),
    ReleaseAndPress { to_release: i8, to_press: i8 },
}

impl KeyEvent {
    /// The sequence of elementary `(key_code, is_pressed)` transitions
    /// that this event expands to, in application order.
    pub open spec fn transitions(self) -> Seq<(i8, bool)> {
        match self {
            KeyEvent::Press(code) => seq![(code, true)],
            KeyEvent::Release(code) => seq![(code, false)],
            KeyEvent::PressAndRelease(code) => seq![(code, true), (code, false)],
            KeyEvent::ReleaseAndPress { to_release, to_press } => seq![
                (to_release, false),
                (to_press, true),
            ],
        }
    }
}

} // verus!
