//! The keyboard input report and its 6-slot rollover buffer.
//!
//! A report is a fixed-length byte sequence: byte 0 is the reserved
//! modifier-key byte (always zero here) and bytes 1 through 6 are the
//! rollover slots holding the key codes currently pressed, `0` marking
//! an empty slot.  At most six keys can be down at once; a seventh
//! press is dropped, reported as such, and leaves the report unchanged.

use vstd::prelude::*;

verus! {

/// The length of the serialized report in bytes.
pub const REPORT_LENGTH: usize = 7;

/// The number of rollover slots.
pub const NUM_KEY_SLOTS: usize = 6;

/// The first slot index with `code` at or after `start`, or `None`
/// when no slot from `start` on holds it.
pub open spec fn spec_find(slots: Seq<i8>, code: i8, start: int) -> Option<int>
    decreases slots.len() - start,
{
    if start < 0 || start >= slots.len() {
        None
    } else if slots[start] == code {
        Some(start)
    } else {
        spec_find(slots, code, start + 1)
    }
}

/// What [`spec_find`] returns: the first matching index, with nothing
/// matching before it.
pub proof fn lemma_find_props(slots: Seq<i8>, code: i8, start: int)
    requires
        0 <= start,
    ensures
        match spec_find(slots, code, start) {
            Some(found) => {
                &&& start <= found < slots.len()
                &&& slots[found] == code
                &&& forall|k: int| start <= k < found ==> slots[k] != code
            },
            None => forall|k: int| start <= k < slots.len() ==> slots[k] != code,
        },
    decreases slots.len() - start,
{
    if start < slots.len() && slots[start] != code {
        lemma_find_props(slots, code, start + 1);
    }
}

/// Slots are well formed when there are exactly six and no non-zero
/// key code occupies two of them.
pub open spec fn slots_wf(slots: Seq<i8>) -> bool {
    &&& slots.len() == NUM_KEY_SLOTS
    &&& forall|i: int, j: int|
        0 <= i < j < slots.len() && slots[i] != 0 ==> slots[i] != slots[j]
}

/// What one transition does to the slots:
///
/// * the key already occupies a slot: a press is a no-op, a release
///   clears that slot;
/// * the key is absent and pressed: it is written into the first empty
///   slot, the lowest index winning; with no empty slot the press is
///   dropped and the slots are unchanged;
/// * the key is absent and released: a no-op.
pub open spec fn spec_update_slots(slots: Seq<i8>, key_code: i8, is_pressed: bool) -> Seq<i8> {
    match spec_find(slots, key_code, 0) {
        Some(occupied) => if !is_pressed {
            slots.update(occupied, 0)
        } else {
            slots
        },
        None => if is_pressed {
            match spec_find(slots, 0, 0) {
                Some(empty) => slots.update(empty, key_code),
                None => slots,
            }
        } else {
            slots
        },
    }
}

/// Whether a transition drops a press: the key is newly pressed but
/// every slot is occupied by another key.
pub open spec fn spec_press_dropped(slots: Seq<i8>, key_code: i8, is_pressed: bool) -> bool {
    &&& is_pressed
    &&& spec_find(slots, key_code, 0) is None
    &&& spec_find(slots, 0, 0) is None
}

/// The set of key codes currently pressed: every non-zero slot value.
pub open spec fn slots_key_set(slots: Seq<i8>) -> Set<i8>
    decreases slots.len(),
{
    if slots.len() == 0 {
        Set::empty()
    } else {
        let rest = slots_key_set(slots.drop_last());
        if slots.last() == 0 {
            rest
        } else {
            rest.insert(slots.last())
        }
    }
}

/// The pressed set is finite and holds exactly the non-zero codes
/// among the slots.
pub proof fn lemma_key_set_membership(slots: Seq<i8>)
    ensures
        slots_key_set(slots).finite(),
        forall|c: i8|
            #[trigger] slots_key_set(slots).contains(c) <==> (c != 0 && slots.contains(c)),
    decreases slots.len(),
{
    if slots.len() > 0 {
        lemma_key_set_membership(slots.drop_last());
        assert forall|c: i8|
            #[trigger] slots_key_set(slots).contains(c) <==> (c != 0 && slots.contains(c)) by {
            if c != 0 && slots.contains(c) {
                let j = choose|j: int| 0 <= j < slots.len() && slots[j] == c;
                if j < slots.len() - 1 {
                    assert(slots.drop_last()[j] == c);
                    assert(slots.drop_last().contains(c));
                }
            }
            if slots_key_set(slots.drop_last()).contains(c) {
                let j = choose|j: int|
                    0 <= j < slots.drop_last().len() && slots.drop_last()[j] == c;
                assert(slots[j] == c);
                assert(slots.contains(c));
            }
        }
    }
}

/// With no key code in two slots, the pressed set has one element per
/// occupied slot: its size never exceeds the slot count and reaches it
/// exactly when every slot is occupied.
pub proof fn lemma_key_set_len(slots: Seq<i8>)
    requires
        forall|i: int, j: int|
            0 <= i < j < slots.len() && slots[i] != 0 ==> slots[i] != slots[j],
    ensures
        slots_key_set(slots).finite(),
        slots_key_set(slots).len() <= slots.len(),
        (slots_key_set(slots).len() == slots.len()) <==> (forall|i: int|
            0 <= i < slots.len() ==> slots[i] != 0),
    decreases slots.len(),
{
    lemma_key_set_membership(slots);
    if slots.len() > 0 {
        let shorter = slots.drop_last();
        assert forall|i: int, j: int|
            0 <= i < j < shorter.len() && shorter[i] != 0 implies shorter[i] != shorter[j] by {
            assert(shorter[i] == slots[i] && shorter[j] == slots[j]);
        }
        lemma_key_set_len(shorter);
        lemma_key_set_membership(shorter);
        let last = slots.last();
        if last != 0 {
            assert(!slots_key_set(shorter).contains(last)) by {
                if slots_key_set(shorter).contains(last) {
                    let j = choose|j: int| 0 <= j < shorter.len() && shorter[j] == last;
                    assert(slots[j] == slots[slots.len() - 1]);
                }
            }
        }
        if slots_key_set(slots).len() == slots.len() {
            if last == 0 {
                assert(slots_key_set(slots) == slots_key_set(shorter));
                assert(false);
            }
            assert(slots_key_set(slots).len() == slots_key_set(shorter).len() + 1);
            assert(slots_key_set(shorter).len() == shorter.len());
            assert forall|i: int| 0 <= i < slots.len() implies slots[i] != 0 by {
                if i < slots.len() - 1 {
                    assert(shorter[i] != 0);
                }
            }
        }
    }
}

/// What one transition does to the pressed set: pressing a key adds
/// it while a slot is free, a seventh concurrent key is dropped, and
/// releasing a key removes it.  Key code `0` names no key and never
/// moves the set.
pub open spec fn spec_key_set_update(keys: Set<i8>, key_code: i8, is_pressed: bool) -> Set<i8> {
    if key_code == 0 {
        keys
    } else if !is_pressed {
        keys.remove(key_code)
    } else if keys.contains(key_code) {
        keys
    } else if keys.len() < NUM_KEY_SLOTS {
        keys.insert(key_code)
    } else {
        keys
    }
}

/// One transition on the slots tracks the same transition on the
/// pressed set exactly: decoding the slots after the transition gives
/// the set the abstract transition predicts, and the slots stay well
/// formed.
pub proof fn lemma_update_tracks_key_set(slots: Seq<i8>, key_code: i8, is_pressed: bool)
    requires
        slots_wf(slots),
    ensures
        slots_wf(spec_update_slots(slots, key_code, is_pressed)),
        slots_key_set(spec_update_slots(slots, key_code, is_pressed)) == spec_key_set_update(
            slots_key_set(slots),
            key_code,
            is_pressed,
        ),
{
    let updated = spec_update_slots(slots, key_code, is_pressed);
    let keys = slots_key_set(slots);
    lemma_find_props(slots, key_code, 0);
    lemma_find_props(slots, 0, 0);
    lemma_key_set_membership(slots);
    lemma_key_set_len(slots);
    assert(slots_wf(updated)) by {
        assert forall|i: int, j: int|
            0 <= i < j < updated.len() && updated[i] != 0 implies updated[i] != updated[j] by {}
    }
    lemma_key_set_membership(updated);
    assert(slots_key_set(updated) =~= spec_key_set_update(keys, key_code, is_pressed)) by {
        assert forall|c: i8|
            slots_key_set(updated).contains(c) == spec_key_set_update(
                keys,
                key_code,
                is_pressed,
            ).contains(c) by {
            match spec_find(slots, key_code, 0) {
                Some(occupied) => {
                    if !is_pressed {
                        if c != 0 && c != key_code && slots.contains(c) {
                            let j = choose|j: int| 0 <= j < slots.len() && slots[j] == c;
                            assert(updated[j] == c);
                            assert(updated.contains(c));
                        }
                        if c != 0 && updated.contains(c) {
                            let j = choose|j: int| 0 <= j < updated.len() && updated[j] == c;
                            assert(slots[j] == c);
                            assert(slots.contains(c));
                        }
                        if key_code != 0 && updated.contains(key_code) {
                            let j = choose|j: int|
                                0 <= j < updated.len() && updated[j] == key_code;
                            assert(slots[j] == key_code && j != occupied);
                            assert(false);
                        }
                    }
                },
                None => {
                    if is_pressed {
                        match spec_find(slots, 0, 0) {
                            Some(empty) => {
                                assert(keys.len() < slots.len());
                                if c == key_code && c != 0 {
                                    assert(updated[empty] == c);
                                    assert(updated.contains(c));
                                }
                                if c != key_code && c != 0 && slots.contains(c) {
                                    let j = choose|j: int|
                                        0 <= j < slots.len() && slots[j] == c;
                                    assert(updated[j] == c);
                                    assert(updated.contains(c));
                                }
                                if c != key_code && c != 0 && updated.contains(c) {
                                    let j = choose|j: int|
                                        0 <= j < updated.len() && updated[j] == c;
                                    assert(slots[j] == c);
                                    assert(slots.contains(c));
                                }
                            },
                            None => {
                                assert(keys.len() == slots.len());
                            },
                        }
                    } else {
                        if c != 0 && c != key_code && slots.contains(c) {
                            assert(updated.contains(c));
                        }
                    }
                },
            }
        }
    }
}

/// The slots after a whole sequence of transitions, applied in order.
pub open spec fn spec_run_slots(slots: Seq<i8>, transitions: Seq<(i8, bool)>) -> Seq<i8>
    decreases transitions.len(),
{
    if transitions.len() == 0 {
        slots
    } else {
        spec_run_slots(
            spec_update_slots(slots, transitions[0].0, transitions[0].1),
            transitions.drop_first(),
        )
    }
}

/// The pressed set after a whole sequence of transitions, applied in
/// order.
pub open spec fn spec_run_key_set(keys: Set<i8>, transitions: Seq<(i8, bool)>) -> Set<i8>
    decreases transitions.len(),
{
    if transitions.len() == 0 {
        keys
    } else {
        spec_run_key_set(
            spec_key_set_update(keys, transitions[0].0, transitions[0].1),
            transitions.drop_first(),
        )
    }
}

/// Round trip: for any report produced by a sequence of transitions,
/// decoding the slot bytes back into the set of currently-pressed key
/// codes recovers exactly the set implied by the net press/release
/// history — transient pulses already released leave no trace.
pub proof fn lemma_report_round_trip(slots: Seq<i8>, transitions: Seq<(i8, bool)>)
    requires
        slots_wf(slots),
    ensures
        slots_wf(spec_run_slots(slots, transitions)),
        slots_key_set(spec_run_slots(slots, transitions)) == spec_run_key_set(
            slots_key_set(slots),
            transitions,
        ),
    decreases transitions.len(),
{
    if transitions.len() > 0 {
        lemma_update_tracks_key_set(slots, transitions[0].0, transitions[0].1);
        lemma_report_round_trip(
            spec_update_slots(slots, transitions[0].0, transitions[0].1),
            transitions.drop_first(),
        );
    }
}

/// Pressing a key twice in a row leaves the slots exactly as a single
/// press does, and a press of a real key that is not dropped leaves
/// exactly one slot holding it.
pub proof fn lemma_press_idempotent(slots: Seq<i8>, key_code: i8)
    requires
        slots_wf(slots),
    ensures
        spec_update_slots(spec_update_slots(slots, key_code, true), key_code, true)
            == spec_update_slots(slots, key_code, true),
        key_code != 0 && !spec_press_dropped(slots, key_code, true) ==> {
            let updated = spec_update_slots(slots, key_code, true);
            exists|i: int|
                0 <= i < updated.len() && updated[i] == key_code && forall|j: int|
                    0 <= j < updated.len() && j != i ==> updated[j] != key_code
        },
{
    let updated = spec_update_slots(slots, key_code, true);
    lemma_find_props(slots, key_code, 0);
    lemma_find_props(slots, 0, 0);
    lemma_update_tracks_key_set(slots, key_code, true);
    lemma_find_props(updated, key_code, 0);
    lemma_find_props(updated, 0, 0);
    match spec_find(slots, key_code, 0) {
        Some(occupied) => {
            assert(updated == slots);
            assert(spec_find(updated, key_code, 0) is Some);
        },
        None => {
            match spec_find(slots, 0, 0) {
                Some(empty) => {
                    assert(updated[empty] == key_code);
                    assert(spec_find(updated, key_code, 0) is Some);
                    if key_code != 0 {
                        let found = spec_find(updated, key_code, 0)->0;
                        assert(updated[found] == key_code);
                        assert forall|j: int|
                            0 <= j < updated.len() && j != found implies updated[j]
                            != key_code by {}
                    }
                },
                None => {
                    assert(updated == slots);
                },
            }
        },
    }
}

/// The transitions that press each of `codes` once, in order.
pub open spec fn spec_press_transitions(codes: Seq<i8>) -> Seq<(i8, bool)> {
    codes.map_values(|code: i8| (code, true))
}

/// Distinct fresh presses occupy the free slots in first-press order:
/// starting from slots whose first `filled` entries are occupied and
/// whose remaining entries are empty, pressing distinct real keys
/// that occupy no slot yet writes them into consecutive slots after
/// the occupied ones, in press order.
pub proof fn lemma_presses_fill_in_order(slots: Seq<i8>, filled: int, codes: Seq<i8>)
    requires
        slots_wf(slots),
        0 <= filled,
        filled + codes.len() <= slots.len(),
        forall|i: int| 0 <= i < filled ==> slots[i] != 0,
        forall|i: int| filled <= i < slots.len() ==> slots[i] == 0,
        forall|i: int| 0 <= i < codes.len() ==> codes[i] != 0,
        forall|i: int, j: int| 0 <= i < j < codes.len() ==> codes[i] != codes[j],
        forall|i: int| 0 <= i < codes.len() ==> !slots.contains(codes[i]),
    ensures
        spec_run_slots(slots, spec_press_transitions(codes)) == Seq::new(
            slots.len(),
            |i: int|
                if filled <= i < filled + codes.len() {
                    codes[i - filled]
                } else {
                    slots[i]
                },
        ),
    decreases codes.len(),
{
    let transitions = spec_press_transitions(codes);
    let target = Seq::new(
        slots.len(),
        |i: int|
            if filled <= i < filled + codes.len() {
                codes[i - filled]
            } else {
                slots[i]
            },
    );
    if codes.len() == 0 {
        assert(spec_run_slots(slots, transitions) == slots);
        assert(slots =~= target);
    } else {
        let code = codes[0];
        lemma_find_props(slots, code, 0);
        lemma_find_props(slots, 0, 0);
        if spec_find(slots, code, 0) is Some {
            assert(slots.contains(code));
            assert(false);
        }
        let empty = spec_find(slots, 0, 0);
        if empty is None {
            assert(slots[filled] == 0);
            assert(false);
        }
        let at = empty->0;
        assert(slots[at] == 0);
        if at > filled {
            assert(slots[filled] != 0);
            assert(false);
        }
        assert(at == filled);
        let next = spec_update_slots(slots, code, true);
        assert(next == slots.update(filled, code));
        lemma_update_tracks_key_set(slots, code, true);
        let rest = codes.drop_first();
        assert forall|i: int| 0 <= i < rest.len() implies !next.contains(rest[i]) by {
            if next.contains(rest[i]) {
                let j = choose|j: int| 0 <= j < next.len() && next[j] == rest[i];
                if j == filled {
                    assert(codes[i + 1] == codes[0]);
                } else {
                    assert(slots[j] == rest[i]);
                    assert(slots.contains(codes[i + 1]));
                }
            }
        }
        assert(transitions[0] == (code, true));
        assert(transitions.drop_first() =~= spec_press_transitions(rest));
        lemma_presses_fill_in_order(next, filled + 1, rest);
        let rest_target = Seq::new(
            next.len(),
            |i: int|
                if filled + 1 <= i < filled + 1 + rest.len() {
                    rest[i - (filled + 1)]
                } else {
                    next[i]
                },
        );
        assert(spec_run_slots(slots, transitions) == spec_run_slots(
            next,
            spec_press_transitions(rest),
        ));
        assert(rest_target =~= target);
    }
}

/// Rollover overflow: a press of a key that occupies no slot, with
/// every slot taken, is dropped whole — the slots stay exactly as
/// they were.
pub proof fn lemma_full_press_dropped(slots: Seq<i8>, key_code: i8)
    requires
        slots_wf(slots),
        spec_press_dropped(slots, key_code, true),
    ensures
        spec_update_slots(slots, key_code, true) == slots,
{
}

/// The keyboard input report: the reserved byte followed by the six
/// rollover slots.
pub struct KeyboardInputReport {
    report: Vec<i8>,
}

impl KeyboardInputReport {
    /// The serialized report bytes.
    pub closed spec fn report_seq(self) -> Seq<i8> {
        self.report@
    }

    /// The rollover slots: the report bytes after the reserved byte.
    pub open spec fn slots(self) -> Seq<i8> {
        self.report_seq().subrange(1, REPORT_LENGTH as int)
    }

    /// A report always has its fixed length, a zero reserved byte, and
    /// well-formed slots.
    pub open spec fn wf(self) -> bool {
        &&& self.report_seq().len() == REPORT_LENGTH
        &&& self.report_seq()[0] == 0
        &&& slots_wf(self.slots())
    }

    /// A fresh report: no key pressed, every byte zero.
    pub fn new() -> (report: KeyboardInputReport)
        ensures
            report.wf(),
            report.report_seq() =~= Seq::new(REPORT_LENGTH as nat, |i: int| 0i8),
    {
        let mut bytes: Vec<i8> = Vec::new();
        let mut i: usize = 0;
        while i < REPORT_LENGTH
            invariant
                i <= REPORT_LENGTH,
                bytes@.len() == i,
                forall|j: int| 0 <= j < i ==> bytes@[j] == 0,
            decreases REPORT_LENGTH - i,
        {
            bytes.push(0);
            i = i + 1;
        }
        KeyboardInputReport { report: bytes }
    }

    /// The serialized report, ready for the transport.
    pub fn report(&self) -> (bytes: &Vec<i8>)
        ensures
            bytes@ == self.report_seq(),
    {
        &self.report
    }

    /// The first slot holding `code`, in slot coordinates, per
    /// [`spec_find`].
    fn find_slot(&self, code: i8) -> (result: Option<usize>)
        requires
            self.wf(),
        ensures
            match result {
                Some(index) => Some(index as int) == spec_find(self.slots(), code, 0),
                None => spec_find(self.slots(), code, 0) is None,
            },
    {
        let mut i: usize = 0;
        while i < NUM_KEY_SLOTS
            invariant
                self.wf(),
                i <= NUM_KEY_SLOTS,
                spec_find(self.slots(), code, 0) == spec_find(self.slots(), code, i as int),
                forall|k: int| 0 <= k < i ==> self.slots()[k] != code,
            decreases NUM_KEY_SLOTS - i,
        {
            if self.report[i + 1] == code {
                proof {
                    assert(self.slots()[i as int] == code);
                }
                return Some(i);
            }
            proof {
                assert(self.slots()[i as int] != code);
            }
            i = i + 1;
        }
        None
    }

    /// Decodes the report back into the currently pressed keys: the
    /// non-zero slot values in slot order, each exactly once.
    pub fn pressed_key_codes(&self) -> (pressed: Vec<i8>)
        requires
            self.wf(),
        ensures
            pressed@.no_duplicates(),
            forall|c: i8|
                #[trigger] pressed@.contains(c) <==> slots_key_set(self.slots()).contains(c),
    {
        proof {
            lemma_key_set_membership(self.slots());
        }
        let mut pressed: Vec<i8> = Vec::new();
        let mut i: usize = 0;
        while i < NUM_KEY_SLOTS
            invariant
                self.wf(),
                i <= NUM_KEY_SLOTS,
                pressed@.no_duplicates(),
                forall|c: i8|
                    #[trigger] pressed@.contains(c) <==> (c != 0 && exists|j: int|
                        0 <= j < i && self.slots()[j] == c),
            decreases NUM_KEY_SLOTS - i,
        {
            let code = self.report[i + 1];
            proof {
                assert(code == self.slots()[i as int]);
            }
            if code != 0 {
                let ghost before = pressed@;
                proof {
                    assert(!pressed@.contains(code));
                }
                pressed.push(code);
                proof {
                    assert forall|c: i8|
                        #[trigger] pressed@.contains(c) <==> (c != 0 && exists|j: int|
                            0 <= j < i + 1 && self.slots()[j] == c) by {
                        if c == code {
                            assert(pressed@.last() == code);
                            assert(pressed@.contains(code));
                            assert(self.slots()[i as int] == c);
                        } else {
                            if pressed@.contains(c) {
                                let idx = choose|idx: int|
                                    0 <= idx < pressed@.len() && pressed@[idx] == c;
                                assert(pressed@[idx] == before[idx]);
                                assert(before.contains(c));
                            }
                            if before.contains(c) {
                                let idx = choose|idx: int|
                                    0 <= idx < before.len() && before[idx] == c;
                                assert(pressed@[idx] == c);
                                assert(pressed@.contains(c));
                            }
                        }
                    }
                }
            }
            i = i + 1;
        }
        proof {
            assert forall|c: i8|
                #[trigger] pressed@.contains(c) <==> slots_key_set(self.slots()).contains(
                    c,
                ) by {
                if c != 0 && self.slots().contains(c) {
                    let j = choose|j: int| 0 <= j < self.slots().len() && self.slots()[j] == c;
                    assert(0 <= j < NUM_KEY_SLOTS);
                }
            }
        }
        pressed
    }

    /// Applies one key-state transition, per [`spec_update_slots`].
    /// Returns whether the transition was fully applied: `false`
    /// exactly when a press had to be dropped because every slot was
    /// taken, in which case the report is unchanged.
    pub fn update_key_state(&mut self, key_code: i8, is_pressed: bool) -> (accepted: bool)
        requires
            old(self).wf(),
        ensures
            final(self).wf(),
            final(self).slots() == spec_update_slots(old(self).slots(), key_code, is_pressed),
            accepted == !spec_press_dropped(old(self).slots(), key_code, is_pressed),
    {
        proof {
            lemma_find_props(old(self).slots(), key_code, 0);
            lemma_find_props(old(self).slots(), 0, 0);
        }
        match self.find_slot(key_code) {
            Some(occupied) => {
                if !is_pressed {
                    self.report.set(occupied + 1, 0);
                    proof {
                        assert(self.slots() =~= spec_update_slots(
                            old(self).slots(),
                            key_code,
                            is_pressed,
                        ));
                    }
                } else {
                    proof {
                        assert(self.slots() =~= spec_update_slots(
                            old(self).slots(),
                            key_code,
                            is_pressed,
                        ));
                    }
                }
                true
            },
            None => {
                if is_pressed {
                    match self.find_slot(0) {
                        Some(empty) => {
                            self.report.set(empty + 1, key_code);
                            proof {
                                assert(self.slots() =~= spec_update_slots(
                                    old(self).slots(),
                                    key_code,
                                    is_pressed,
                                ));
                            }
                            true
                        },
                        None => {
                            proof {
                                assert(self.slots() =~= spec_update_slots(
                                    old(self).slots(),
                                    key_code,
                                    is_pressed,
                                ));
                            }
                            false
                        },
                    }
                } else {
                    proof {
                        assert(self.slots() =~= spec_update_slots(
                            old(self).slots(),
                            key_code,
                            is_pressed,
                        ));
                    }
                    true
                }
            },
        }
    }
}

} // verus!
