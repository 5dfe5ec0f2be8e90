use vstd::prelude::*;
use crate::engine::{ButtonState, Verdict};

verus! {

/// Linux input code of the primary (left) button.
pub const BTN_LEFT: u16 = 0x110;

/// Linux input code of the secondary (right) button.
pub const BTN_RIGHT: u16 = 0x111;

/// Linux input code of the middle button.
pub const BTN_MIDDLE: u16 = 0x112;

/// Linux input code of the side button.
pub const BTN_SIDE: u16 = 0x113;

/// Linux input code of the extra button.
pub const BTN_EXTRA: u16 = 0x114;

/// Number of tracked buttons.
pub const TRACKED_COUNT: usize = 5;

/// One millisecond in the nanoseconds of the session clock.
pub const NANOS_PER_MILLI: u64 = 1_000_000;

/// Debounce window of a button without an override: 50 ms.
pub const DEFAULT_DEBOUNCE_WINDOW: u64 = 50 * NANOS_PER_MILLI;

/// Debounce window of the side button: 350 ms.
pub const SIDE_DEBOUNCE_WINDOW: u64 = 350 * NANOS_PER_MILLI;

/// Debounce window of the extra button: 300 ms.
pub const EXTRA_DEBOUNCE_WINDOW: u64 = 300 * NANOS_PER_MILLI;

/// Slot of a tracked button in the table; `None` for any other code.
pub open spec fn tracked_slot(code: u16) -> Option<int> {
    if code == BTN_LEFT {
        Some(0)
    } else if code == BTN_RIGHT {
        Some(1)
    } else if code == BTN_MIDDLE {
        Some(2)
    } else if code == BTN_SIDE {
        Some(3)
    } else if code == BTN_EXTRA {
        Some(4)
    } else {
        None
    }
}

pub open spec fn is_tracked(code: u16) -> bool {
    tracked_slot(code) is Some
}

/// The button held in each slot.
pub open spec fn slot_code(slot: int) -> u16 {
    if slot == 0 {
        BTN_LEFT
    } else if slot == 1 {
        BTN_RIGHT
    } else if slot == 2 {
        BTN_MIDDLE
    } else if slot == 3 {
        BTN_SIDE
    } else {
        BTN_EXTRA
    }
}

/// Per-button windows that replace the default.
pub open spec fn window_override_of(code: u16) -> Option<u64> {
    if code == BTN_SIDE {
        Some(SIDE_DEBOUNCE_WINDOW)
    } else if code == BTN_EXTRA {
        Some(EXTRA_DEBOUNCE_WINDOW)
    } else {
        None
    }
}

/// The debounce window configured for a button.
pub open spec fn configured_window(code: u16) -> u64 {
    match window_override_of(code) {
        Some(w) => w,
        None => DEFAULT_DEBOUNCE_WINDOW,
    }
}

/// The table at the start of a session: every tracked button released,
/// with no accepted press, and its configured window.
pub open spec fn fresh_table() -> Map<u16, ButtonState> {
    Map::new(|code: u16| is_tracked(code), |code: u16| fresh_state(code))
}

/// A button released, with no accepted press, and its configured window.
pub open spec fn fresh_state(code: u16) -> ButtonState {
    ButtonState { is_pressed: false, last_accepted_time: None, debounce_window: configured_window(code) }
}

/// Slot of `code` in the table, if it is a tracked button.
pub fn slot_of(code: u16) -> (r: Option<usize>)
    ensures
        match r {
            Some(i) => tracked_slot(code) == Some(i as int),
            None => tracked_slot(code) is None,
        },
{
    if code == BTN_LEFT {
        Some(0)
    } else if code == BTN_RIGHT {
        Some(1)
    } else if code == BTN_MIDDLE {
        Some(2)
    } else if code == BTN_SIDE {
        Some(3)
    } else if code == BTN_EXTRA {
        Some(4)
    } else {
        None
    }
}

/// The window that replaces the default for `code`, if any.
pub fn window_override(code: u16) -> (r: Option<u64>)
    ensures
        r == window_override_of(code),
{
    if code == BTN_SIDE {
        Some(SIDE_DEBOUNCE_WINDOW)
    } else if code == BTN_EXTRA {
        Some(EXTRA_DEBOUNCE_WINDOW)
    } else {
        None
    }
}

/// The debounce window of `code`: its override, else the default.
pub fn debounce_window_for(code: u16) -> (w: u64)
    ensures
        w == configured_window(code),
{
    match window_override(code) {
        Some(w) => w,
        None => DEFAULT_DEBOUNCE_WINDOW,
    }
}

/// Debounce state of the tracked buttons, one entry per button.
pub struct ButtonTable {
    states: Vec<ButtonState>,
}

impl View for ButtonTable {
    type V = Map<u16, ButtonState>;

    closed spec fn view(&self) -> Map<u16, ButtonState> {
        Map::new(
            |code: u16| is_tracked(code),
            |code: u16| self.states@[tracked_slot(code)->0],
        )
    }
}

impl ButtonTable {
    pub closed spec fn wf(&self) -> bool {
        self.states@.len() == TRACKED_COUNT
    }

    /// State of a button, if it is tracked.
    pub fn state_of(&self, code: u16) -> (r: Option<ButtonState>)
        requires
            self.wf(),
        ensures
            r == (if is_tracked(code) {
                Some(self@[code])
            } else {
                None
            }),
    {
        match slot_of(code) {
            Some(i) => Some(self.states[i]),
            None => None,
        }
    }

    /// Runs the debounce engine on a key event of a tracked button.
    pub fn evaluate(&mut self, code: u16, value: i32, now: u64) -> (v: Verdict)
        requires
            old(self).wf(),
            is_tracked(code),
        ensures
            final(self).wf(),
            v == old(self)@[code].verdict_on(value, now),
            final(self)@ == old(self)@.insert(code, old(self)@[code].after(value, now)),
    {
        let i = match slot_of(code) {
            Some(i) => i,
            None => 0,
        };
        let mut state = self.states[i];
        let v = state.evaluate(value, now);
        self.states.set(i, state);
        proof {
            assert forall|c: u16| is_tracked(c) && c != code implies tracked_slot(c) != Some(
                i as int,
            ) by {}
        }
        assert(self@ =~= old(self)@.insert(code, old(self)@[code].after(value, now)));
        v
    }
}

/// Builds the table for a new session: the five tracked buttons, released,
/// with no accepted press, each with its configured window.
pub fn initialize_button_states() -> (t: ButtonTable)
    ensures
        t.wf(),
        t@ == fresh_table(),
{
    let codes: [u16; 5] = [BTN_LEFT, BTN_RIGHT, BTN_MIDDLE, BTN_SIDE, BTN_EXTRA];
    let mut states: Vec<ButtonState> = Vec::new();
    let mut i: usize = 0;
    while i < TRACKED_COUNT
        invariant
            i <= TRACKED_COUNT,
            codes@ == seq![BTN_LEFT, BTN_RIGHT, BTN_MIDDLE, BTN_SIDE, BTN_EXTRA],
            states@.len() == i,
            forall|j: int|
                0 <= j < i ==> #[trigger] states@[j] == fresh_state(slot_code(j)),
        decreases TRACKED_COUNT - i,
    {
        let code = codes[i];
        states.push(ButtonState::new(debounce_window_for(code)));
        i = i + 1;
    }
    let t = ButtonTable { states };
    assert(t@ =~= fresh_table());
    t
}

/// The windows every session starts with: 50 ms for the primary, secondary
/// and middle buttons, 350 ms for the side button, 300 ms for the extra one.
pub proof fn lemma_configured_windows()
    ensures
        fresh_table()[BTN_LEFT].debounce_window == 50 * NANOS_PER_MILLI,
        fresh_table()[BTN_RIGHT].debounce_window == 50 * NANOS_PER_MILLI,
        fresh_table()[BTN_MIDDLE].debounce_window == 50 * NANOS_PER_MILLI,
        fresh_table()[BTN_SIDE].debounce_window == 350 * NANOS_PER_MILLI,
        fresh_table()[BTN_EXTRA].debounce_window == 300 * NANOS_PER_MILLI,
        fresh_table().dom() =~= set![BTN_LEFT, BTN_RIGHT, BTN_MIDDLE, BTN_SIDE, BTN_EXTRA],
{
}

} // verus!
