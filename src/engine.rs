use vstd::prelude::*;

verus! {

/// Value of a key event that reports a release.
pub const KEY_RELEASE: i32 = 0;

/// Value of a key event that reports a press.
pub const KEY_PRESS: i32 = 1;

/// What happens to one event: passed on to the virtual device, or dropped.
#[derive(Clone, Copy, Debug, PartialEq, Eq, Structural)]
pub enum Verdict {
    Forward,
    Suppress,
}

/// Debounce state of one tracked button.
///
/// Times and windows are nanoseconds on the session's monotonic clock.
#[derive(Clone, Copy, Debug, PartialEq, Eq, Structural)]
pub struct ButtonState {
    pub is_pressed: bool,
    /// Time of the last accepted press; `None` while no press has been
    /// accepted, so that the first press always passes.
    pub last_accepted_time: Option<u64>,
    /// Minimum time between two accepted presses; a press this close or
    /// closer to the last accepted one is a bounce.
    pub debounce_window: u64,
}

/// Time from `earlier` to `now`; zero when `now` is not later, as the
/// monotonic clock's `duration_since` gives it.
pub open spec fn elapsed(earlier: u64, now: u64) -> nat {
    if now >= earlier {
        (now - earlier) as nat
    } else {
        0
    }
}

impl ButtonState {
    /// A press at `now` lies strictly outside the window of the last
    /// accepted press (or no press was accepted yet).
    pub open spec fn press_allowed(self, now: u64) -> bool {
        match self.last_accepted_time {
            None => true,
            Some(t) => elapsed(t, now) > self.debounce_window,
        }
    }

    /// The verdict on a key event with this value at `now`.
    pub open spec fn verdict_on(self, value: i32, now: u64) -> Verdict {
        if value == KEY_PRESS {
            if self.press_allowed(now) {
                Verdict::Forward
            } else {
                Verdict::Suppress
            }
        } else if value == KEY_RELEASE {
            if self.is_pressed {
                Verdict::Forward
            } else {
                Verdict::Suppress
            }
        } else {
            Verdict::Forward
        }
    }

    /// The state after a key event with this value at `now`: only an
    /// accepted press or an accepted release changes it.
    pub open spec fn after(self, value: i32, now: u64) -> ButtonState {
        if value == KEY_PRESS && self.press_allowed(now) {
            ButtonState { is_pressed: true, last_accepted_time: Some(now), ..self }
        } else if value == KEY_RELEASE && self.is_pressed {
            ButtonState { is_pressed: false, ..self }
        } else {
            self
        }
    }

    /// A released button with no accepted press behind it.
    pub open spec fn is_fresh(self) -> bool {
        !self.is_pressed && self.last_accepted_time is None
    }

    pub fn new(debounce_window: u64) -> (s: ButtonState)
        ensures
            s.is_fresh(),
            s.debounce_window == debounce_window,
    {
        ButtonState { is_pressed: false, last_accepted_time: None, debounce_window }
    }

    /// Time since `earlier`, saturating at zero.
    fn elapsed_since(earlier: u64, now: u64) -> (d: u64)
        ensures
            d == elapsed(earlier, now),
    {
        if now >= earlier {
            now - earlier
        } else {
            0
        }
    }

    /// Decides on a key event of this button with the given value at `now`,
    /// and records an accepted press or release.
    pub fn evaluate(&mut self, value: i32, now: u64) -> (v: Verdict)
        ensures
            v == old(self).verdict_on(value, now),
            *final(self) == old(self).after(value, now),
    {
        if value == KEY_PRESS {
            let allowed = match self.last_accepted_time {
                None => true,
                Some(t) => Self::elapsed_since(t, now) > self.debounce_window,
            };
            if allowed {
                self.last_accepted_time = Some(now);
                self.is_pressed = true;
                Verdict::Forward
            } else {
                Verdict::Suppress
            }
        } else if value == KEY_RELEASE {
            if self.is_pressed {
                self.is_pressed = false;
                Verdict::Forward
            } else {
                Verdict::Suppress
            }
        } else {
            Verdict::Forward
        }
    }
}

/// The state of a button after a run of key events `(value, time)`, in order.
pub open spec fn run(s: ButtonState, events: Seq<(i32, u64)>) -> ButtonState
    decreases events.len(),
{
    if events.len() == 0 {
        s
    } else {
        let (value, now) = events.last();
        run(s, events.drop_last()).after(value, now)
    }
}

/// Of the presses and releases in `events` that were accepted, the last one
/// was a press (false when none was accepted).
pub open spec fn last_accepted_is_press(s: ButtonState, events: Seq<(i32, u64)>) -> bool
    decreases events.len(),
{
    if events.len() == 0 {
        false
    } else {
        let (value, now) = events.last();
        let before = run(s, events.drop_last());
        if (value == KEY_PRESS || value == KEY_RELEASE) && before.verdict_on(value, now)
            == Verdict::Forward {
            value == KEY_PRESS
        } else {
            last_accepted_is_press(s, events.drop_last())
        }
    }
}

/// A second press no later than one window after an accepted press is
/// suppressed, and the button stays as the accepted press left it, whatever
/// non-press events came in between.
pub proof fn lemma_press_within_window_suppressed(
    s: ButtonState,
    t0: u64,
    between: i32,
    tb: u64,
    t1: u64,
)
    requires
        s.verdict_on(KEY_PRESS, t0) == Verdict::Forward,
        between != KEY_PRESS,
        t0 <= t1,
        t1 - t0 <= s.debounce_window,
    ensures
        ({
            let pressed = s.after(KEY_PRESS, t0);
            &&& pressed.verdict_on(KEY_PRESS, t1) == Verdict::Suppress
            &&& pressed.after(KEY_PRESS, t1) == pressed
            &&& pressed.is_pressed
            &&& pressed.after(between, tb).verdict_on(KEY_PRESS, t1) == Verdict::Suppress
            &&& pressed.after(between, tb).after(KEY_PRESS, t1) == pressed.after(between, tb)
        }),
{
}

/// Starting from a fresh button, the pressed flag tells whether the last
/// accepted press or release was a press.
pub proof fn lemma_pressed_tracks_last_accepted(s: ButtonState, events: Seq<(i32, u64)>)
    requires
        s.is_fresh(),
    ensures
        run(s, events).is_pressed == last_accepted_is_press(s, events),
    decreases events.len(),
{
    if events.len() > 0 {
        lemma_pressed_tracks_last_accepted(s, events.drop_last());
    }
}

/// Starting from a fresh button, a release is forwarded exactly when the
/// last accepted press or release before it was a press.
pub proof fn lemma_release_forwarded_iff_pressed(
    s: ButtonState,
    events: Seq<(i32, u64)>,
    now: u64,
)
    requires
        s.is_fresh(),
    ensures
        (run(s, events).verdict_on(KEY_RELEASE, now) == Verdict::Forward) == last_accepted_is_press(
            s,
            events,
        ),
{
    lemma_pressed_tracks_last_accepted(s, events);
}

/// A suppressed press leaves nothing behind: the release after it is
/// forwarded exactly when it would have been without the press, so the
/// release half of a bounce that follows an accepted release is dropped.
pub proof fn lemma_release_after_suppressed_press(
    s: ButtonState,
    t_press: u64,
    t_release: u64,
)
    requires
        s.verdict_on(KEY_PRESS, t_press) == Verdict::Suppress,
    ensures
        s.after(KEY_PRESS, t_press).verdict_on(KEY_RELEASE, t_release) == s.verdict_on(
            KEY_RELEASE,
            t_release,
        ),
        !s.is_pressed ==> s.after(KEY_PRESS, t_press).verdict_on(KEY_RELEASE, t_release)
            == Verdict::Suppress,
{
}

/// The window runs from the last accepted press alone: after an accepted
/// press at `t0` and a release at any time, a press later than one window
/// after `t0` is accepted.
pub proof fn lemma_window_measured_from_accepted_press(
    s: ButtonState,
    t0: u64,
    t_release: u64,
    t1: u64,
)
    requires
        s.verdict_on(KEY_PRESS, t0) == Verdict::Forward,
        t1 > t0 + s.debounce_window,
    ensures
        s.after(KEY_PRESS, t0).after(KEY_RELEASE, t_release).verdict_on(KEY_PRESS, t1)
            == Verdict::Forward,
{
}

/// An event whose value is neither a press nor a release (a repeat) is
/// always forwarded and leaves the button as it was, also right after a
/// suppressed press.
pub proof fn lemma_repeat_always_forwarded(s: ButtonState, t0: u64, value: i32, now: u64)
    requires
        value != KEY_PRESS,
        value != KEY_RELEASE,
    ensures
        s.verdict_on(value, now) == Verdict::Forward,
        s.after(value, now) == s,
        s.after(KEY_PRESS, t0).verdict_on(value, now) == Verdict::Forward,
{
}

} // verus!
