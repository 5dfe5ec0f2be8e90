use vstd::prelude::*;

verus! {

/// How bad a failure is.
#[derive(Clone, Copy, Debug, PartialEq, Eq, Structural)]
pub enum ErrorClass {
    /// Recovered by a delayed retry of the whole session.
    Transient,
    /// Ends the session with an error and stops the process.
    Fatal,
    /// Logged only; changes no outcome.
    Soft,
}

/// The kind of a failed read from the physical device.
#[derive(Clone, Copy, Debug, PartialEq, Eq, Structural)]
pub enum ReadErrorKind {
    /// The device node is gone.
    NotFound,
    /// The device stopped answering.
    BrokenPipe,
    Other,
}

/// The fatal causes that end a session.
#[derive(Clone, Copy, Debug, PartialEq, Eq, Structural)]
pub enum FatalCause {
    /// Exclusive access to the opened device was refused.
    GrabFailed,
    /// The virtual device could not be built.
    VirtualDeviceFailed,
    /// A read failed for a reason other than the device going away.
    ReadFailed,
    /// An event could not be written to the virtual device.
    EmitFailed,
}

/// Why a session ended.
#[derive(Clone, Copy, Debug, PartialEq, Eq, Structural)]
pub enum SessionEnd {
    /// The device could not be opened.
    DeviceUnavailable,
    /// The device went away while it was read.
    DeviceLost,
    /// Cancellation was observed between reads.
    Cancelled,
    Fatal(FatalCause),
}

/// Where a session stands.
#[derive(Clone, Copy, Debug, PartialEq, Eq, Structural)]
pub enum SessionState {
    /// Opening the physical device.
    Connecting,
    /// Taking exclusive access to it.
    Acquiring,
    /// Building the virtual device.
    Building,
    /// Reading and translating events.
    Active,
    /// Giving up exclusive access before the session ends.
    Releasing(SessionEnd),
    Closed(SessionEnd),
}

/// What the driver of a session reports back after doing an action.
#[derive(Clone, Copy, Debug, PartialEq, Eq, Structural)]
pub enum SessionEvent {
    Opened,
    OpenFailed,
    Grabbed,
    GrabFailed,
    Built,
    BuildFailed,
    /// A batch was read and every forwarded event was emitted.
    BatchHandled,
    ReadFailed(ReadErrorKind),
    EmitFailed,
    Released,
    ReleaseFailed,
}

/// What the driver of a session does next.
#[derive(Clone, Copy, Debug, PartialEq, Eq, Structural)]
pub enum SessionAction {
    Open,
    Grab,
    /// Build the virtual device and a fresh button table.
    BuildVirtualDevice,
    ReadBatch,
    Release,
    /// The session is over; its handles are dropped.
    Finish(SessionEnd),
}

pub open spec fn read_error_class(kind: ReadErrorKind) -> ErrorClass {
    match kind {
        ReadErrorKind::NotFound | ReadErrorKind::BrokenPipe => ErrorClass::Transient,
        ReadErrorKind::Other => ErrorClass::Fatal,
    }
}

/// A read failure that means the device is gone is transient; any other
/// is fatal.
pub fn classify_read_error(kind: ReadErrorKind) -> (c: ErrorClass)
    ensures
        c == read_error_class(kind),
{
    match kind {
        ReadErrorKind::NotFound | ReadErrorKind::BrokenPipe => ErrorClass::Transient,
        ReadErrorKind::Other => ErrorClass::Fatal,
    }
}

pub open spec fn end_class(end: SessionEnd) -> ErrorClass {
    match end {
        SessionEnd::Fatal(_) => ErrorClass::Fatal,
        _ => ErrorClass::Transient,
    }
}

/// Class of the way a session ended: fatal causes are fatal, every other
/// end is a normal return after which a new session may start.
pub fn classify_end(end: SessionEnd) -> (c: ErrorClass)
    ensures
        c == end_class(end),
{
    match end {
        SessionEnd::Fatal(_) => ErrorClass::Fatal,
        _ => ErrorClass::Transient,
    }
}

/// The action that a state waits to have done.
pub open spec fn pending_action(state: SessionState) -> SessionAction {
    match state {
        SessionState::Connecting => SessionAction::Open,
        SessionState::Acquiring => SessionAction::Grab,
        SessionState::Building => SessionAction::BuildVirtualDevice,
        SessionState::Active => SessionAction::ReadBatch,
        SessionState::Releasing(_) => SessionAction::Release,
        SessionState::Closed(end) => SessionAction::Finish(end),
    }
}

/// Leaves the active loop for release when cancellation was seen, else
/// reads the next batch.
pub open spec fn continue_or_cancel(cancelled: bool) -> SessionState {
    if cancelled {
        SessionState::Releasing(SessionEnd::Cancelled)
    } else {
        SessionState::Active
    }
}

/// The state after `event` in `state`, with the cancellation flag as last
/// read. Events that do not answer the state's pending action are ignored.
pub open spec fn next_state(state: SessionState, event: SessionEvent, cancelled: bool) -> SessionState {
    match (state, event) {
        (SessionState::Connecting, SessionEvent::Opened) => SessionState::Acquiring,
        (SessionState::Connecting, SessionEvent::OpenFailed) => SessionState::Closed(
            SessionEnd::DeviceUnavailable,
        ),
        (SessionState::Acquiring, SessionEvent::Grabbed) => SessionState::Building,
        (SessionState::Acquiring, SessionEvent::GrabFailed) => SessionState::Closed(
            SessionEnd::Fatal(FatalCause::GrabFailed),
        ),
        (SessionState::Building, SessionEvent::Built) => continue_or_cancel(cancelled),
        (SessionState::Building, SessionEvent::BuildFailed) => SessionState::Releasing(
            SessionEnd::Fatal(FatalCause::VirtualDeviceFailed),
        ),
        (SessionState::Active, SessionEvent::BatchHandled) => continue_or_cancel(cancelled),
        (SessionState::Active, SessionEvent::ReadFailed(kind)) => SessionState::Releasing(
            if read_error_class(kind) == ErrorClass::Transient {
                SessionEnd::DeviceLost
            } else {
                SessionEnd::Fatal(FatalCause::ReadFailed)
            },
        ),
        (SessionState::Active, SessionEvent::EmitFailed) => SessionState::Releasing(
            SessionEnd::Fatal(FatalCause::EmitFailed),
        ),
        (SessionState::Releasing(end), SessionEvent::Released) => SessionState::Closed(end),
        (SessionState::Releasing(end), SessionEvent::ReleaseFailed) => SessionState::Closed(end),
        _ => state,
    }
}

impl SessionState {
    /// A new session starts by opening the device.
    pub fn start() -> (r: (SessionState, SessionAction))
        ensures
            r == (SessionState::Connecting, SessionAction::Open),
    {
        (SessionState::Connecting, SessionAction::Open)
    }

    /// The device is held exclusively in this state, so leaving the
    /// session from it must pass through release.
    pub open spec fn holds_grab(self) -> bool {
        match self {
            SessionState::Building | SessionState::Active | SessionState::Releasing(_) => true,
            _ => false,
        }
    }

    /// Takes the driver's report on the last action and gives the next
    /// state and the action to do in it.
    pub fn step(self, event: SessionEvent, cancelled: bool) -> (r: (SessionState, SessionAction))
        ensures
            r.0 == next_state(self, event, cancelled),
            r.1 == pending_action(r.0),
            self.holds_grab() && r.0 is Closed ==> self is Releasing,
            self is Releasing && r.0 is Closed ==> r.0 == SessionState::Closed(self->Releasing_0),
    {
        let next = match (self, event) {
            (SessionState::Connecting, SessionEvent::Opened) => SessionState::Acquiring,
            (SessionState::Connecting, SessionEvent::OpenFailed) => SessionState::Closed(
                SessionEnd::DeviceUnavailable,
            ),
            (SessionState::Acquiring, SessionEvent::Grabbed) => SessionState::Building,
            (SessionState::Acquiring, SessionEvent::GrabFailed) => SessionState::Closed(
                SessionEnd::Fatal(FatalCause::GrabFailed),
            ),
            (SessionState::Building, SessionEvent::Built) => Self::after_batch(cancelled),
            (SessionState::Building, SessionEvent::BuildFailed) => SessionState::Releasing(
                SessionEnd::Fatal(FatalCause::VirtualDeviceFailed),
            ),
            (SessionState::Active, SessionEvent::BatchHandled) => Self::after_batch(cancelled),
            (SessionState::Active, SessionEvent::ReadFailed(kind)) => {
                let end = match classify_read_error(kind) {
                    ErrorClass::Transient => SessionEnd::DeviceLost,
                    _ => SessionEnd::Fatal(FatalCause::ReadFailed),
                };
                SessionState::Releasing(end)
            },
            (SessionState::Active, SessionEvent::EmitFailed) => SessionState::Releasing(
                SessionEnd::Fatal(FatalCause::EmitFailed),
            ),
            (SessionState::Releasing(end), SessionEvent::Released) => SessionState::Closed(end),
            (SessionState::Releasing(end), SessionEvent::ReleaseFailed) => SessionState::Closed(
                end,
            ),
            _ => self,
        };
        (next, next.pending())
    }

    fn after_batch(cancelled: bool) -> (s: SessionState)
        ensures
            s == continue_or_cancel(cancelled),
    {
        if cancelled {
            SessionState::Releasing(SessionEnd::Cancelled)
        } else {
            SessionState::Active
        }
    }

    /// The action this state waits to have done.
    pub fn pending(self) -> (a: SessionAction)
        ensures
            a == pending_action(self),
    {
        match self {
            SessionState::Connecting => SessionAction::Open,
            SessionState::Acquiring => SessionAction::Grab,
            SessionState::Building => SessionAction::BuildVirtualDevice,
            SessionState::Active => SessionAction::ReadBatch,
            SessionState::Releasing(_) => SessionAction::Release,
            SessionState::Closed(end) => SessionAction::Finish(end),
        }
    }
}

/// A session that holds the device exclusively ends only through release,
/// with the end it was releasing for whether or not release succeeded; a
/// closed session stays closed.
pub proof fn lemma_release_before_close(state: SessionState, event: SessionEvent, cancelled: bool)
    ensures
        state.holds_grab() && next_state(state, event, cancelled) is Closed ==> state is Releasing,
        state matches SessionState::Releasing(end) ==> (event == SessionEvent::Released
            || event == SessionEvent::ReleaseFailed) == (next_state(state, event, cancelled)
            == SessionState::Closed(end)),
        state is Closed ==> next_state(state, event, cancelled) == state,
{
}

} // verus!
