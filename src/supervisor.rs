use vstd::prelude::*;
use crate::session::{classify_end, end_class, ErrorClass, SessionEnd};

verus! {

/// Wait between a session that ended normally and the next one, in milliseconds.
pub const RECONNECT_DELAY_MS: u64 = 3000;

/// Exit code of a clean shutdown.
pub const EXIT_CLEAN: i32 = 0;

/// Exit code after missing privilege or a fatal session error.
pub const EXIT_FAILURE: i32 = 1;

/// What the supervisor is told.
#[derive(Clone, Copy, Debug, PartialEq, Eq, Structural)]
pub enum SupervisorEvent {
    /// The process started; whether it runs with administrative privilege.
    Started(bool),
    SessionEnded(SessionEnd),
    /// The reconnect delay is over.
    DelayElapsed,
}

/// What the supervisor does next.
#[derive(Clone, Copy, Debug, PartialEq, Eq, Structural)]
pub enum SupervisorAction {
    RunSession,
    /// Sleep this many milliseconds, then report `DelayElapsed`.
    Wait(u64),
    /// Stop the process with this exit code.
    Exit(i32),
}

/// Start a session unless cancellation was requested.
pub open spec fn session_or_exit(cancelled: bool) -> SupervisorAction {
    if cancelled {
        SupervisorAction::Exit(EXIT_CLEAN)
    } else {
        SupervisorAction::RunSession
    }
}

/// The supervisor's answer to `event`, with the cancellation flag as last read.
pub open spec fn supervisor_action(event: SupervisorEvent, cancelled: bool) -> SupervisorAction {
    match event {
        SupervisorEvent::Started(privileged) => if privileged {
            session_or_exit(cancelled)
        } else {
            SupervisorAction::Exit(EXIT_FAILURE)
        },
        SupervisorEvent::SessionEnded(end) => if end_class(end) == ErrorClass::Fatal {
            SupervisorAction::Exit(EXIT_FAILURE)
        } else if cancelled {
            SupervisorAction::Exit(EXIT_CLEAN)
        } else {
            SupervisorAction::Wait(RECONNECT_DELAY_MS)
        },
        SupervisorEvent::DelayElapsed => session_or_exit(cancelled),
    }
}

/// Decides the supervisor's next move: run a session, wait before the next
/// one, or exit.
pub fn supervise(event: SupervisorEvent, cancelled: bool) -> (a: SupervisorAction)
    ensures
        a == supervisor_action(event, cancelled),
        a is RunSession ==> !cancelled,
        (event matches SupervisorEvent::SessionEnded(end) && end is Fatal) ==> a == SupervisorAction::Exit(EXIT_FAILURE),
        a is Wait ==> event is SessionEnded && !cancelled,
{
    match event {
        SupervisorEvent::Started(privileged) => {
            if !privileged {
                SupervisorAction::Exit(EXIT_FAILURE)
            } else if cancelled {
                SupervisorAction::Exit(EXIT_CLEAN)
            } else {
                SupervisorAction::RunSession
            }
        },
        SupervisorEvent::SessionEnded(end) => {
            if classify_end(end) == ErrorClass::Fatal {
                SupervisorAction::Exit(EXIT_FAILURE)
            } else if cancelled {
                SupervisorAction::Exit(EXIT_CLEAN)
            } else {
                SupervisorAction::Wait(RECONNECT_DELAY_MS)
            }
        },
        SupervisorEvent::DelayElapsed => {
            if cancelled {
                SupervisorAction::Exit(EXIT_CLEAN)
            } else {
                SupervisorAction::RunSession
            }
        },
    }
}

/// Once cancellation is set the supervisor never starts or delays another
/// session: it exits, cleanly unless the session that just ended was fatal.
pub proof fn lemma_cancellation_exits(event: SupervisorEvent)
    requires
        event !is Started,
    ensures
        supervisor_action(event, true) is Exit,
        (event matches SupervisorEvent::SessionEnded(end) && end is Fatal)
            || supervisor_action(event, true) == SupervisorAction::Exit(EXIT_CLEAN),
{
}

} // verus!
