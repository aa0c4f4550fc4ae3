//! When the server as a whole stops, and what it reports when it does

use crate::messages::ServerShutdownMessage;
use vstd::prelude::*;

verus! {

/// The reasons to shutdown the server
#[derive(Debug, PartialEq)]
pub enum ShutdownMode {
    /// A normal server shutdown
    Normal,
    /// A fatal error occurred during server operation
    Error(String),
    /// The server needs to be restarted, indicate this as an process exit code
    Restart,
    /// An abnormal or unexpected shutdown of the server
    Abnormal,
}

/// What happens to the running server
pub enum ServerEvent {
    /// One of the server's tasks finished normally
    TaskFinished,
    /// One of the server's tasks failed, with the description of the failure
    TaskFailed(String),
    /// The world asks for a shutdown or a restart
    Request(ServerShutdownMessage),
    /// The channel of shutdown requests broke
    RequestsBroken,
    /// The operator interrupted the server
    Interrupted,
}

/// What the server does after an event
#[derive(Debug, PartialEq)]
pub struct Reaction {
    /// Tell the game and update servers to end
    pub stop_servers: bool,
    /// Stop watching for events and wait for the tasks to end
    pub leave: bool,
}

/// How the shutdown mode changes with an event: a finished task makes the shutdown abnormal
/// unless a mode was already set, a failed task makes it an error, a request sets it to a
/// normal shutdown or a restart, an interruption to a normal shutdown, and a broken request
/// channel leaves it as it was
pub open spec fn next_mode(mode: Option<ShutdownMode>, ev: ServerEvent) -> Option<ShutdownMode> {
    match ev {
        ServerEvent::TaskFinished => match mode {
            None => Some(ShutdownMode::Abnormal),
            Some(m) => Some(m),
        },
        ServerEvent::TaskFailed(e) => Some(ShutdownMode::Error(e)),
        ServerEvent::Request(ServerShutdownMessage::Shutdown) => Some(ShutdownMode::Normal),
        ServerEvent::Request(ServerShutdownMessage::Restart) => Some(ShutdownMode::Restart),
        ServerEvent::RequestsBroken => mode,
        ServerEvent::Interrupted => Some(ShutdownMode::Normal),
    }
}

/// React to an event: a task ending (either way) ends the watching; every other event tells
/// the servers to end
pub fn on_event(mode: &mut Option<ShutdownMode>, ev: ServerEvent) -> (r: Reaction)
    ensures
        *final(mode) == next_mode(*old(mode), ev),
        r.leave == (ev is TaskFinished || ev is TaskFailed),
        r.stop_servers == !(ev is TaskFinished || ev is TaskFailed),
{
    match ev {
        ServerEvent::TaskFinished => {
            if mode.is_none() {
                *mode = Some(ShutdownMode::Abnormal);
            }
            Reaction { stop_servers: false, leave: true }
        },
        ServerEvent::TaskFailed(e) => {
            *mode = Some(ShutdownMode::Error(e));
            Reaction { stop_servers: false, leave: true }
        },
        ServerEvent::Request(ServerShutdownMessage::Shutdown) => {
            *mode = Some(ShutdownMode::Normal);
            Reaction { stop_servers: true, leave: false }
        },
        ServerEvent::Request(ServerShutdownMessage::Restart) => {
            *mode = Some(ShutdownMode::Restart);
            Reaction { stop_servers: true, leave: false }
        },
        ServerEvent::RequestsBroken => Reaction { stop_servers: true, leave: false },
        ServerEvent::Interrupted => {
            *mode = Some(ShutdownMode::Normal);
            Reaction { stop_servers: true, leave: false }
        },
    }
}

/// The result the server ends with: success only for a normal shutdown; a restart and an
/// abnormal end are reported as errors with their own text
pub fn exit_result(mode: ShutdownMode) -> (r: Result<(), String>)
    ensures
        match mode {
            ShutdownMode::Normal => r is Ok,
            ShutdownMode::Error(s) => r matches Err(e) && e@ == s@,
            ShutdownMode::Restart => r matches Err(e) && e@ == "Restarting"@,
            ShutdownMode::Abnormal => r matches Err(e) && e@ == "Abnormal shutdown"@,
        },
{
    match mode {
        ShutdownMode::Normal => Ok(()),
        ShutdownMode::Error(s) => Err(s),
        ShutdownMode::Restart => Err("Restarting".to_owned()),
        ShutdownMode::Abnormal => Err("Abnormal shutdown".to_owned()),
    }
}

/// Once the server stops watching, it has a shutdown mode: leaving follows only a task's
/// end, and a task's end always sets a mode
pub proof fn lemma_mode_set_on_leave(mode: Option<ShutdownMode>, ev: ServerEvent)
    requires
        ev is TaskFinished || ev is TaskFailed,
    ensures
        next_mode(mode, ev) is Some,
{
}

} // verus!
