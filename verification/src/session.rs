//! The session: the coordinator's decisions and the driver's error taxonomy.
//!
//! One session spawns the child, writes the seed line, runs the three tasks,
//! and waits for the child to exit. The unverified plumbing reports what
//! happened as events; everything the coordinator decides about them — which
//! state follows which event, which error each failure becomes, and what each
//! error tells the user — is here.

use vstd::prelude::*;

verus! {

use vstd::string::StringExecFns;

/// Everything that can go wrong in a session, by where it strikes.
pub enum DriverError {
    /// The executable could not be launched at all; carries the path tried.
    SpawnError { path: String },
    /// The initial seed line could not be written to the child's input.
    HandshakeError,
    /// A later write to the child's input failed: the pipe has closed.
    PipeClosedError,
    /// A line of the child's output could not be decoded as text.
    StreamDecodeError,
    /// The seed supplied before the session was invalid or zero.
    SeedParseError,
}

/// The one-line diagnostic for each error. A spawn failure names the path
/// that failed, since pointing the driver at the right executable is the fix.
pub open spec fn message_spec(e: DriverError) -> Seq<char> {
    match e {
        DriverError::SpawnError { path } => "could not launch the game executable at "@ + path@,
        DriverError::HandshakeError => "could not write the seed to the game's input"@,
        DriverError::PipeClosedError => "the game's input pipe is closed"@,
        DriverError::StreamDecodeError => "the game wrote an undecodable output line"@,
        DriverError::SeedParseError => "the seed must be a non-zero integer"@,
    }
}

impl DriverError {
    /// Renders the user-facing diagnostic.
    pub fn message(&self) -> (r: String)
        ensures
            r@ == message_spec(*self),
    {
        match self {
            DriverError::SpawnError { path } => {
                let mut s: String = "could not launch the game executable at ".to_owned();
                s.append(path.as_str());
                s
            },
            DriverError::HandshakeError => "could not write the seed to the game's input".to_owned(),
            DriverError::PipeClosedError => "the game's input pipe is closed".to_owned(),
            DriverError::StreamDecodeError => "the game wrote an undecodable output line".to_owned(),
            DriverError::SeedParseError => "the seed must be a non-zero integer".to_owned(),
        }
    }
}

/// Accepts a seed for a session: any non-zero integer; zero is rejected
/// before the session starts.
pub fn validate_seed(seed: i32) -> (r: Result<i32, DriverError>)
    ensures
        seed != 0 ==> r == Result::<i32, DriverError>::Ok(seed),
        seed == 0 ==> (r matches Err(e) && e is SeedParseError),
{
    if seed == 0 {
        Err(DriverError::SeedParseError)
    } else {
        Ok(seed)
    }
}

/// Where a session stands, from spawn to exit.
pub enum SessionState {
    /// Nothing has happened yet: the child is about to be spawned.
    Spawning,
    /// The child is up; the seed line has not been written yet.
    Handshaking,
    /// Seed written; the three tasks are running.
    Running,
    /// All three tasks have finished; waiting on the child to exit.
    WaitingExit,
    /// The child exited after a full session.
    Finished,
    /// The session was aborted by the recorded error.
    Failed { error: DriverError },
}

/// What the plumbing can report to the coordinator.
pub enum SessionEvent {
    /// The child process launched with both pipes captured.
    SpawnSucceeded,
    /// The child could not be launched at the given path.
    SpawnFailed { path: String },
    /// The seed line reached the child's input.
    SeedWritten,
    /// The seed line could not be written: the pipe broke at once.
    SeedWriteFailed,
    /// Output relay, tick driver and input relay have all returned.
    RelaysFinished,
    /// The child process exited.
    ChildExited,
}

/// The coordinator's transition function. An event that makes no sense in
/// the current state changes nothing.
pub open spec fn session_step_spec(s: SessionState, e: SessionEvent) -> SessionState {
    match (s, e) {
        (SessionState::Spawning, SessionEvent::SpawnSucceeded) => SessionState::Handshaking,
        (SessionState::Spawning, SessionEvent::SpawnFailed { path }) => SessionState::Failed {
            error: DriverError::SpawnError { path },
        },
        (SessionState::Handshaking, SessionEvent::SeedWritten) => SessionState::Running,
        (SessionState::Handshaking, SessionEvent::SeedWriteFailed) => SessionState::Failed {
            error: DriverError::HandshakeError,
        },
        (SessionState::Running, SessionEvent::RelaysFinished) => SessionState::WaitingExit,
        (SessionState::WaitingExit, SessionEvent::ChildExited) => SessionState::Finished,
        (other, _) => other,
    }
}

/// Whether the three tasks have been started (and possibly finished) in this
/// state. Once true it stays true along every transition.
pub open spec fn tasks_started(s: SessionState) -> bool {
    s is Running || s is WaitingExit || s is Finished
}

/// Advances the session on one reported event.
pub fn session_step(s: SessionState, e: SessionEvent) -> (r: SessionState)
    ensures
        r == session_step_spec(s, e),
{
    match (s, e) {
        (SessionState::Spawning, SessionEvent::SpawnSucceeded) => SessionState::Handshaking,
        (SessionState::Spawning, SessionEvent::SpawnFailed { path }) => SessionState::Failed {
            error: DriverError::SpawnError { path },
        },
        (SessionState::Handshaking, SessionEvent::SeedWritten) => SessionState::Running,
        (SessionState::Handshaking, SessionEvent::SeedWriteFailed) => SessionState::Failed {
            error: DriverError::HandshakeError,
        },
        (SessionState::Running, SessionEvent::RelaysFinished) => SessionState::WaitingExit,
        (SessionState::WaitingExit, SessionEvent::ChildExited) => SessionState::Finished,
        (other, _) => other,
    }
}

/// Law: tasks start only when the handshake completes. The one transition
/// from a state without running tasks into a state with them is observing
/// `SeedWritten` while handshaking — in particular, a failed spawn can never
/// start a task.
pub proof fn lemma_tasks_start_only_after_handshake(s: SessionState, e: SessionEvent)
    requires
        !tasks_started(s),
        tasks_started(session_step_spec(s, e)),
    ensures
        s is Handshaking && e is SeedWritten,
{
}

} // verus!
