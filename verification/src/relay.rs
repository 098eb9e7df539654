//! One polling step of each writer task: the tick driver and the input relay.
//!
//! Both tasks run the same shape of loop — poll the liveness flag, act, block
//! — and everything they decide per iteration is here, as a function from
//! what the task just observed to what it must do next. The unverified loop
//! around each function only performs the returned action: it writes the
//! returned line whole (under the stream's mutual exclusion), sleeps the
//! returned interval, or stops.

use vstd::prelude::*;

verus! {

use crate::cadence::sleep_millis_spec;
use crate::keys::is_allowed_key;
use crate::keys::key_allowed;
use crate::keys::key_line;
use crate::keys::key_line_spec;
use crate::keys::lemma_key_line_is_command;
use crate::protocol::NEWLINE_BYTE;
use crate::protocol::is_command_line;

/// Byte value of the tick token: the single character the tick driver writes
/// to advance the game's internal clock by one unit.
pub const TICK_BYTE: u8 = 39;

/// The line one tick writes: the tick token plus the line terminator.
pub open spec fn tick_line_spec() -> Seq<u8> {
    seq![TICK_BYTE, NEWLINE_BYTE]
}

/// Encodes one tick as a command line.
pub fn tick_line() -> (r: Vec<u8>)
    ensures
        r@ == tick_line_spec(),
        is_command_line(r@),
{
    let mut out: Vec<u8> = Vec::new();
    out.push(TICK_BYTE);
    out.push(NEWLINE_BYTE);
    assert(out@ =~= tick_line_spec());
    out
}

/// What the tick driver must do after one poll of the liveness flag.
pub enum TickAction {
    /// The game is over: leave the loop and write nothing further.
    Stop,
    /// Write `line` whole to the shared input stream, then sleep
    /// `sleep_millis` milliseconds before polling again.
    Tick { line: Vec<u8>, sleep_millis: u64 },
}

/// One step of the tick driver. `game_over` is the polled liveness flag;
/// `log_factor_millis` is the scaled base-10 logarithm of the clamped
/// elapsed time (see [`crate::cadence`]). The driver writes if and only if
/// the game is not over, always a whole tick line, and sleeps exactly the
/// cadence interval.
pub fn tick_step(game_over: bool, log_factor_millis: u64) -> (r: TickAction)
    ensures
        r is Stop <==> game_over,
        r matches TickAction::Tick { line, sleep_millis } ==> {
            &&& line@ == tick_line_spec()
            &&& is_command_line(line@)
            &&& sleep_millis == sleep_millis_spec(log_factor_millis as nat)
        },
{
    if game_over {
        TickAction::Stop
    } else {
        let line = tick_line();
        let sleep_millis = crate::cadence::sleep_millis(log_factor_millis);
        TickAction::Tick { line, sleep_millis }
    }
}

/// What the input relay must do with one keystroke.
pub enum InputAction {
    /// The game is over: leave the loop and write nothing further.
    Stop,
    /// The key is one of the five commands: write `line` whole to the shared
    /// input stream.
    Forward { line: Vec<u8> },
    /// Any other key: write nothing and poll again.
    Discard,
}

/// One step of the input relay. `game_over` is the polled liveness flag;
/// `key` the keystroke just read. Exactly the five allowed keys are
/// forwarded, each as its own whole command line; every other key is
/// discarded silently.
pub fn input_step(game_over: bool, key: char) -> (r: InputAction)
    ensures
        r is Stop <==> game_over,
        r is Forward <==> !game_over && is_allowed_key(key),
        r is Discard <==> !game_over && !is_allowed_key(key),
        r matches InputAction::Forward { line } ==> {
            &&& line@ == key_line_spec(key)
            &&& is_command_line(line@)
        },
{
    if game_over {
        InputAction::Stop
    } else if key_allowed(key) {
        let line = key_line(key);
        proof {
            lemma_key_line_is_command(key);
        }
        InputAction::Forward { line }
    } else {
        InputAction::Discard
    }
}

} // verus!
