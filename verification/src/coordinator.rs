//! What passes between a network loop and the thread that started it: the
//! outcome of the loop's start-up, and the directive to shut down.
//!
//! A loop reports its start-up either through a status register, which
//! holds 0 until the outcome is known, then 1 for ready or a failure's code,
//! or through a channel, on which it sends one message. Either way the
//! controller goes on only when the loop is ready.

use vstd::prelude::*;
use crate::agent::{AgentNote, AgentNoteView};
use crate::text::same;

verus! {

/// The status of a loop whose start-up has not come to an end.
pub const STATUS_PENDING: u8 = 0;

/// The status of a loop that is ready.
pub const STATUS_READY: u8 = 1;

/// What the controller does about a loop's start-up.
#[derive(Clone, Copy, Debug, PartialEq, Eq, Structural)]
pub enum Startup {
    /// The outcome is not known yet: keep waiting.
    Pending,
    /// The loop is ready: go on.
    Proceed,
    /// The loop failed to start: give up.
    Abort,
}

/// The status that a step of the agent publishes, if it publishes one:
/// ready, or the code of the failure.
pub open spec fn status_of(note: AgentNoteView) -> Option<u8> {
    match note {
        AgentNoteView::Ready => Some(STATUS_READY),
        AgentNoteView::Fatal(failure) => Some(failure.code_spec()),
        _ => None,
    }
}

/// What the controller makes of a status.
pub open spec fn startup_of(status: u8) -> Startup {
    if status == STATUS_PENDING {
        Startup::Pending
    } else if status == STATUS_READY {
        Startup::Proceed
    } else {
        Startup::Abort
    }
}

/// The status that a step of the agent publishes, if it publishes one.
pub fn status_after(note: &AgentNote) -> (status: Option<u8>)
    ensures
        status == status_of(note@),
{
    match note {
        AgentNote::Ready => Some(STATUS_READY),
        AgentNote::Fatal(failure) => Some(failure.code()),
        _ => None,
    }
}

/// What the controller makes of the status register.
pub fn startup_of_status(status: u8) -> (startup: Startup)
    ensures
        startup == startup_of(status),
{
    if status == STATUS_PENDING {
        Startup::Pending
    } else if status == STATUS_READY {
        Startup::Proceed
    } else {
        Startup::Abort
    }
}

/// The controller goes on exactly when the agent has become ready, and
/// gives up exactly when the agent has failed: no published status leaves
/// it waiting.
pub proof fn lemma_startup_handshake(note: AgentNoteView)
    ensures
        match status_of(note) {
            Some(status) => startup_of(status) == (if note is Ready {
                Startup::Proceed
            } else {
                Startup::Abort
            }),
            None => !(note is Ready) && !(note is Fatal),
        },
{
}

/// The message that a loop sends when it has started.
pub open spec fn started_message() -> Seq<char> {
    "init ok"@
}

/// The message that a loop sends when it could not start.
pub open spec fn failed_message() -> Seq<char> {
    "init failed"@
}

/// The one message that a loop sends about its start-up.
pub fn startup_message(started: bool) -> (message: &'static str)
    ensures
        message@ == (if started {
            started_message()
        } else {
            failed_message()
        }),
{
    if started {
        "init ok"
    } else {
        "init failed"
    }
}

/// What the controller makes of the loop's message: it gives up on the
/// message of failure and goes on otherwise.
pub fn startup_of_message(message: &str) -> (startup: Startup)
    ensures
        startup == (if message@ == failed_message() {
            Startup::Abort
        } else {
            Startup::Proceed
        }),
{
    if same(message, "init failed") {
        Startup::Abort
    } else {
        Startup::Proceed
    }
}

/// The controller goes on exactly when the loop says that it has started.
pub proof fn lemma_message_handshake(started: bool)
    ensures
        ({
            let message = if started {
                started_message()
            } else {
                failed_message()
            };
            (message != failed_message()) == started
        }),
{
    reveal_strlit("init ok");
    reveal_strlit("init failed");
    assert("init ok"@.len() == 7);
    assert("init failed"@.len() == 11);
}

/// The directive that tells a loop to shut down.
pub fn shutdown_directive() -> (directive: &'static str)
    ensures
        directive@ == "shutdown"@,
{
    "shutdown"
}

} // verus!
