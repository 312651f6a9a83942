//! The client's agent: the steps by which a client connects, registers,
//! listens and leaves.
//!
//! The agent does no input or output itself. It is a state machine: it says
//! which action to take next, is told how the action went, and says what
//! follows. Whoever runs it owns the socket and the directive channel and
//! performs the actions.
//!
//! ```text
//! connecting:    create socket -> set identity -> connect -> set receive timeout (long)
//! registering:   send "register" -> await reply -> set receive timeout (short)
//! active:        poll directive -> receive -> poll directive -> ...
//! shutting down: send "unregister" -> stop
//! ```
//!
//! A step that fails before the agent is active stops it, with the reason.
//! Once active, nothing that arrives or fails to arrive stops it: only the
//! directive to shut down does.

use vstd::prelude::*;
use crate::codec::{decode, decode_spec, encode, encode_spec, DecodeError};
use crate::protocol::{
    client_request,
    ContactProtocol,
    ContactProtocolView,
    MsgStatus,
    Protocols,
    ProtocolsView,
};
use crate::text::same;
use crate::time::{rfc3339_valid, Timestamp};

verus! {

/// How long the agent waits for the answer to its registration, in
/// milliseconds.
pub const HANDSHAKE_TIMEOUT_MS: i32 = 5000;

/// How long one receive waits once the agent is active, in milliseconds.
pub const POLL_TIMEOUT_MS: i32 = 100;

/// Why an agent stopped before it was active.
#[derive(Clone, Copy, Debug, PartialEq, Eq, Structural)]
pub enum AgentFailure {
    /// The socket could not be connected.
    Connect,
    /// The receive timeout for the handshake could not be set.
    SetHandshakeTimeout,
    /// The request to register could not be written or sent.
    SendRegistration,
    /// The broker answered the request with a status other than `ACCEPTED`.
    RegistrationRefused,
    /// The broker answered with a contact message that is no client control
    /// message.
    UnexpectedContact,
    /// The broker answered with a notification.
    UnexpectedNotify,
    /// No answer arrived in time, or what arrived could not be read.
    ReceiveReply,
    /// The socket could not be created.
    CreateSocket,
    /// The socket's identity could not be set.
    SetIdentity,
    /// The receive timeout for polling could not be set.
    SetPollTimeout,
}

impl AgentFailure {
    /// The failure's status code.
    pub open spec fn code_spec(self) -> u8 {
        match self {
            AgentFailure::Connect => 2,
            AgentFailure::SetHandshakeTimeout => 3,
            AgentFailure::SendRegistration => 4,
            AgentFailure::RegistrationRefused => 5,
            AgentFailure::UnexpectedContact => 6,
            AgentFailure::UnexpectedNotify => 7,
            AgentFailure::ReceiveReply => 8,
            AgentFailure::CreateSocket => 9,
            AgentFailure::SetIdentity => 10,
            AgentFailure::SetPollTimeout => 11,
        }
    }

    /// The failure's status code: a number from 2 to 11, one for each
    /// failure.
    pub fn code(self) -> (code: u8)
        ensures
            code == self.code_spec(),
            2 <= code <= 11,
    {
        match self {
            AgentFailure::Connect => 2,
            AgentFailure::SetHandshakeTimeout => 3,
            AgentFailure::SendRegistration => 4,
            AgentFailure::RegistrationRefused => 5,
            AgentFailure::UnexpectedContact => 6,
            AgentFailure::UnexpectedNotify => 7,
            AgentFailure::ReceiveReply => 8,
            AgentFailure::CreateSocket => 9,
            AgentFailure::SetIdentity => 10,
            AgentFailure::SetPollTimeout => 11,
        }
    }

    /// The failure with the given status code, if there is one.
    pub fn from_code(code: u8) -> (r: Option<AgentFailure>)
        ensures
            match r {
                Some(failure) => failure.code_spec() == code,
                None => forall|failure: AgentFailure| failure.code_spec() != code,
            },
    {
        match code {
            2 => Some(AgentFailure::Connect),
            3 => Some(AgentFailure::SetHandshakeTimeout),
            4 => Some(AgentFailure::SendRegistration),
            5 => Some(AgentFailure::RegistrationRefused),
            6 => Some(AgentFailure::UnexpectedContact),
            7 => Some(AgentFailure::UnexpectedNotify),
            8 => Some(AgentFailure::ReceiveReply),
            9 => Some(AgentFailure::CreateSocket),
            10 => Some(AgentFailure::SetIdentity),
            11 => Some(AgentFailure::SetPollTimeout),
            _ => None,
        }
    }
}

/// The four stretches of an agent's life, and its end.
#[derive(Clone, Copy, Debug, PartialEq, Eq, Structural)]
pub enum Phase {
    Connecting,
    Registering,
    Active,
    ShuttingDown,
    Stopped,
}

/// Where the agent is: the action that it is waiting to hear of.
#[derive(Clone, Copy, Debug, PartialEq, Eq, Structural)]
pub enum AgentState {
    CreatingSocket,
    SettingIdentity,
    Connecting,
    SettingHandshakeTimeout,
    SendingRegistration,
    AwaitingReply,
    SettingPollTimeout,
    CheckingDirective,
    Receiving,
    ShuttingDown,
    /// Stopped before it was active.
    Failed(AgentFailure),
    /// Stopped after it was told to shut down.
    Finished,
}

impl AgentState {
    /// The stretch that the state belongs to.
    pub open spec fn phase_spec(self) -> Phase {
        match self {
            AgentState::CreatingSocket => Phase::Connecting,
            AgentState::SettingIdentity => Phase::Connecting,
            AgentState::Connecting => Phase::Connecting,
            AgentState::SettingHandshakeTimeout => Phase::Connecting,
            AgentState::SendingRegistration => Phase::Registering,
            AgentState::AwaitingReply => Phase::Registering,
            AgentState::SettingPollTimeout => Phase::Registering,
            AgentState::CheckingDirective => Phase::Active,
            AgentState::Receiving => Phase::Active,
            AgentState::ShuttingDown => Phase::ShuttingDown,
            AgentState::Failed(_) => Phase::Stopped,
            AgentState::Finished => Phase::Stopped,
        }
    }

    /// The stretch that the state belongs to.
    pub fn phase(self) -> (phase: Phase)
        ensures
            phase == self.phase_spec(),
    {
        match self {
            AgentState::CreatingSocket => Phase::Connecting,
            AgentState::SettingIdentity => Phase::Connecting,
            AgentState::Connecting => Phase::Connecting,
            AgentState::SettingHandshakeTimeout => Phase::Connecting,
            AgentState::SendingRegistration => Phase::Registering,
            AgentState::AwaitingReply => Phase::Registering,
            AgentState::SettingPollTimeout => Phase::Registering,
            AgentState::CheckingDirective => Phase::Active,
            AgentState::Receiving => Phase::Active,
            AgentState::ShuttingDown => Phase::ShuttingDown,
            AgentState::Failed(_) => Phase::Stopped,
            AgentState::Finished => Phase::Stopped,
        }
    }
}

/// What the agent asks to be done next.
#[derive(Debug, PartialEq, Eq)]
pub enum AgentAction {
    CreateSocket,
    /// Give the socket the client's identity.
    SetIdentity,
    Connect,
    /// Set the socket's receive timeout, in milliseconds.
    SetReceiveTimeout(i32),
    /// Send these payload bytes.
    Send(Vec<u8>),
    /// Receive one payload, waiting no longer than the receive timeout.
    Receive,
    /// Look for a directive, without waiting.
    PollDirective,
    /// Nothing more: the agent has stopped.
    Stop,
}

/// View of an `AgentAction`.
pub enum AgentActionView {
    CreateSocket,
    SetIdentity,
    Connect,
    SetReceiveTimeout(i32),
    Send(Seq<u8>),
    Receive,
    PollDirective,
    Stop,
}

impl View for AgentAction {
    type V = AgentActionView;

    open spec fn view(&self) -> AgentActionView {
        match self {
            AgentAction::CreateSocket => AgentActionView::CreateSocket,
            AgentAction::SetIdentity => AgentActionView::SetIdentity,
            AgentAction::Connect => AgentActionView::Connect,
            AgentAction::SetReceiveTimeout(ms) => AgentActionView::SetReceiveTimeout(*ms),
            AgentAction::Send(bytes) => AgentActionView::Send(bytes@),
            AgentAction::Receive => AgentActionView::Receive,
            AgentAction::PollDirective => AgentActionView::PollDirective,
            AgentAction::Stop => AgentActionView::Stop,
        }
    }
}

/// How the action that the agent asked for went.
#[derive(Debug, PartialEq, Eq)]
pub enum AgentEvent {
    /// The action was done.
    Done,
    /// The action failed.
    Failed,
    /// A payload was received.
    Received(Vec<u8>),
    /// Nothing arrived within the receive timeout.
    TimedOut,
    /// What the directive channel held; the empty text where it held
    /// nothing.
    Directive(String),
}

/// View of an `AgentEvent`.
pub enum AgentEventView {
    Done,
    Failed,
    Received(Seq<u8>),
    TimedOut,
    Directive(Seq<char>),
}

impl View for AgentEvent {
    type V = AgentEventView;

    open spec fn view(&self) -> AgentEventView {
        match self {
            AgentEvent::Done => AgentEventView::Done,
            AgentEvent::Failed => AgentEventView::Failed,
            AgentEvent::Received(bytes) => AgentEventView::Received(bytes@),
            AgentEvent::TimedOut => AgentEventView::TimedOut,
            AgentEvent::Directive(text) => AgentEventView::Directive(text@),
        }
    }
}

/// What a step came to, for whoever keeps the log and the status.
#[derive(Debug, PartialEq, Eq)]
pub enum AgentNote {
    /// On to the next action.
    Progress,
    /// The agent is registered and listening.
    Ready,
    /// The agent stopped before it was active.
    Fatal(AgentFailure),
    /// Nothing arrived.
    Idle,
    /// A message arrived.
    Inbound(Protocols),
    /// Something arrived that could not be read.
    Undecodable(DecodeError),
    /// Receiving failed.
    TransportError,
    /// A directive arrived that the agent does not know.
    UnknownDirective,
    /// The agent was told to shut down and says goodbye.
    Leaving,
    /// The goodbye was sent; the agent is done.
    Left,
    /// The goodbye could not be written or sent; the agent is done all the
    /// same.
    GoodbyeLost,
}

/// View of an `AgentNote`.
pub enum AgentNoteView {
    Progress,
    Ready,
    Fatal(AgentFailure),
    Idle,
    Inbound(ProtocolsView),
    Undecodable(DecodeError),
    TransportError,
    UnknownDirective,
    Leaving,
    Left,
    GoodbyeLost,
}

impl View for AgentNote {
    type V = AgentNoteView;

    open spec fn view(&self) -> AgentNoteView {
        match self {
            AgentNote::Progress => AgentNoteView::Progress,
            AgentNote::Ready => AgentNoteView::Ready,
            AgentNote::Fatal(failure) => AgentNoteView::Fatal(*failure),
            AgentNote::Idle => AgentNoteView::Idle,
            AgentNote::Inbound(envelope) => AgentNoteView::Inbound(envelope@),
            AgentNote::Undecodable(e) => AgentNoteView::Undecodable(*e),
            AgentNote::TransportError => AgentNoteView::TransportError,
            AgentNote::UnknownDirective => AgentNoteView::UnknownDirective,
            AgentNote::Leaving => AgentNoteView::Leaving,
            AgentNote::Left => AgentNoteView::Left,
            AgentNote::GoodbyeLost => AgentNoteView::GoodbyeLost,
        }
    }
}

/// One step of the agent: where it is now, what to do next, and what the
/// step came to.
#[derive(Debug, PartialEq, Eq)]
pub struct Transition {
    pub next: AgentState,
    pub action: AgentAction,
    pub note: AgentNote,
}

/// View of a `Transition`.
pub struct TransitionView {
    pub next: AgentState,
    pub action: AgentActionView,
    pub note: AgentNoteView,
}

impl View for Transition {
    type V = TransitionView;

    open spec fn view(&self) -> TransitionView {
        TransitionView { next: self.next, action: self.action@, note: self.note@ }
    }
}

/// The step that stops the agent for `failure`.
pub open spec fn fails(failure: AgentFailure) -> TransitionView {
    TransitionView {
        next: AgentState::Failed(failure),
        action: AgentActionView::Stop,
        note: AgentNoteView::Fatal(failure),
    }
}

/// The step that goes on to `next` with `action`.
pub open spec fn advances(next: AgentState, action: AgentActionView) -> TransitionView {
    TransitionView { next, action, note: AgentNoteView::Progress }
}

/// The step after an action that can only be done or fail: on to `next`
/// with `action` where it was done, and the end for `failure` where anything
/// else is reported.
pub open spec fn after(
    event: AgentEventView,
    next: AgentState,
    action: AgentActionView,
    failure: AgentFailure,
) -> TransitionView {
    if event is Done {
        advances(next, action)
    } else {
        fails(failure)
    }
}

/// The step that sends `request`, or the end where it cannot be written.
pub open spec fn sends_registration(request: Option<Seq<u8>>) -> TransitionView {
    match request {
        Some(bytes) => advances(AgentState::SendingRegistration, AgentActionView::Send(bytes)),
        None => fails(AgentFailure::SendRegistration),
    }
}

/// What the answer to the request to register leads to.
pub open spec fn on_reply(reply: Result<ProtocolsView, DecodeError>) -> TransitionView {
    match reply {
        Ok(ProtocolsView::CPType(ContactProtocolView::ClientControl { state, .. })) => {
            if state == MsgStatus::ACCEPTED {
                advances(
                    AgentState::SettingPollTimeout,
                    AgentActionView::SetReceiveTimeout(POLL_TIMEOUT_MS),
                )
            } else {
                fails(AgentFailure::RegistrationRefused)
            }
        },
        Ok(ProtocolsView::CPType(_)) => fails(AgentFailure::UnexpectedContact),
        Ok(ProtocolsView::NPType(_)) => fails(AgentFailure::UnexpectedNotify),
        Err(_) => fails(AgentFailure::ReceiveReply),
    }
}

/// What a directive leads to: `shutdown` to the goodbye, the empty text and
/// anything else to the next receive.
pub open spec fn on_directive(text: Seq<char>, goodbye: Option<Seq<u8>>) -> TransitionView {
    if text == "shutdown"@ {
        match goodbye {
            Some(bytes) => TransitionView {
                next: AgentState::ShuttingDown,
                action: AgentActionView::Send(bytes),
                note: AgentNoteView::Leaving,
            },
            None => TransitionView {
                next: AgentState::Finished,
                action: AgentActionView::Stop,
                note: AgentNoteView::GoodbyeLost,
            },
        }
    } else {
        TransitionView {
            next: AgentState::Receiving,
            action: AgentActionView::Receive,
            note: if text.len() == 0 {
                AgentNoteView::Progress
            } else {
                AgentNoteView::UnknownDirective
            },
        }
    }
}

/// What a receive came to while the agent is active.
pub open spec fn on_inbound(event: AgentEventView) -> AgentNoteView {
    match event {
        AgentEventView::Received(bytes) => match decode_spec(bytes) {
            Ok(envelope) => AgentNoteView::Inbound(envelope),
            Err(e) => AgentNoteView::Undecodable(e),
        },
        AgentEventView::TimedOut => AgentNoteView::Idle,
        _ => AgentNoteView::TransportError,
    }
}

/// The agent's step from `state` on `event` at time `now`.
pub open spec fn transition_spec(state: AgentState, event: AgentEventView, now: Seq<char>) -> TransitionView {
    match state {
        AgentState::CreatingSocket => after(
            event,
            AgentState::SettingIdentity,
            AgentActionView::SetIdentity,
            AgentFailure::CreateSocket,
        ),
        AgentState::SettingIdentity => after(
            event,
            AgentState::Connecting,
            AgentActionView::Connect,
            AgentFailure::SetIdentity,
        ),
        AgentState::Connecting => after(
            event,
            AgentState::SettingHandshakeTimeout,
            AgentActionView::SetReceiveTimeout(HANDSHAKE_TIMEOUT_MS),
            AgentFailure::Connect,
        ),
        AgentState::SettingHandshakeTimeout => if event is Done {
            sends_registration(encode_spec(client_request("register"@, now)))
        } else {
            fails(AgentFailure::SetHandshakeTimeout)
        },
        AgentState::SendingRegistration => after(
            event,
            AgentState::AwaitingReply,
            AgentActionView::Receive,
            AgentFailure::SendRegistration,
        ),
        AgentState::AwaitingReply => match event {
            AgentEventView::Received(bytes) => on_reply(decode_spec(bytes)),
            _ => fails(AgentFailure::ReceiveReply),
        },
        AgentState::SettingPollTimeout => if event is Done {
            TransitionView {
                next: AgentState::CheckingDirective,
                action: AgentActionView::PollDirective,
                note: AgentNoteView::Ready,
            }
        } else {
            fails(AgentFailure::SetPollTimeout)
        },
        AgentState::CheckingDirective => match event {
            AgentEventView::Directive(text) => on_directive(
                text,
                encode_spec(client_request("unregister"@, now)),
            ),
            _ => advances(AgentState::Receiving, AgentActionView::Receive),
        },
        AgentState::Receiving => TransitionView {
            next: AgentState::CheckingDirective,
            action: AgentActionView::PollDirective,
            note: on_inbound(event),
        },
        AgentState::ShuttingDown => TransitionView {
            next: AgentState::Finished,
            action: AgentActionView::Stop,
            note: if event is Done {
                AgentNoteView::Left
            } else {
                AgentNoteView::GoodbyeLost
            },
        },
        AgentState::Failed(failure) => advances(AgentState::Failed(failure), AgentActionView::Stop),
        AgentState::Finished => advances(AgentState::Finished, AgentActionView::Stop),
    }
}

/// Where an agent starts, and its first action.
pub fn start() -> (first: Transition)
    ensures
        first@ == advances(AgentState::CreatingSocket, AgentActionView::CreateSocket),
{
    Transition {
        next: AgentState::CreatingSocket,
        action: AgentAction::CreateSocket,
        note: AgentNote::Progress,
    }
}

fn fail(failure: AgentFailure) -> (t: Transition)
    ensures
        t@ == fails(failure),
{
    Transition {
        next: AgentState::Failed(failure),
        action: AgentAction::Stop,
        note: AgentNote::Fatal(failure),
    }
}

fn advance(next: AgentState, action: AgentAction) -> (t: Transition)
    ensures
        t@ == advances(next, action@),
{
    Transition { next, action, note: AgentNote::Progress }
}

fn done(event: &AgentEvent) -> (r: bool)
    ensures
        r == (event@ is Done),
{
    match event {
        AgentEvent::Done => true,
        _ => false,
    }
}

fn reply_step(reply: Result<Protocols, DecodeError>) -> (t: Transition)
    ensures
        match reply {
            Ok(envelope) => t@ == on_reply(Ok(envelope@)),
            Err(e) => t@ == on_reply(Err(e)),
        },
{
    match reply {
        Ok(Protocols::CPType(ContactProtocol::ClientControl { state, command: _, cmd_args: _, time: _ })) => {
            match state {
                MsgStatus::ACCEPTED => advance(
                    AgentState::SettingPollTimeout,
                    AgentAction::SetReceiveTimeout(POLL_TIMEOUT_MS),
                ),
                _ => fail(AgentFailure::RegistrationRefused),
            }
        },
        Ok(Protocols::CPType(_)) => fail(AgentFailure::UnexpectedContact),
        Ok(Protocols::NPType(_)) => fail(AgentFailure::UnexpectedNotify),
        Err(_) => fail(AgentFailure::ReceiveReply),
    }
}

/// The agent's step from `state` on `event`, with `now` as the time.
pub fn transition_at(state: AgentState, event: AgentEvent, now: Timestamp) -> (t: Transition)
    ensures
        t@ == transition_spec(state, event@, now@),
{
    match state {
        AgentState::CreatingSocket => {
            if done(&event) {
                advance(AgentState::SettingIdentity, AgentAction::SetIdentity)
            } else {
                fail(AgentFailure::CreateSocket)
            }
        },
        AgentState::SettingIdentity => {
            if done(&event) {
                advance(AgentState::Connecting, AgentAction::Connect)
            } else {
                fail(AgentFailure::SetIdentity)
            }
        },
        AgentState::Connecting => {
            if done(&event) {
                advance(
                    AgentState::SettingHandshakeTimeout,
                    AgentAction::SetReceiveTimeout(HANDSHAKE_TIMEOUT_MS),
                )
            } else {
                fail(AgentFailure::Connect)
            }
        },
        AgentState::SettingHandshakeTimeout => {
            if done(&event) {
                match encode(&Protocols::client_request("register", now)) {
                    Some(bytes) => advance(AgentState::SendingRegistration, AgentAction::Send(bytes)),
                    None => fail(AgentFailure::SendRegistration),
                }
            } else {
                fail(AgentFailure::SetHandshakeTimeout)
            }
        },
        AgentState::SendingRegistration => {
            if done(&event) {
                advance(AgentState::AwaitingReply, AgentAction::Receive)
            } else {
                fail(AgentFailure::SendRegistration)
            }
        },
        AgentState::AwaitingReply => {
            match event {
                AgentEvent::Received(bytes) => reply_step(decode(bytes.as_slice())),
                _ => fail(AgentFailure::ReceiveReply),
            }
        },
        AgentState::SettingPollTimeout => {
            if done(&event) {
                Transition {
                    next: AgentState::CheckingDirective,
                    action: AgentAction::PollDirective,
                    note: AgentNote::Ready,
                }
            } else {
                fail(AgentFailure::SetPollTimeout)
            }
        },
        AgentState::CheckingDirective => {
            match event {
                AgentEvent::Directive(text) => {
                    if same(text.as_str(), "shutdown") {
                        match encode(&Protocols::client_request("unregister", now)) {
                            Some(bytes) => Transition {
                                next: AgentState::ShuttingDown,
                                action: AgentAction::Send(bytes),
                                note: AgentNote::Leaving,
                            },
                            None => Transition {
                                next: AgentState::Finished,
                                action: AgentAction::Stop,
                                note: AgentNote::GoodbyeLost,
                            },
                        }
                    } else {
                        let note = if text.as_str().is_empty() {
                            AgentNote::Progress
                        } else {
                            AgentNote::UnknownDirective
                        };
                        Transition {
                            next: AgentState::Receiving,
                            action: AgentAction::Receive,
                            note,
                        }
                    }
                },
                _ => advance(AgentState::Receiving, AgentAction::Receive),
            }
        },
        AgentState::Receiving => {
            let note = match event {
                AgentEvent::Received(bytes) => match decode(bytes.as_slice()) {
                    Ok(envelope) => AgentNote::Inbound(envelope),
                    Err(e) => AgentNote::Undecodable(e),
                },
                AgentEvent::TimedOut => AgentNote::Idle,
                _ => AgentNote::TransportError,
            };
            Transition {
                next: AgentState::CheckingDirective,
                action: AgentAction::PollDirective,
                note,
            }
        },
        AgentState::ShuttingDown => {
            let note = if done(&event) {
                AgentNote::Left
            } else {
                AgentNote::GoodbyeLost
            };
            Transition { next: AgentState::Finished, action: AgentAction::Stop, note }
        },
        AgentState::Failed(failure) => advance(AgentState::Failed(failure), AgentAction::Stop),
        AgentState::Finished => advance(AgentState::Finished, AgentAction::Stop),
    }
}

/// The agent's step from `state` on `event`, stamping what it writes with
/// the current time.
pub fn transition(state: AgentState, event: AgentEvent) -> (t: Transition)
    ensures
        exists|now: Seq<char>|
            rfc3339_valid(now) && t@ == #[trigger] transition_spec(state, event@, now),
{
    let now = Timestamp::now();
    let ghost stamp = now@;
    let t = transition_at(state, event, now);
    assert(rfc3339_valid(stamp) && t@ == transition_spec(state, event@, stamp));
    t
}

/// An answer that lets the agent in: a client control message with status
/// `ACCEPTED`.
pub open spec fn accepts(reply: Result<ProtocolsView, DecodeError>) -> bool {
    reply matches Ok(ProtocolsView::CPType(ContactProtocolView::ClientControl { state, .. }))
        && state == MsgStatus::ACCEPTED
}

/// Only `ACCEPTED` lets the agent in. While it awaits the answer to its
/// registration, the agent goes on towards listening exactly when a client
/// control message with status `ACCEPTED` arrives; on anything else it stops,
/// with a failure, and is never active.
pub proof fn lemma_only_accepted_registers(event: AgentEventView, now: Seq<char>)
    ensures
        ({
            let t = transition_spec(AgentState::AwaitingReply, event, now);
            let accepted = event matches AgentEventView::Received(bytes) && accepts(
                decode_spec(bytes),
            );
            &&& accepted ==> t.next == AgentState::SettingPollTimeout
            &&& !accepted ==> t.next is Failed && t.action is Stop
        }),
{
}

/// Before it is active, an agent moves only forward or stops with a
/// failure; it is reported ready only by the step that makes it active.
pub proof fn lemma_ready_means_active(state: AgentState, event: AgentEventView, now: Seq<char>)
    ensures
        transition_spec(state, event, now).note is Ready <==> state
            == AgentState::SettingPollTimeout && event is Done,
        transition_spec(state, event, now).note is Ready ==> transition_spec(
            state,
            event,
            now,
        ).next.phase_spec() == Phase::Active,
{
}

/// Nothing stops an active agent but the directive to shut down: whatever
/// arrives, times out or fails, it stays active, and it leaves only on
/// `shutdown`.
pub proof fn lemma_active_until_shutdown(state: AgentState, event: AgentEventView, now: Seq<char>)
    requires
        state.phase_spec() == Phase::Active,
    ensures
        ({
            let t = transition_spec(state, event, now);
            let told = state == AgentState::CheckingDirective && event
                == AgentEventView::Directive("shutdown"@);
            &&& !told ==> t.next.phase_spec() == Phase::Active
            &&& told ==> t.next == AgentState::ShuttingDown || t.next == AgentState::Finished
            &&& !(t.next is Failed)
        }),
{
}

/// A stopped agent stays stopped.
pub proof fn lemma_stopped_is_final(state: AgentState, event: AgentEventView, now: Seq<char>)
    requires
        state.phase_spec() == Phase::Stopped,
    ensures
        transition_spec(state, event, now).next == state,
        transition_spec(state, event, now).action is Stop,
{
}

} // verus!
