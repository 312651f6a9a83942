//! The messages that clients and the broker exchange, and their
//! mathematical views.
//!
//! Every message is a `Protocols` value: either a contact message, which a
//! client sends and the broker answers, or a notification, which only the
//! broker sends. In the views, strings are sequences of characters and JSON
//! payloads are `JsonView` trees.

use vstd::prelude::*;
use crate::json::{Json, JsonView};
use crate::text::same;
use crate::time::Timestamp;

verus! {

/// The verdict or intent that a contact message carries.
#[derive(Clone, Copy, Debug, PartialEq, Eq, Structural)]
pub enum MsgStatus {
    SUBMITTED,
    ACCEPTED,
    FAILED,
    REJECTED,
}

impl MsgStatus {
    /// The status's name on the wire.
    pub open spec fn label(self) -> Seq<char> {
        match self {
            MsgStatus::SUBMITTED => "SUBMITTED"@,
            MsgStatus::ACCEPTED => "ACCEPTED"@,
            MsgStatus::FAILED => "FAILED"@,
            MsgStatus::REJECTED => "REJECTED"@,
        }
    }

    /// The status that `label` names, if it names one.
    pub open spec fn of_label(label: Seq<char>) -> Option<MsgStatus> {
        if label == "SUBMITTED"@ {
            Some(MsgStatus::SUBMITTED)
        } else if label == "ACCEPTED"@ {
            Some(MsgStatus::ACCEPTED)
        } else if label == "FAILED"@ {
            Some(MsgStatus::FAILED)
        } else if label == "REJECTED"@ {
            Some(MsgStatus::REJECTED)
        } else {
            None
        }
    }

    /// Each status is the one that its own name names.
    pub proof fn lemma_label_names_status(self)
        ensures
            MsgStatus::of_label(self.label()) == Some(self),
    {
        reveal_strlit("SUBMITTED");
        reveal_strlit("ACCEPTED");
        reveal_strlit("FAILED");
        reveal_strlit("REJECTED");
        assert("SUBMITTED"@.len() == 9);
        assert("ACCEPTED"@.len() == 8);
        assert("FAILED"@.len() == 6);
        assert("REJECTED"@.len() == 8);
        assert("ACCEPTED"@[0] == 'A');
        assert("REJECTED"@[0] == 'R');
    }

    /// Returns the status's name on the wire.
    pub fn as_str(&self) -> (name: &'static str)
        ensures
            name@ == self.label(),
    {
        match self {
            MsgStatus::SUBMITTED => "SUBMITTED",
            MsgStatus::ACCEPTED => "ACCEPTED",
            MsgStatus::FAILED => "FAILED",
            MsgStatus::REJECTED => "REJECTED",
        }
    }

    /// Reads a status from its name on the wire.
    pub fn from_label(label: &str) -> (r: Option<MsgStatus>)
        ensures
            r == MsgStatus::of_label(label@),
    {
        if same(label, "SUBMITTED") {
            Some(MsgStatus::SUBMITTED)
        } else if same(label, "ACCEPTED") {
            Some(MsgStatus::ACCEPTED)
        } else if same(label, "FAILED") {
            Some(MsgStatus::FAILED)
        } else if same(label, "REJECTED") {
            Some(MsgStatus::REJECTED)
        } else {
            None
        }
    }
}

/// What one user sends to another.
#[derive(Debug, PartialEq, Eq)]
pub enum MessageType {
    TextMsg { content: String },
}

/// View of a `MessageType`.
pub enum MessageTypeView {
    TextMsg { content: Seq<char> },
}

impl View for MessageType {
    type V = MessageTypeView;

    open spec fn view(&self) -> MessageTypeView {
        match self {
            MessageType::TextMsg { content } => MessageTypeView::TextMsg { content: content@ },
        }
    }
}

impl Clone for MessageType {
    fn clone(&self) -> (copy: Self)
        ensures
            copy@ == self@,
    {
        match self {
            MessageType::TextMsg { content } => MessageType::TextMsg { content: content.clone() },
        }
    }
}

/// A message that the broker pushes to a client.
#[derive(Debug, PartialEq, Eq)]
pub enum NotifyProtocol {
    MsgFromUser { sender: String, content: MessageType },
}

/// View of a `NotifyProtocol`.
pub enum NotifyProtocolView {
    MsgFromUser { sender: Seq<char>, content: MessageTypeView },
}

impl View for NotifyProtocol {
    type V = NotifyProtocolView;

    open spec fn view(&self) -> NotifyProtocolView {
        match self {
            NotifyProtocol::MsgFromUser { sender, content } => NotifyProtocolView::MsgFromUser {
                sender: sender@,
                content: content@,
            },
        }
    }
}

impl Clone for NotifyProtocol {
    fn clone(&self) -> (copy: Self)
        ensures
            copy@ == self@,
    {
        match self {
            NotifyProtocol::MsgFromUser { sender, content } => NotifyProtocol::MsgFromUser {
                sender: sender.clone(),
                content: content.clone(),
            },
        }
    }
}

/// A message that a client sends to the broker, or the broker's answer to
/// one.
#[derive(Debug, PartialEq, Eq)]
pub enum ContactProtocol {
    ServerControl { state: MsgStatus, command: String, cmd_args: Option<Json>, time: Timestamp },
    ClientControl { state: MsgStatus, command: String, cmd_args: Option<Json>, time: Timestamp },
    User2UserMsg { state: MsgStatus, target: String, content: MessageType, time: Timestamp },
}

/// View of a `ContactProtocol`.
pub enum ContactProtocolView {
    ServerControl {
        state: MsgStatus,
        command: Seq<char>,
        cmd_args: Option<JsonView>,
        time: Seq<char>,
    },
    ClientControl {
        state: MsgStatus,
        command: Seq<char>,
        cmd_args: Option<JsonView>,
        time: Seq<char>,
    },
    User2UserMsg { state: MsgStatus, target: Seq<char>, content: MessageTypeView, time: Seq<char> },
}

/// View of an optional JSON payload.
pub open spec fn args_view(cmd_args: Option<Json>) -> Option<JsonView> {
    match cmd_args {
        Some(tree) => Some(tree@),
        None => None,
    }
}

/// Copies an optional JSON payload.
pub fn clone_args(cmd_args: &Option<Json>) -> (copy: Option<Json>)
    ensures
        args_view(copy) == args_view(*cmd_args),
{
    match cmd_args {
        Some(tree) => Some(tree.clone()),
        None => None,
    }
}

impl View for ContactProtocol {
    type V = ContactProtocolView;

    open spec fn view(&self) -> ContactProtocolView {
        match self {
            ContactProtocol::ServerControl {
                state,
                command,
                cmd_args,
                time,
            } => ContactProtocolView::ServerControl {
                state: *state,
                command: command@,
                cmd_args: args_view(*cmd_args),
                time: time@,
            },
            ContactProtocol::ClientControl {
                state,
                command,
                cmd_args,
                time,
            } => ContactProtocolView::ClientControl {
                state: *state,
                command: command@,
                cmd_args: args_view(*cmd_args),
                time: time@,
            },
            ContactProtocol::User2UserMsg {
                state,
                target,
                content,
                time,
            } => ContactProtocolView::User2UserMsg {
                state: *state,
                target: target@,
                content: content@,
                time: time@,
            },
        }
    }
}

impl Clone for ContactProtocol {
    fn clone(&self) -> (copy: Self)
        ensures
            copy@ == self@,
    {
        match self {
            ContactProtocol::ServerControl {
                state,
                command,
                cmd_args,
                time,
            } => ContactProtocol::ServerControl {
                state: *state,
                command: command.clone(),
                cmd_args: clone_args(cmd_args),
                time: time.clone(),
            },
            ContactProtocol::ClientControl {
                state,
                command,
                cmd_args,
                time,
            } => ContactProtocol::ClientControl {
                state: *state,
                command: command.clone(),
                cmd_args: clone_args(cmd_args),
                time: time.clone(),
            },
            ContactProtocol::User2UserMsg {
                state,
                target,
                content,
                time,
            } => ContactProtocol::User2UserMsg {
                state: *state,
                target: target.clone(),
                content: content.clone(),
                time: time.clone(),
            },
        }
    }
}

/// The top-level message: what travels in one payload frame.
#[derive(Debug, PartialEq, Eq)]
pub enum Protocols {
    CPType(ContactProtocol),
    NPType(NotifyProtocol),
}

/// View of a `Protocols`.
pub enum ProtocolsView {
    CPType(ContactProtocolView),
    NPType(NotifyProtocolView),
}

impl View for Protocols {
    type V = ProtocolsView;

    open spec fn view(&self) -> ProtocolsView {
        match self {
            Protocols::CPType(contact) => ProtocolsView::CPType(contact@),
            Protocols::NPType(notify) => ProtocolsView::NPType(notify@),
        }
    }
}

impl Clone for Protocols {
    fn clone(&self) -> (copy: Self)
        ensures
            copy@ == self@,
    {
        match self {
            Protocols::CPType(contact) => Protocols::CPType(contact.clone()),
            Protocols::NPType(notify) => Protocols::NPType(notify.clone()),
        }
    }
}

/// A client's request to the broker: a client control message that is
/// `SUBMITTED`, without payload, stamped `now`.
pub open spec fn client_request(command: Seq<char>, now: Seq<char>) -> ProtocolsView {
    ProtocolsView::CPType(
        ContactProtocolView::ClientControl {
            state: MsgStatus::SUBMITTED,
            command,
            cmd_args: None,
            time: now,
        },
    )
}

/// The operator's request to the broker: a server control message that is
/// `SUBMITTED`, without payload, stamped `now`.
pub open spec fn server_request(command: Seq<char>, now: Seq<char>) -> ProtocolsView {
    ProtocolsView::CPType(
        ContactProtocolView::ServerControl {
            state: MsgStatus::SUBMITTED,
            command,
            cmd_args: None,
            time: now,
        },
    )
}

impl Protocols {
    /// A client's request with the given command.
    pub fn client_request(command: &str, now: Timestamp) -> (envelope: Protocols)
        ensures
            envelope@ == client_request(command@, now@),
    {
        Protocols::CPType(
            ContactProtocol::ClientControl {
                state: MsgStatus::SUBMITTED,
                command: command.to_owned(),
                cmd_args: None,
                time: now,
            },
        )
    }

    /// The operator's request with the given command.
    pub fn server_request(command: &str, now: Timestamp) -> (envelope: Protocols)
        ensures
            envelope@ == server_request(command@, now@),
    {
        Protocols::CPType(
            ContactProtocol::ServerControl {
                state: MsgStatus::SUBMITTED,
                command: command.to_owned(),
                cmd_args: None,
                time: now,
            },
        )
    }
}

} // verus!
