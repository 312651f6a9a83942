//! The operator's and the client's command lines: what a line of input
//! means, and what is sent for it.

use vstd::prelude::*;
use crate::json::{Json, JsonView};
use crate::protocol::{
    client_request,
    server_request,
    ContactProtocol,
    ContactProtocolView,
    Protocols,
    ProtocolsView,
};
use crate::text::same;
use crate::time::{rfc3339_valid, Timestamp};

verus! {

/// The words of a line: its maximal runs of characters that are not
/// whitespace, in their order.
pub uninterp spec fn whitespace_words(line: Seq<char>) -> Seq<Seq<char>>;

/// Calls `str::split_whitespace` and collects the words as owned strings.
/// The contract only gives the words their name.
#[verifier::external_body]
fn split_words(line: &str) -> (words: Vec<String>)
    ensures
        words.deep_view() == whitespace_words(line@),
{
    line.split_whitespace().map(String::from).collect()
}

/// A command of the broker's shell.
#[derive(Debug, PartialEq, Eq)]
pub enum BrokerCommand {
    /// The line held no word.
    Empty,
    /// `q`: shut the broker down.
    Quit,
    /// `client list`: ask for the registered clients.
    ListClients,
    /// `client` alone.
    MissingArgument,
    /// `client` with an argument other than `list`.
    InvalidArgument(String),
    /// Anything else.
    Unknown,
}

/// View of a `BrokerCommand`.
pub enum BrokerCommandView {
    Empty,
    Quit,
    ListClients,
    MissingArgument,
    InvalidArgument(Seq<char>),
    Unknown,
}

impl View for BrokerCommand {
    type V = BrokerCommandView;

    open spec fn view(&self) -> BrokerCommandView {
        match self {
            BrokerCommand::Empty => BrokerCommandView::Empty,
            BrokerCommand::Quit => BrokerCommandView::Quit,
            BrokerCommand::ListClients => BrokerCommandView::ListClients,
            BrokerCommand::MissingArgument => BrokerCommandView::MissingArgument,
            BrokerCommand::InvalidArgument(word) => BrokerCommandView::InvalidArgument(word@),
            BrokerCommand::Unknown => BrokerCommandView::Unknown,
        }
    }
}

/// The command that the words of a line spell. Words after the ones that
/// decide are not looked at.
pub open spec fn broker_command_of(words: Seq<Seq<char>>) -> BrokerCommandView {
    if words.len() == 0 {
        BrokerCommandView::Empty
    } else if words[0] == "q"@ {
        BrokerCommandView::Quit
    } else if words[0] == "client"@ {
        if words.len() == 1 {
            BrokerCommandView::MissingArgument
        } else if words[1] == "list"@ {
            BrokerCommandView::ListClients
        } else {
            BrokerCommandView::InvalidArgument(words[1])
        }
    } else {
        BrokerCommandView::Unknown
    }
}

/// Reads the broker's command from the words of a line.
pub fn broker_command(words: &Vec<String>) -> (command: BrokerCommand)
    ensures
        command@ == broker_command_of(words.deep_view()),
{
    if words.len() == 0 {
        return BrokerCommand::Empty;
    }
    assert(words.deep_view()[0] == words@[0]@);
    if same(words[0].as_str(), "q") {
        BrokerCommand::Quit
    } else if same(words[0].as_str(), "client") {
        if words.len() == 1 {
            BrokerCommand::MissingArgument
        } else {
            assert(words.deep_view()[1] == words@[1]@);
            if same(words[1].as_str(), "list") {
                BrokerCommand::ListClients
            } else {
                BrokerCommand::InvalidArgument(words[1].clone())
            }
        }
    } else {
        BrokerCommand::Unknown
    }
}

/// Reads the broker's command from a line of input.
pub fn parse_broker_command(line: &str) -> (command: BrokerCommand)
    ensures
        command@ == broker_command_of(whitespace_words(line@)),
{
    let words = split_words(line);
    broker_command(&words)
}

/// What the broker's shell does for a command.
#[derive(Debug, PartialEq, Eq)]
pub struct ShellStep {
    /// The request to send to the broker, if any.
    pub request: Option<Protocols>,
    /// Whether to wait for the broker's answer and show it.
    pub await_reply: bool,
    /// Whether the shell ends.
    pub exit: bool,
}

/// View of a `ShellStep`.
pub struct ShellStepView {
    pub request: Option<ProtocolsView>,
    pub await_reply: bool,
    pub exit: bool,
}

impl View for ShellStep {
    type V = ShellStepView;

    open spec fn view(&self) -> ShellStepView {
        ShellStepView {
            request: match self.request {
                Some(envelope) => Some(envelope@),
                None => None,
            },
            await_reply: self.await_reply,
            exit: self.exit,
        }
    }
}

/// What the broker's shell does for `command` at time `now`: `q` sends
/// `shutdown` and ends the shell; `client list` sends `get_clients` and
/// waits for the answer; anything else does nothing and the prompt comes
/// again.
pub open spec fn broker_shell_spec(command: BrokerCommandView, now: Seq<char>) -> ShellStepView {
    match command {
        BrokerCommandView::Quit => ShellStepView {
            request: Some(server_request("shutdown"@, now)),
            await_reply: false,
            exit: true,
        },
        BrokerCommandView::ListClients => ShellStepView {
            request: Some(client_request("get_clients"@, now)),
            await_reply: true,
            exit: false,
        },
        _ => ShellStepView { request: None, await_reply: false, exit: false },
    }
}

/// What the broker's shell does for `command`, with `now` as the time.
pub fn broker_shell_step_at(command: &BrokerCommand, now: Timestamp) -> (step: ShellStep)
    ensures
        step@ == broker_shell_spec(command@, now@),
{
    match command {
        BrokerCommand::Quit => ShellStep {
            request: Some(Protocols::server_request("shutdown", now)),
            await_reply: false,
            exit: true,
        },
        BrokerCommand::ListClients => ShellStep {
            request: Some(Protocols::client_request("get_clients", now)),
            await_reply: true,
            exit: false,
        },
        _ => ShellStep { request: None, await_reply: false, exit: false },
    }
}

/// What the broker's shell does for `command`, stamping the request with
/// the current time.
pub fn broker_shell_step(command: &BrokerCommand) -> (step: ShellStep)
    ensures
        exists|now: Seq<char>|
            rfc3339_valid(now) && step@ == #[trigger] broker_shell_spec(command@, now),
{
    let now = Timestamp::now();
    let ghost stamp = now@;
    let step = broker_shell_step_at(command, now);
    assert(rfc3339_valid(stamp) && step@ == broker_shell_spec(command@, stamp));
    step
}

/// The payload of the broker's answer to a request: that of a client
/// control message, where it carries one.
pub open spec fn payload_of(reply: ProtocolsView) -> Option<JsonView> {
    match reply {
        ProtocolsView::CPType(ContactProtocolView::ClientControl { cmd_args, .. }) => cmd_args,
        _ => None,
    }
}

/// The payload of the broker's answer to a request.
pub fn reply_payload(reply: &Protocols) -> (payload: Option<&Json>)
    ensures
        match payload {
            Some(tree) => payload_of(reply@) == Some(tree@),
            None => payload_of(reply@) is None,
        },
{
    match reply {
        Protocols::CPType(ContactProtocol::ClientControl { state: _, command: _, cmd_args, time: _ }) => {
            match cmd_args {
                Some(tree) => Some(tree),
                None => None,
            }
        },
        _ => None,
    }
}

/// A command of the client's shell.
#[derive(Clone, Copy, Debug, PartialEq, Eq, Structural)]
pub enum ClientCommand {
    /// The line held no word.
    Empty,
    /// `q`: leave.
    Quit,
    /// `send`.
    Send,
    /// Anything else.
    Unknown,
}

/// The client's command that the words of a line spell.
pub open spec fn client_command_of(words: Seq<Seq<char>>) -> ClientCommand {
    if words.len() == 0 {
        ClientCommand::Empty
    } else if words[0] == "q"@ {
        ClientCommand::Quit
    } else if words[0] == "send"@ {
        ClientCommand::Send
    } else {
        ClientCommand::Unknown
    }
}

/// Reads the client's command from the words of a line.
pub fn client_command(words: &Vec<String>) -> (command: ClientCommand)
    ensures
        command == client_command_of(words.deep_view()),
{
    if words.len() == 0 {
        return ClientCommand::Empty;
    }
    assert(words.deep_view()[0] == words@[0]@);
    if same(words[0].as_str(), "q") {
        ClientCommand::Quit
    } else if same(words[0].as_str(), "send") {
        ClientCommand::Send
    } else {
        ClientCommand::Unknown
    }
}

/// Reads the client's command from a line of input.
pub fn parse_client_command(line: &str) -> (command: ClientCommand)
    ensures
        command == client_command_of(whitespace_words(line@)),
{
    let words = split_words(line);
    client_command(&words)
}

} // verus!
