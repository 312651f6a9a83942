use contact_broker::json::Json;
use contact_broker::protocol::{MessageType, NotifyProtocol, Protocols};
use contact_broker::shell::{
    broker_command, broker_shell_step, broker_shell_step_at, client_command, parse_broker_command,
    parse_client_command, reply_payload, BrokerCommand, ClientCommand, ShellStep,
};
use contact_broker::time::Timestamp;

fn now() -> Timestamp {
    Timestamp::parse("2024-05-01T12:00:00Z".to_string()).unwrap()
}

fn words(list: &[&str]) -> Vec<String> {
    list.iter().map(|w| w.to_string()).collect()
}

#[test]
fn broker_lines_are_read_word_by_word() {
    assert_eq!(parse_broker_command("q"), BrokerCommand::Quit);
    assert_eq!(parse_broker_command("  q  "), BrokerCommand::Quit);
    assert_eq!(parse_broker_command("q now"), BrokerCommand::Quit);
    assert_eq!(parse_broker_command("client list"), BrokerCommand::ListClients);
    assert_eq!(parse_broker_command("\tclient \u{3000} list\n"), BrokerCommand::ListClients);
    assert_eq!(parse_broker_command("client list all"), BrokerCommand::ListClients);
    assert_eq!(parse_broker_command("client"), BrokerCommand::MissingArgument);
    assert_eq!(
        parse_broker_command("client kick alice"),
        BrokerCommand::InvalidArgument("kick".to_string())
    );
    assert_eq!(parse_broker_command(""), BrokerCommand::Empty);
    assert_eq!(parse_broker_command("   \t "), BrokerCommand::Empty);
    assert_eq!(parse_broker_command("quit"), BrokerCommand::Unknown);
    assert_eq!(parse_broker_command("Q"), BrokerCommand::Unknown);
    assert_eq!(parse_broker_command("clientlist"), BrokerCommand::Unknown);
    assert_eq!(parse_broker_command("list client"), BrokerCommand::Unknown);
}

#[test]
fn broker_commands_from_words() {
    assert_eq!(broker_command(&words(&[])), BrokerCommand::Empty);
    assert_eq!(broker_command(&words(&["q"])), BrokerCommand::Quit);
    assert_eq!(broker_command(&words(&["client", "list"])), BrokerCommand::ListClients);
    assert_eq!(broker_command(&words(&["client"])), BrokerCommand::MissingArgument);
    assert_eq!(
        broker_command(&words(&["client", "List"])),
        BrokerCommand::InvalidArgument("List".to_string())
    );
    assert_eq!(broker_command(&words(&["clients"])), BrokerCommand::Unknown);
}

#[test]
fn client_lines_are_read_word_by_word() {
    assert_eq!(parse_client_command("q"), ClientCommand::Quit);
    assert_eq!(parse_client_command(" q \n"), ClientCommand::Quit);
    assert_eq!(parse_client_command("send bob hi"), ClientCommand::Send);
    assert_eq!(parse_client_command(""), ClientCommand::Empty);
    assert_eq!(parse_client_command("client list"), ClientCommand::Unknown);
    assert_eq!(client_command(&words(&["send"])), ClientCommand::Send);
    assert_eq!(client_command(&words(&[])), ClientCommand::Empty);
    assert_eq!(client_command(&words(&["sendx"])), ClientCommand::Unknown);
}

#[test]
fn what_the_broker_shell_does() {
    assert_eq!(
        broker_shell_step_at(&BrokerCommand::Quit, now()),
        ShellStep {
            request: Some(Protocols::server_request("shutdown", now())),
            await_reply: false,
            exit: true,
        }
    );
    assert_eq!(
        broker_shell_step_at(&BrokerCommand::ListClients, now()),
        ShellStep {
            request: Some(Protocols::client_request("get_clients", now())),
            await_reply: true,
            exit: false,
        }
    );
    for command in [
        BrokerCommand::Empty,
        BrokerCommand::MissingArgument,
        BrokerCommand::InvalidArgument("kick".to_string()),
        BrokerCommand::Unknown,
    ] {
        assert_eq!(
            broker_shell_step_at(&command, now()),
            ShellStep { request: None, await_reply: false, exit: false }
        );
    }
    let step = broker_shell_step(&BrokerCommand::Quit);
    assert!(step.exit);
    assert!(step.request.is_some());
}

#[test]
fn the_payload_of_an_answer() {
    let list = Json::Array(vec![Json::Str("root".to_string())]);
    let mut answer = Protocols::client_request("get_clients", now());
    assert_eq!(reply_payload(&answer), None);
    if let Protocols::CPType(contact_broker::protocol::ContactProtocol::ClientControl {
        cmd_args, ..
    }) = &mut answer
    {
        *cmd_args = Some(list.clone());
    }
    assert_eq!(reply_payload(&answer), Some(&list));
    assert_eq!(reply_payload(&Protocols::server_request("shutdown", now())), None);
    let notify = Protocols::NPType(NotifyProtocol::MsgFromUser {
        sender: "a".to_string(),
        content: MessageType::TextMsg { content: "b".to_string() },
    });
    assert_eq!(reply_payload(&notify), None);
}
