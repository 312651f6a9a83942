use contact_broker::broker::{
    dispatch, dispatch_at, Broker, Disposition, Outbound, Step, StepEvent, Verdict,
};
use contact_broker::codec::{decode, encode, DecodeError};
use contact_broker::json::Json;
use contact_broker::protocol::{ContactProtocol, MessageType, MsgStatus, NotifyProtocol, Protocols};
use contact_broker::registry::Registry;
use contact_broker::time::Timestamp;

fn at(text: &str) -> Timestamp {
    Timestamp::parse(text.to_string()).unwrap()
}

fn client(command: &str) -> Protocols {
    Protocols::client_request(command, at("2024-05-01T10:00:00Z"))
}

fn server(command: &str) -> Protocols {
    Protocols::server_request(command, at("2024-05-01T10:00:00Z"))
}

fn hi(target: &str) -> Protocols {
    Protocols::CPType(ContactProtocol::User2UserMsg {
        state: MsgStatus::SUBMITTED,
        target: target.to_string(),
        content: MessageType::TextMsg { content: "hi".to_string() },
        time: at("2024-05-01T10:00:00Z"),
    })
}

fn answer(to: &str, state: MsgStatus, command: &str, cmd_args: Option<Json>, now: &str) -> Option<Outbound> {
    Some(Outbound {
        recipient: to.to_string(),
        envelope: Protocols::CPType(ContactProtocol::ClientControl {
            state,
            command: command.to_string(),
            cmd_args,
            time: at(now),
        }),
    })
}

fn registry_of(names: &[&str]) -> Registry {
    let mut registry = Registry::new();
    for name in names {
        registry.try_register(name.to_string(), at("2024-05-01T10:00:00Z")).unwrap();
    }
    registry
}

fn names(list: &[&str]) -> Json {
    Json::Array(list.iter().map(|n| Json::Str(n.to_string())).collect())
}

#[test]
fn registering_twice_is_accepted_then_rejected() {
    let mut registry = registry_of(&["root"]);
    let request = Protocols::CPType(ContactProtocol::ClientControl {
        state: MsgStatus::SUBMITTED,
        command: "register".to_string(),
        cmd_args: Some(Json::Str("hello".to_string())),
        time: at("2024-05-01T10:00:00Z"),
    });
    let first = dispatch_at(&mut registry, "alice".to_string(), request.clone(), at("2024-05-01T10:00:01Z"));
    assert_eq!(
        first,
        Verdict {
            disposition: Disposition::Registered,
            outbound: answer(
                "alice",
                MsgStatus::ACCEPTED,
                "register",
                Some(Json::Str("hello".to_string())),
                "2024-05-01T10:00:01Z"
            ),
        }
    );
    assert_eq!(registry.get("alice").unwrap().registered_at, at("2024-05-01T10:00:01Z"));
    let second = dispatch_at(&mut registry, "alice".to_string(), request, at("2024-05-01T10:00:02Z"));
    assert_eq!(
        second,
        Verdict {
            disposition: Disposition::DuplicateRegistration,
            outbound: answer("alice", MsgStatus::REJECTED, "multiple registry", None, "2024-05-01T10:00:02Z"),
        }
    );
    assert_eq!(registry.list(), vec!["alice".to_string(), "root".to_string()]);
    assert_eq!(registry.get("alice").unwrap().registered_at, at("2024-05-01T10:00:01Z"));
}

#[test]
fn registration_is_rejected_however_much_happens_in_between() {
    let mut registry = registry_of(&["root"]);
    dispatch_at(&mut registry, "alice".to_string(), client("register"), at("2024-05-01T10:00:01Z"));
    dispatch_at(&mut registry, "bob".to_string(), client("register"), at("2024-05-01T10:00:02Z"));
    dispatch_at(&mut registry, "bob".to_string(), hi("alice"), at("2024-05-01T10:00:03Z"));
    dispatch_at(&mut registry, "bob".to_string(), client("unregister"), at("2024-05-01T10:00:04Z"));
    dispatch_at(&mut registry, "alice".to_string(), client("get_clients"), at("2024-05-01T10:00:05Z"));
    let again = dispatch_at(&mut registry, "alice".to_string(), client("register"), at("2024-05-01T10:00:06Z"));
    assert_eq!(again.disposition, Disposition::DuplicateRegistration);
    assert_eq!(
        again.outbound,
        answer("alice", MsgStatus::REJECTED, "multiple registry", None, "2024-05-01T10:00:06Z")
    );
}

#[test]
fn server_commands_need_root() {
    for command in ["shutdown", "restart", ""] {
        let mut registry = registry_of(&["root", "alice"]);
        let verdict = dispatch_at(&mut registry, "alice".to_string(), server(command), at("2024-05-01T10:00:01Z"));
        assert_eq!(verdict, Verdict { disposition: Disposition::Unauthorized, outbound: None });
        assert!(!verdict.stops_broker());
        assert_eq!(registry.list(), vec!["alice".to_string(), "root".to_string()]);
    }
    let mut registry = registry_of(&["root"]);
    let verdict = dispatch_at(&mut registry, "mallory".to_string(), server("shutdown"), at("2024-05-01T10:00:01Z"));
    assert_eq!(verdict.disposition, Disposition::NotRegistered);
    assert!(!verdict.stops_broker());
    assert_eq!(registry.list(), vec!["root".to_string()]);
    let verdict = dispatch_at(&mut registry, "Root".to_string(), server("shutdown"), at("2024-05-01T10:00:01Z"));
    assert!(!verdict.stops_broker());
}

#[test]
fn root_shuts_the_broker_down() {
    let mut registry = registry_of(&["root", "alice"]);
    let verdict = dispatch_at(&mut registry, "root".to_string(), server("shutdown"), at("2024-05-01T10:00:01Z"));
    assert_eq!(verdict, Verdict { disposition: Disposition::ShutdownRequested, outbound: None });
    assert!(verdict.stops_broker());
    assert_eq!(registry.list(), vec!["alice".to_string(), "root".to_string()]);
}

#[test]
fn root_sends_a_command_that_the_broker_does_not_know() {
    let mut registry = registry_of(&["root"]);
    let verdict = dispatch_at(&mut registry, "root".to_string(), server("restart"), at("2024-05-01T10:00:01Z"));
    assert_eq!(verdict, Verdict { disposition: Disposition::UnknownServerCommand, outbound: None });
    assert!(!verdict.stops_broker());
}

#[test]
fn a_message_goes_to_its_target_and_nowhere_else() {
    let mut registry = registry_of(&["root", "alice", "bob"]);
    let verdict = dispatch_at(&mut registry, "alice".to_string(), hi("bob"), at("2024-05-01T10:00:01Z"));
    assert_eq!(
        verdict,
        Verdict {
            disposition: Disposition::Delivered,
            outbound: Some(Outbound {
                recipient: "bob".to_string(),
                envelope: Protocols::NPType(NotifyProtocol::MsgFromUser {
                    sender: "alice".to_string(),
                    content: MessageType::TextMsg { content: "hi".to_string() },
                }),
            }),
        }
    );
    assert_eq!(registry.len(), 3);
}

#[test]
fn a_message_to_nobody_fails() {
    let mut registry = registry_of(&["root", "alice"]);
    let verdict = dispatch_at(&mut registry, "alice".to_string(), hi("ghost"), at("2024-05-01T10:00:01Z"));
    assert_eq!(
        verdict,
        Verdict {
            disposition: Disposition::NoSuchTarget,
            outbound: answer("alice", MsgStatus::FAILED, "no such target", None, "2024-05-01T10:00:01Z"),
        }
    );
    assert_eq!(registry.list(), vec!["alice".to_string(), "root".to_string()]);
}

#[test]
fn a_message_to_oneself_is_delivered() {
    let mut registry = registry_of(&["alice"]);
    let verdict = dispatch_at(&mut registry, "alice".to_string(), hi("alice"), at("2024-05-01T10:00:01Z"));
    assert_eq!(verdict.disposition, Disposition::Delivered);
    assert_eq!(verdict.outbound.unwrap().recipient, "alice");
}

#[test]
fn the_unregistered_are_told_to_register() {
    let notify = Protocols::NPType(NotifyProtocol::MsgFromUser {
        sender: "root".to_string(),
        content: MessageType::TextMsg { content: "hi".to_string() },
    });
    for envelope in [
        client("get_clients"),
        client("unregister"),
        client("Register"),
        client(""),
        server("shutdown"),
        hi("root"),
        hi("ghost"),
        notify,
    ] {
        let mut registry = registry_of(&["root"]);
        let verdict = dispatch_at(&mut registry, "stranger".to_string(), envelope, at("2024-05-01T10:00:01Z"));
        assert_eq!(
            verdict,
            Verdict {
                disposition: Disposition::NotRegistered,
                outbound: answer("stranger", MsgStatus::REJECTED, "register", None, "2024-05-01T10:00:01Z"),
            }
        );
        assert!(!verdict.stops_broker());
        assert_eq!(registry.list(), vec!["root".to_string()]);
    }
}

#[test]
fn get_clients_lists_who_is_registered_right_then() {
    let mut registry = registry_of(&["root", "carol", "alice"]);
    let verdict = dispatch_at(&mut registry, "carol".to_string(), client("get_clients"), at("2024-05-01T10:00:01Z"));
    assert_eq!(
        verdict,
        Verdict {
            disposition: Disposition::Listed,
            outbound: answer(
                "carol",
                MsgStatus::ACCEPTED,
                "get_clients",
                Some(names(&["alice", "carol", "root"])),
                "2024-05-01T10:00:01Z"
            ),
        }
    );
    dispatch_at(&mut registry, "alice".to_string(), client("unregister"), at("2024-05-01T10:00:02Z"));
    dispatch_at(&mut registry, "bob".to_string(), client("register"), at("2024-05-01T10:00:03Z"));
    let verdict = dispatch_at(&mut registry, "root".to_string(), client("get_clients"), at("2024-05-01T10:00:04Z"));
    assert_eq!(
        verdict.outbound,
        answer("root", MsgStatus::ACCEPTED, "get_clients", Some(names(&["bob", "carol", "root"])), "2024-05-01T10:00:04Z")
    );
}

#[test]
fn unregistering_is_not_answered() {
    let mut registry = registry_of(&["root", "alice"]);
    let verdict = dispatch_at(&mut registry, "alice".to_string(), client("unregister"), at("2024-05-01T10:00:01Z"));
    assert_eq!(verdict, Verdict { disposition: Disposition::Unregistered, outbound: None });
    assert_eq!(registry.list(), vec!["root".to_string()]);
}

#[test]
fn root_can_leave_and_then_commands_nothing() {
    let mut registry = registry_of(&["root"]);
    dispatch_at(&mut registry, "root".to_string(), client("unregister"), at("2024-05-01T10:00:01Z"));
    assert_eq!(registry.len(), 0);
    let verdict = dispatch_at(&mut registry, "root".to_string(), server("shutdown"), at("2024-05-01T10:00:02Z"));
    assert_eq!(verdict.disposition, Disposition::NotRegistered);
    assert!(!verdict.stops_broker());
}

#[test]
fn what_the_broker_does_not_know_is_dropped() {
    let mut registry = registry_of(&["root", "alice"]);
    let verdict = dispatch_at(&mut registry, "alice".to_string(), client("dance"), at("2024-05-01T10:00:01Z"));
    assert_eq!(verdict, Verdict { disposition: Disposition::UnknownClientCommand, outbound: None });
    let notify = Protocols::NPType(NotifyProtocol::MsgFromUser {
        sender: "root".to_string(),
        content: MessageType::TextMsg { content: "hi".to_string() },
    });
    let verdict = dispatch_at(&mut registry, "alice".to_string(), notify, at("2024-05-01T10:00:01Z"));
    assert_eq!(verdict, Verdict { disposition: Disposition::UnexpectedNotify, outbound: None });
    assert_eq!(registry.len(), 2);
}

#[test]
fn dispatch_stamps_its_answers_with_the_current_time() {
    let mut registry = registry_of(&["root"]);
    let verdict = dispatch(&mut registry, "alice".to_string(), client("register"));
    assert_eq!(verdict.disposition, Disposition::Registered);
    let outbound = verdict.outbound.unwrap();
    assert_eq!(outbound.recipient, "alice");
    match outbound.envelope {
        Protocols::CPType(ContactProtocol::ClientControl { state, command, cmd_args, time }) => {
            assert_eq!(state, MsgStatus::ACCEPTED);
            assert_eq!(command, "register");
            assert_eq!(cmd_args, None);
            assert!(Timestamp::parse(time.as_str().to_string()).is_some());
            assert_eq!(registry.get("alice").unwrap().registered_at, time);
        }
        other => panic!("unexpected answer {other:?}"),
    }
}

fn frames(identity: &str, envelope: &Protocols) -> Vec<Vec<u8>> {
    vec![identity.as_bytes().to_vec(), encode(envelope).unwrap()]
}

fn sent(step: &Step) -> (String, Protocols) {
    let frames = step.frames.as_ref().unwrap();
    assert_eq!(frames.len(), 2);
    (String::from_utf8(frames[0].clone()).unwrap(), decode(&frames[1]).unwrap())
}

fn now() -> Timestamp {
    at("2024-05-01T12:00:00Z")
}

#[test]
fn a_new_broker_knows_root() {
    let broker = Broker::new();
    assert_eq!(broker.registry().list(), vec!["root".to_string()]);
    let seeded_at = broker.registry().get("root").unwrap().registered_at.clone();
    assert_eq!(Timestamp::parse(seeded_at.as_str().to_string()), Some(seeded_at));
    let broker = Broker::seeded_at(at("2024-05-01T10:00:00Z"));
    assert_eq!(broker.registry().list(), vec!["root".to_string()]);
    assert_eq!(broker.registry().get("root").unwrap().registered_at, at("2024-05-01T10:00:00Z"));
}

#[test]
fn what_cannot_be_read_is_dropped() {
    let mut broker = Broker::seeded_at(at("2024-05-01T10:00:00Z"));
    for (received, error) in [
        (vec![], DecodeError::MissingIdentityFrame),
        (vec![b"alice".to_vec()], DecodeError::MissingIdentityFrame),
        (vec![vec![0xff], b"{}".to_vec()], DecodeError::CorruptIdentityFrame),
        (vec![b"alice".to_vec(), b"not json".to_vec()], DecodeError::MalformedPayload),
        (vec![b"alice".to_vec(), br#"{"XPType":{}}"#.to_vec()], DecodeError::UnknownVariant),
    ] {
        let step = broker.handle_at(&received, now());
        assert_eq!(step, Step { event: StepEvent::Undecodable(error), frames: None, stop: false });
        assert_eq!(broker.registry().list(), vec!["root".to_string()]);
    }
}

#[test]
fn end_to_end_scenario() {
    let mut broker = Broker::seeded_at(at("2024-05-01T09:00:00Z"));

    let step = broker.handle_at(&frames("alice", &client("register")), now());
    assert_eq!(step.event, StepEvent::Dispatched(Disposition::Registered));
    assert!(!step.stop);
    let (to, envelope) = sent(&step);
    assert_eq!(to, "alice");
    assert_eq!(
        envelope,
        Protocols::CPType(ContactProtocol::ClientControl {
            state: MsgStatus::ACCEPTED,
            command: "register".to_string(),
            cmd_args: None,
            time: now(),
        })
    );

    let step = broker.handle_at(&frames("bob", &client("register")), now());
    let (to, envelope) = sent(&step);
    assert_eq!(to, "bob");
    match envelope {
        Protocols::CPType(ContactProtocol::ClientControl { state, .. }) => {
            assert_eq!(state, MsgStatus::ACCEPTED)
        }
        other => panic!("unexpected answer {other:?}"),
    }

    let step = broker.handle_at(&frames("alice", &hi("bob")), now());
    assert_eq!(step.event, StepEvent::Dispatched(Disposition::Delivered));
    assert_eq!(
        sent(&step),
        (
            "bob".to_string(),
            Protocols::NPType(NotifyProtocol::MsgFromUser {
                sender: "alice".to_string(),
                content: MessageType::TextMsg { content: "hi".to_string() },
            })
        )
    );
    assert_eq!(
        String::from_utf8(step.frames.unwrap()[1].clone()).unwrap(),
        r#"{"NPType":{"MsgFromUser":{"sender":"alice","content":{"TextMsg":{"content":"hi"}}}}}"#
    );

    let step = broker.handle_at(&frames("bob", &client("unregister")), now());
    assert_eq!(
        step,
        Step { event: StepEvent::Dispatched(Disposition::Unregistered), frames: None, stop: false }
    );

    let step = broker.handle_at(&frames("alice", &hi("bob")), now());
    assert_eq!(step.event, StepEvent::Dispatched(Disposition::NoSuchTarget));
    assert_eq!(
        sent(&step),
        (
            "alice".to_string(),
            Protocols::CPType(ContactProtocol::ClientControl {
                state: MsgStatus::FAILED,
                command: "no such target".to_string(),
                cmd_args: None,
                time: now(),
            })
        )
    );

    let step = broker.handle_at(&frames("alice", &client("get_clients")), now());
    assert_eq!(
        String::from_utf8(step.frames.unwrap()[1].clone()).unwrap(),
        r#"{"CPType":{"ClientControl":{"state":"ACCEPTED","command":"get_clients","cmd_args":["alice","root"],"time":"2024-05-01T12:00:00Z"}}}"#
    );

    let step = broker.handle_at(&frames("alice", &server("shutdown")), now());
    assert_eq!(
        step,
        Step { event: StepEvent::Dispatched(Disposition::Unauthorized), frames: None, stop: false }
    );
    let step = broker.handle_at(&frames("root", &server("shutdown")), now());
    assert_eq!(
        step,
        Step { event: StepEvent::Dispatched(Disposition::ShutdownRequested), frames: None, stop: true }
    );
}

#[test]
fn handle_answers_on_the_wire() {
    let mut broker = Broker::new();
    let step = broker.handle(&frames("stranger", &hi("root")));
    assert_eq!(step.event, StepEvent::Dispatched(Disposition::NotRegistered));
    let (to, envelope) = sent(&step);
    assert_eq!(to, "stranger");
    match envelope {
        Protocols::CPType(ContactProtocol::ClientControl { state, command, cmd_args, .. }) => {
            assert_eq!(state, MsgStatus::REJECTED);
            assert_eq!(command, "register");
            assert_eq!(cmd_args, None);
        }
        other => panic!("unexpected answer {other:?}"),
    }
}
