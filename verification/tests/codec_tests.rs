use contact_broker::codec::{
    contact_to_tree, decode, decode_frames, decode_identity, encode, encode_frames, from_parsed,
    from_tree, message_to_tree, notify_to_tree, read_contact, read_message, read_notify, to_tree,
    DecodeError,
};
use contact_broker::json::Json;
use contact_broker::protocol::{ContactProtocol, MessageType, MsgStatus, NotifyProtocol, Protocols};
use contact_broker::time::Timestamp;

fn stamp() -> Timestamp {
    Timestamp::parse("2024-05-01T10:00:00Z".to_string()).unwrap()
}

fn register() -> Protocols {
    Protocols::CPType(ContactProtocol::ClientControl {
        state: MsgStatus::SUBMITTED,
        command: "register".to_string(),
        cmd_args: None,
        time: stamp(),
    })
}

fn text(bytes: Vec<u8>) -> String {
    String::from_utf8(bytes).unwrap()
}

const CLIENT_CONTROL: &str = r#"{"CPType":{"ClientControl":{"state":"SUBMITTED","command":"register","cmd_args":null,"time":"2024-05-01T10:00:00Z"}}}"#;
const SERVER_CONTROL: &str = r#"{"CPType":{"ServerControl":{"state":"ACCEPTED","command":"shutdown","cmd_args":{"grace":5,"why":["a","b"]},"time":"2024-05-01T10:00:00Z"}}}"#;
const USER_MESSAGE: &str = r#"{"CPType":{"User2UserMsg":{"state":"FAILED","target":"bob","content":{"TextMsg":{"content":"hi"}},"time":"2024-05-01T10:00:00Z"}}}"#;
const NOTIFY: &str = r#"{"NPType":{"MsgFromUser":{"sender":"alice","content":{"TextMsg":{"content":"hi"}}}}}"#;

#[test]
fn encode_client_control_exact_bytes() {
    assert_eq!(text(encode(&register()).unwrap()), CLIENT_CONTROL);
}

#[test]
fn encode_server_control_exact_bytes() {
    let envelope = Protocols::CPType(ContactProtocol::ServerControl {
        state: MsgStatus::ACCEPTED,
        command: "shutdown".to_string(),
        cmd_args: Some(Json::Object(vec![
            ("grace".to_string(), Json::Number(serde_json::Number::from(5))),
            (
                "why".to_string(),
                Json::Array(vec![Json::Str("a".to_string()), Json::Str("b".to_string())]),
            ),
        ])),
        time: stamp(),
    });
    assert_eq!(text(encode(&envelope).unwrap()), SERVER_CONTROL);
    assert_eq!(decode(SERVER_CONTROL.as_bytes()), Ok(envelope));
}

#[test]
fn encode_user_message_exact_bytes() {
    let envelope = Protocols::CPType(ContactProtocol::User2UserMsg {
        state: MsgStatus::FAILED,
        target: "bob".to_string(),
        content: MessageType::TextMsg { content: "hi".to_string() },
        time: stamp(),
    });
    assert_eq!(text(encode(&envelope).unwrap()), USER_MESSAGE);
    assert_eq!(decode(USER_MESSAGE.as_bytes()), Ok(envelope));
}

#[test]
fn encode_notify_exact_bytes() {
    let envelope = Protocols::NPType(NotifyProtocol::MsgFromUser {
        sender: "alice".to_string(),
        content: MessageType::TextMsg { content: "hi".to_string() },
    });
    assert_eq!(text(encode(&envelope).unwrap()), NOTIFY);
    assert_eq!(decode(NOTIFY.as_bytes()), Ok(envelope));
}

#[test]
fn every_status_is_written_by_name() {
    for (status, name) in [
        (MsgStatus::SUBMITTED, "SUBMITTED"),
        (MsgStatus::ACCEPTED, "ACCEPTED"),
        (MsgStatus::FAILED, "FAILED"),
        (MsgStatus::REJECTED, "REJECTED"),
    ] {
        let envelope = Protocols::CPType(ContactProtocol::ClientControl {
            state: status,
            command: "c".to_string(),
            cmd_args: None,
            time: stamp(),
        });
        let written = text(encode(&envelope).unwrap());
        assert!(written.contains(&format!(r#""state":"{name}""#)), "{written}");
        assert_eq!(decode(written.as_bytes()), Ok(envelope));
    }
}

#[test]
fn round_trip_reproduces_every_variant() {
    for written in [CLIENT_CONTROL, SERVER_CONTROL, USER_MESSAGE, NOTIFY] {
        let envelope = decode(written.as_bytes()).unwrap();
        assert_eq!(text(encode(&envelope).unwrap()), written);
    }
}

#[test]
fn decode_reads_fields_in_any_order() {
    let bytes = br#"{"CPType":{"ClientControl":{"time":"2024-05-01T10:00:00Z","extra":1,"command":"register","state":"SUBMITTED"}}}"#;
    assert_eq!(decode(bytes), Ok(register()));
}

#[test]
fn decode_takes_null_for_no_payload() {
    let with_null = decode(CLIENT_CONTROL.as_bytes()).unwrap();
    assert_eq!(with_null, register());
    let carrying_null = Protocols::CPType(ContactProtocol::ClientControl {
        state: MsgStatus::SUBMITTED,
        command: "register".to_string(),
        cmd_args: Some(Json::Null),
        time: stamp(),
    });
    assert_eq!(text(encode(&carrying_null).unwrap()), CLIENT_CONTROL);
}

#[test]
fn decode_rejects_malformed_payloads() {
    for bytes in [
        &b"not json"[..],
        b"",
        b"null",
        b"[]",
        br#""CPType""#,
        br#"{}"#,
        br#"{"CPType":{"ClientControl":{}},"NPType":{}}"#,
        br#"{"CPType":"ClientControl"}"#,
        br#"{"CPType":{"ClientControl":{"command":"register","cmd_args":null,"time":"2024-05-01T10:00:00Z"}}}"#,
        br#"{"CPType":{"ClientControl":{"state":7,"command":"register","cmd_args":null,"time":"2024-05-01T10:00:00Z"}}}"#,
        br#"{"CPType":{"ClientControl":{"state":"SUBMITTED","command":null,"cmd_args":null,"time":"2024-05-01T10:00:00Z"}}}"#,
        br#"{"CPType":{"ClientControl":{"state":"SUBMITTED","command":"register","cmd_args":null}}}"#,
        br#"{"CPType":{"ClientControl":{"state":"SUBMITTED","command":"register","cmd_args":null,"time":"yesterday"}}}"#,
        br#"{"CPType":{"User2UserMsg":{"state":"SUBMITTED","target":"bob","time":"2024-05-01T10:00:00Z"}}}"#,
        br#"{"CPType":{"User2UserMsg":{"state":"SUBMITTED","target":"bob","content":"hi","time":"2024-05-01T10:00:00Z"}}}"#,
        br#"{"NPType":{"MsgFromUser":{"content":{"TextMsg":{"content":"hi"}}}}}"#,
        br#"{"NPType":{"MsgFromUser":{"sender":"alice","content":{"TextMsg":{}}}}}"#,
    ] {
        assert_eq!(
            decode(bytes),
            Err(DecodeError::MalformedPayload),
            "{}",
            String::from_utf8_lossy(bytes)
        );
    }
}

#[test]
fn decode_rejects_unknown_variants() {
    for bytes in [
        &br#"{"XPType":{}}"#[..],
        br#"{"CPType":{"PeerControl":{}}}"#,
        br#"{"NPType":{"MsgFromGroup":{}}}"#,
        br#"{"CPType":{"ClientControl":{"state":"PENDING","command":"register","cmd_args":null,"time":"2024-05-01T10:00:00Z"}}}"#,
        br#"{"CPType":{"User2UserMsg":{"state":"SUBMITTED","target":"bob","content":{"ImageMsg":{"content":"hi"}},"time":"2024-05-01T10:00:00Z"}}}"#,
        br#"{"NPType":{"MsgFromUser":{"sender":"alice","content":{"ImageMsg":{}}}}}"#,
    ] {
        assert_eq!(
            decode(bytes),
            Err(DecodeError::UnknownVariant),
            "{}",
            String::from_utf8_lossy(bytes)
        );
    }
}

#[test]
fn the_first_bad_field_decides_the_error() {
    let bytes = br#"{"CPType":{"ClientControl":{"state":"PENDING","command":7,"cmd_args":null,"time":"yesterday"}}}"#;
    assert_eq!(decode(bytes), Err(DecodeError::UnknownVariant));
    let bytes = br#"{"CPType":{"ClientControl":{"state":"SUBMITTED","command":7,"cmd_args":null,"time":"yesterday"}}}"#;
    assert_eq!(decode(bytes), Err(DecodeError::MalformedPayload));
}

#[test]
fn tree_round_trip() {
    let tree = to_tree(&register());
    assert_eq!(from_tree(&tree), Ok(register()));
    assert_eq!(Json::parse(&encode(&register()).unwrap()), Some(tree));
}

#[test]
fn from_parsed_takes_the_outcome_of_parsing() {
    assert_eq!(from_parsed(None), Err(DecodeError::MalformedPayload));
    assert_eq!(from_parsed(Some(Json::Null)), Err(DecodeError::MalformedPayload));
    assert_eq!(from_parsed(Some(to_tree(&register()))), Ok(register()));
    assert_eq!(
        from_parsed(Some(Json::Object(vec![("other".to_string(), Json::Null)]))),
        Err(DecodeError::UnknownVariant)
    );
}

#[test]
fn identity_is_read_as_utf8() {
    assert_eq!(decode_identity(b"alice"), Ok("alice".to_string()));
    assert_eq!(decode_identity(b""), Ok(String::new()));
    assert_eq!(decode_identity("日本".as_bytes()), Ok("日本".to_string()));
    assert_eq!(decode_identity(&[0xff, 0xfe]), Err(DecodeError::CorruptIdentityFrame));
    assert_eq!(decode_identity(&[0xe6, 0x97]), Err(DecodeError::CorruptIdentityFrame));
}

#[test]
fn frames_round_trip() {
    let frames = encode_frames("bob", &register()).unwrap();
    assert_eq!(frames, vec![b"bob".to_vec(), CLIENT_CONTROL.as_bytes().to_vec()]);
    assert_eq!(decode_frames(&frames), Ok(("bob".to_string(), register())));
}

#[test]
fn frames_are_checked_in_order() {
    let payload = CLIENT_CONTROL.as_bytes().to_vec();
    assert_eq!(decode_frames(&vec![]), Err(DecodeError::MissingIdentityFrame));
    assert_eq!(decode_frames(&vec![payload.clone()]), Err(DecodeError::MissingIdentityFrame));
    assert_eq!(
        decode_frames(&vec![vec![0xff, 0xfe], payload.clone()]),
        Err(DecodeError::CorruptIdentityFrame)
    );
    assert_eq!(
        decode_frames(&vec![vec![0xff], b"not json".to_vec()]),
        Err(DecodeError::CorruptIdentityFrame)
    );
    assert_eq!(
        decode_frames(&vec![b"bob".to_vec(), b"not json".to_vec()]),
        Err(DecodeError::MalformedPayload)
    );
    assert_eq!(
        decode_frames(&vec![b"bob".to_vec(), br#"{"XPType":1}"#.to_vec()]),
        Err(DecodeError::UnknownVariant)
    );
    assert_eq!(
        decode_frames(&vec![b"bob".to_vec(), payload, b"ignored".to_vec()]),
        Ok(("bob".to_string(), register()))
    );
}

fn field(name: &str, value: Json) -> (String, Json) {
    (name.to_string(), value)
}

fn word(text: &str) -> Json {
    Json::Str(text.to_string())
}

#[test]
fn a_bare_user_content_has_its_shape() {
    let message = MessageType::TextMsg { content: "hi".to_string() };
    let tree = message_to_tree(&message);
    assert_eq!(
        tree,
        Json::Object(vec![field("TextMsg", Json::Object(vec![field("content", word("hi"))]))])
    );
    assert_eq!(text(tree.to_bytes().unwrap()), r#"{"TextMsg":{"content":"hi"}}"#);
    assert_eq!(read_message(&tree), Ok(message));
    assert_eq!(read_message(&word("hi")), Err(DecodeError::MalformedPayload));
    let other = Json::Object(vec![field("Picture", Json::Null)]);
    assert_eq!(read_message(&other), Err(DecodeError::UnknownVariant));
}

#[test]
fn a_bare_notification_has_its_shape() {
    let notify = NotifyProtocol::MsgFromUser {
        sender: "alice".to_string(),
        content: MessageType::TextMsg { content: "hi".to_string() },
    };
    let tree = notify_to_tree(&notify);
    assert_eq!(
        text(tree.to_bytes().unwrap()),
        r#"{"MsgFromUser":{"sender":"alice","content":{"TextMsg":{"content":"hi"}}}}"#
    );
    assert_eq!(read_notify(&tree), Ok(notify));
}

#[test]
fn a_bare_contact_message_has_its_shape() {
    let message = ContactProtocol::User2UserMsg {
        state: MsgStatus::SUBMITTED,
        target: "bob".to_string(),
        content: MessageType::TextMsg { content: "hi".to_string() },
        time: stamp(),
    };
    let tree = contact_to_tree(&message);
    assert_eq!(
        tree,
        Json::Object(vec![field(
            "User2UserMsg",
            Json::Object(vec![
                field("state", word("SUBMITTED")),
                field("target", word("bob")),
                field("content", message_to_tree(&MessageType::TextMsg { content: "hi".to_string() })),
                field("time", word("2024-05-01T10:00:00Z")),
            ])
        )])
    );
    assert_eq!(read_contact(&tree), Ok(message));
    let control = ContactProtocol::ClientControl {
        state: MsgStatus::SUBMITTED,
        command: "register".to_string(),
        cmd_args: None,
        time: stamp(),
    };
    assert_eq!(
        text(contact_to_tree(&control).to_bytes().unwrap()),
        r#"{"ClientControl":{"state":"SUBMITTED","command":"register","cmd_args":null,"time":"2024-05-01T10:00:00Z"}}"#
    );
    assert_eq!(read_contact(&contact_to_tree(&control)), Ok(control));
}

#[test]
fn a_time_that_is_no_timestamp_is_not_read() {
    let payload = br#"{"CPType":{"ClientControl":{"state":"SUBMITTED","command":"register","cmd_args":null,"time":"never"}}}"#;
    assert_eq!(decode(payload), Err(DecodeError::MalformedPayload));
}
