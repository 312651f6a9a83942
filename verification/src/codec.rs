//! The wire format: messages as JSON documents and as bytes, and the pair
//! of frames in which the broker receives and sends them.
//!
//! A message is written as nested single-field objects, one per enum level,
//! the field's name being the variant's:
//!
//! ```text
//! {"CPType":{"ClientControl":{"state":"SUBMITTED","command":"register",
//!                             "cmd_args":null,"time":"2024-05-01T10:00:00Z"}}}
//! {"NPType":{"MsgFromUser":{"sender":"alice","content":{"TextMsg":{"content":"hi"}}}}}
//! ```
//!
//! Reading is tolerant where writing is exact: fields may come in any order,
//! fields that the format does not name are skipped, and `cmd_args` may be
//! left out.

use vstd::prelude::*;
use vstd::utf8::{decode_utf8, valid_utf8};
use vstd::string::StringSliceAdditionalSpecFns;
use crate::json::{json_parse, json_text, lemma_lookup_at, Json, JsonView};
use crate::protocol::{
    args_view,
    ContactProtocol,
    ContactProtocolView,
    MessageType,
    MessageTypeView,
    MsgStatus,
    NotifyProtocol,
    NotifyProtocolView,
    Protocols,
    ProtocolsView,
};
use crate::text::same;
use crate::time::{rfc3339_valid, Timestamp};

verus! {

/// Why a received message could not be read.
#[derive(Clone, Copy, Debug, PartialEq, Eq, Structural)]
pub enum DecodeError {
    /// Fewer than two frames arrived: no identity is paired with a payload.
    MissingIdentityFrame,
    /// The identity frame is not UTF-8.
    CorruptIdentityFrame,
    /// The payload is not JSON text, or not the JSON of a message.
    MalformedPayload,
    /// The payload names a variant that the protocol does not have.
    UnknownVariant,
}

// ---------------------------------------------------------------------
// Writing: message to document
// ---------------------------------------------------------------------

/// An object with the single field `key`.
pub open spec fn tagged(key: Seq<char>, value: JsonView) -> JsonView {
    JsonView::Object(seq![(key, value)])
}

/// The document of an optional payload: `null` where there is none.
pub open spec fn args_tree(cmd_args: Option<JsonView>) -> JsonView {
    match cmd_args {
        Some(tree) => tree,
        None => JsonView::Null,
    }
}

/// The document of a user message.
pub open spec fn message_tree(message: MessageTypeView) -> JsonView {
    match message {
        MessageTypeView::TextMsg { content } => tagged(
            "TextMsg"@,
            JsonView::Object(seq![("content"@, JsonView::Str(content))]),
        ),
    }
}

/// The document of a notification.
pub open spec fn notify_tree(notify: NotifyProtocolView) -> JsonView {
    match notify {
        NotifyProtocolView::MsgFromUser { sender, content } => tagged(
            "MsgFromUser"@,
            JsonView::Object(
                seq![("sender"@, JsonView::Str(sender)), ("content"@, message_tree(content))],
            ),
        ),
    }
}

/// The fields of a control message, server's or client's.
pub open spec fn control_tree(
    state: MsgStatus,
    command: Seq<char>,
    cmd_args: Option<JsonView>,
    time: Seq<char>,
) -> JsonView {
    JsonView::Object(
        seq![
            ("state"@, JsonView::Str(state.label())),
            ("command"@, JsonView::Str(command)),
            ("cmd_args"@, args_tree(cmd_args)),
            ("time"@, JsonView::Str(time)),
        ],
    )
}

/// The fields of a message from one user to another.
pub open spec fn user_message_tree(
    state: MsgStatus,
    target: Seq<char>,
    content: MessageTypeView,
    time: Seq<char>,
) -> JsonView {
    JsonView::Object(
        seq![
            ("state"@, JsonView::Str(state.label())),
            ("target"@, JsonView::Str(target)),
            ("content"@, message_tree(content)),
            ("time"@, JsonView::Str(time)),
        ],
    )
}

/// The document of a contact message.
pub open spec fn contact_tree(contact: ContactProtocolView) -> JsonView {
    match contact {
        ContactProtocolView::ServerControl { state, command, cmd_args, time } => tagged(
            "ServerControl"@,
            control_tree(state, command, cmd_args, time),
        ),
        ContactProtocolView::ClientControl { state, command, cmd_args, time } => tagged(
            "ClientControl"@,
            control_tree(state, command, cmd_args, time),
        ),
        ContactProtocolView::User2UserMsg { state, target, content, time } => tagged(
            "User2UserMsg"@,
            user_message_tree(state, target, content, time),
        ),
    }
}

/// The document of a message.
pub open spec fn envelope_tree(envelope: ProtocolsView) -> JsonView {
    match envelope {
        ProtocolsView::CPType(contact) => tagged("CPType"@, contact_tree(contact)),
        ProtocolsView::NPType(notify) => tagged("NPType"@, notify_tree(notify)),
    }
}

fn object1(key: &str, value: Json) -> (tree: Json)
    ensures
        tree@ == tagged(key@, value@),
{
    let tree = Json::Object(vec![(key.to_owned(), value)]);
    assert(tree@->Object_0 =~= seq![(key@, value@)]);
    tree
}

fn object2(k0: &str, v0: Json, k1: &str, v1: Json) -> (tree: Json)
    ensures
        tree@ == JsonView::Object(seq![(k0@, v0@), (k1@, v1@)]),
{
    let tree = Json::Object(vec![(k0.to_owned(), v0), (k1.to_owned(), v1)]);
    assert(tree@->Object_0 =~= seq![(k0@, v0@), (k1@, v1@)]);
    tree
}

fn object4(k0: &str, v0: Json, k1: &str, v1: Json, k2: &str, v2: Json, k3: &str, v3: Json) -> (tree:
    Json)
    ensures
        tree@ == JsonView::Object(seq![(k0@, v0@), (k1@, v1@), (k2@, v2@), (k3@, v3@)]),
{
    let tree = Json::Object(
        vec![(k0.to_owned(), v0), (k1.to_owned(), v1), (k2.to_owned(), v2), (k3.to_owned(), v3)],
    );
    assert(tree@->Object_0 =~= seq![(k0@, v0@), (k1@, v1@), (k2@, v2@), (k3@, v3@)]);
    tree
}

fn args_to_tree(cmd_args: &Option<Json>) -> (tree: Json)
    ensures
        tree@ == args_tree(args_view(*cmd_args)),
{
    match cmd_args {
        Some(payload) => payload.clone(),
        None => Json::Null,
    }
}

/// Writes what one user sends to another as a JSON document.
pub fn message_to_tree(message: &MessageType) -> (tree: Json)
    ensures
        tree@ == message_tree(message@),
{
    match message {
        MessageType::TextMsg { content } => object1(
            "TextMsg",
            object1("content", Json::string(content.as_str())),
        ),
    }
}

/// Writes a notification as a JSON document.
pub fn notify_to_tree(notify: &NotifyProtocol) -> (tree: Json)
    ensures
        tree@ == notify_tree(notify@),
{
    match notify {
        NotifyProtocol::MsgFromUser { sender, content } => object1(
            "MsgFromUser",
            object2("sender", Json::string(sender.as_str()), "content", message_to_tree(content)),
        ),
    }
}

fn control_to_tree(state: MsgStatus, command: &String, cmd_args: &Option<Json>, time: &Timestamp) -> (tree:
    Json)
    ensures
        tree@ == control_tree(state, command@, args_view(*cmd_args), time@),
        rfc3339_valid(time@),
{
    object4(
        "state",
        Json::string(state.as_str()),
        "command",
        Json::string(command.as_str()),
        "cmd_args",
        args_to_tree(cmd_args),
        "time",
        Json::string(time.as_str()),
    )
}

/// Writes a contact message as a JSON document. The time that it writes
/// denotes an instant.
pub fn contact_to_tree(contact: &ContactProtocol) -> (tree: Json)
    ensures
        tree@ == contact_tree(contact@),
        rfc3339_valid(contact@.time()),
{
    match contact {
        ContactProtocol::ServerControl { state, command, cmd_args, time } => object1(
            "ServerControl",
            control_to_tree(*state, command, cmd_args, time),
        ),
        ContactProtocol::ClientControl { state, command, cmd_args, time } => object1(
            "ClientControl",
            control_to_tree(*state, command, cmd_args, time),
        ),
        ContactProtocol::User2UserMsg { state, target, content, time } => object1(
            "User2UserMsg",
            object4(
                "state",
                Json::string(state.as_str()),
                "target",
                Json::string(target.as_str()),
                "content",
                message_to_tree(content),
                "time",
                Json::string(time.as_str()),
            ),
        ),
    }
}

/// Writes a message as a JSON document. The time that it writes denotes an
/// instant, as the time of every message does.
pub fn to_tree(envelope: &Protocols) -> (tree: Json)
    ensures
        tree@ == envelope_tree(envelope@),
        envelope@.stamped(),
{
    match envelope {
        Protocols::CPType(contact) => object1("CPType", contact_to_tree(contact)),
        Protocols::NPType(notify) => object1("NPType", notify_to_tree(notify)),
    }
}

// ---------------------------------------------------------------------
// Reading: document to message
// ---------------------------------------------------------------------

/// The name and the content of a variant: the only field of an object that
/// has exactly one.
pub open spec fn variant_of(tree: JsonView) -> Option<(Seq<char>, JsonView)> {
    match tree {
        JsonView::Object(fields) => if fields.len() == 1 {
            Some(fields[0])
        } else {
            None
        },
        _ => None,
    }
}

/// A field that must be a string.
pub open spec fn text_of(field: Option<JsonView>) -> Result<Seq<char>, DecodeError> {
    match field {
        Some(JsonView::Str(text)) => Ok(text),
        _ => Err(DecodeError::MalformedPayload),
    }
}

/// A field that must be the name of a status.
pub open spec fn status_of(field: Option<JsonView>) -> Result<MsgStatus, DecodeError> {
    match field {
        Some(JsonView::Str(label)) => match MsgStatus::of_label(label) {
            Some(status) => Ok(status),
            None => Err(DecodeError::UnknownVariant),
        },
        _ => Err(DecodeError::MalformedPayload),
    }
}

/// A field that must be a timestamp.
pub open spec fn time_of(field: Option<JsonView>) -> Result<Seq<char>, DecodeError> {
    match field {
        Some(JsonView::Str(text)) => if rfc3339_valid(text) {
            Ok(text)
        } else {
            Err(DecodeError::MalformedPayload)
        },
        _ => Err(DecodeError::MalformedPayload),
    }
}

/// An optional payload: absent where the field is missing or `null`.
pub open spec fn args_of(field: Option<JsonView>) -> Option<JsonView> {
    match field {
        None => None,
        Some(JsonView::Null) => None,
        Some(tree) => Some(tree),
    }
}

/// The user message that a document spells.
pub open spec fn message_of(tree: JsonView) -> Result<MessageTypeView, DecodeError> {
    match variant_of(tree) {
        None => Err(DecodeError::MalformedPayload),
        Some((tag, body)) => if tag == "TextMsg"@ {
            match text_of(body.field("content"@)) {
                Ok(content) => Ok(MessageTypeView::TextMsg { content }),
                Err(e) => Err(e),
            }
        } else {
            Err(DecodeError::UnknownVariant)
        },
    }
}

/// A field that must be a user message.
pub open spec fn content_of(field: Option<JsonView>) -> Result<MessageTypeView, DecodeError> {
    match field {
        Some(tree) => message_of(tree),
        None => Err(DecodeError::MalformedPayload),
    }
}

/// The notification that a document spells.
pub open spec fn notify_of(tree: JsonView) -> Result<NotifyProtocolView, DecodeError> {
    match variant_of(tree) {
        None => Err(DecodeError::MalformedPayload),
        Some((tag, body)) => if tag == "MsgFromUser"@ {
            match text_of(body.field("sender"@)) {
                Err(e) => Err(e),
                Ok(sender) => match content_of(body.field("content"@)) {
                    Err(e) => Err(e),
                    Ok(content) => Ok(NotifyProtocolView::MsgFromUser { sender, content }),
                },
            }
        } else {
            Err(DecodeError::UnknownVariant)
        },
    }
}

/// The four fields of a control message, read in the order `state`,
/// `command`, `cmd_args`, `time`; the first that fails decides the error.
pub open spec fn control_of(body: JsonView) -> Result<
    (MsgStatus, Seq<char>, Option<JsonView>, Seq<char>),
    DecodeError,
> {
    match status_of(body.field("state"@)) {
        Err(e) => Err(e),
        Ok(state) => match text_of(body.field("command"@)) {
            Err(e) => Err(e),
            Ok(command) => match time_of(body.field("time"@)) {
                Err(e) => Err(e),
                Ok(time) => Ok((state, command, args_of(body.field("cmd_args"@)), time)),
            },
        },
    }
}

/// The four fields of a message between users, read in the order `state`,
/// `target`, `content`, `time`; the first that fails decides the error.
pub open spec fn user_message_of(body: JsonView) -> Result<
    (MsgStatus, Seq<char>, MessageTypeView, Seq<char>),
    DecodeError,
> {
    match status_of(body.field("state"@)) {
        Err(e) => Err(e),
        Ok(state) => match text_of(body.field("target"@)) {
            Err(e) => Err(e),
            Ok(target) => match content_of(body.field("content"@)) {
                Err(e) => Err(e),
                Ok(content) => match time_of(body.field("time"@)) {
                    Err(e) => Err(e),
                    Ok(time) => Ok((state, target, content, time)),
                },
            },
        },
    }
}

/// The contact message that a document spells.
pub open spec fn contact_of(tree: JsonView) -> Result<ContactProtocolView, DecodeError> {
    match variant_of(tree) {
        None => Err(DecodeError::MalformedPayload),
        Some((tag, body)) => if tag == "ServerControl"@ {
            match control_of(body) {
                Err(e) => Err(e),
                Ok((state, command, cmd_args, time)) => Ok(
                    ContactProtocolView::ServerControl { state, command, cmd_args, time },
                ),
            }
        } else if tag == "ClientControl"@ {
            match control_of(body) {
                Err(e) => Err(e),
                Ok((state, command, cmd_args, time)) => Ok(
                    ContactProtocolView::ClientControl { state, command, cmd_args, time },
                ),
            }
        } else if tag == "User2UserMsg"@ {
            match user_message_of(body) {
                Err(e) => Err(e),
                Ok((state, target, content, time)) => Ok(
                    ContactProtocolView::User2UserMsg { state, target, content, time },
                ),
            }
        } else {
            Err(DecodeError::UnknownVariant)
        },
    }
}

/// The message that a document spells.
pub open spec fn envelope_of(tree: JsonView) -> Result<ProtocolsView, DecodeError> {
    match variant_of(tree) {
        None => Err(DecodeError::MalformedPayload),
        Some((tag, body)) => if tag == "CPType"@ {
            match contact_of(body) {
                Ok(contact) => Ok(ProtocolsView::CPType(contact)),
                Err(e) => Err(e),
            }
        } else if tag == "NPType"@ {
            match notify_of(body) {
                Ok(notify) => Ok(ProtocolsView::NPType(notify)),
                Err(e) => Err(e),
            }
        } else {
            Err(DecodeError::UnknownVariant)
        },
    }
}

/// View of a field that was looked up.
pub open spec fn found_view(field: Option<&Json>) -> Option<JsonView> {
    match field {
        Some(tree) => Some(tree@),
        None => None,
    }
}

fn read_text(field: Option<&Json>) -> (r: Result<String, DecodeError>)
    ensures
        match r {
            Ok(text) => text_of(found_view(field)) == Ok::<Seq<char>, DecodeError>(text@),
            Err(e) => text_of(found_view(field)) == Err::<Seq<char>, DecodeError>(e),
        },
{
    match field {
        Some(tree) => match tree.as_str() {
            Some(text) => Ok(text.clone()),
            None => Err(DecodeError::MalformedPayload),
        },
        None => Err(DecodeError::MalformedPayload),
    }
}

fn read_status(field: Option<&Json>) -> (r: Result<MsgStatus, DecodeError>)
    ensures
        r == status_of(found_view(field)),
{
    match field {
        Some(tree) => match tree.as_str() {
            Some(label) => match MsgStatus::from_label(label.as_str()) {
                Some(status) => Ok(status),
                None => Err(DecodeError::UnknownVariant),
            },
            None => Err(DecodeError::MalformedPayload),
        },
        None => Err(DecodeError::MalformedPayload),
    }
}

fn read_time(field: Option<&Json>) -> (r: Result<Timestamp, DecodeError>)
    ensures
        match r {
            Ok(time) => time_of(found_view(field)) == Ok::<Seq<char>, DecodeError>(time@),
            Err(e) => time_of(found_view(field)) == Err::<Seq<char>, DecodeError>(e),
        },
{
    match field {
        Some(tree) => match tree.as_str() {
            Some(text) => match Timestamp::parse(text.clone()) {
                Some(time) => Ok(time),
                None => Err(DecodeError::MalformedPayload),
            },
            None => Err(DecodeError::MalformedPayload),
        },
        None => Err(DecodeError::MalformedPayload),
    }
}

fn read_args(field: Option<&Json>) -> (r: Option<Json>)
    ensures
        args_view(r) == args_of(found_view(field)),
{
    match field {
        Some(tree) => {
            if tree.is_null() {
                None
            } else {
                Some(tree.clone())
            }
        },
        None => None,
    }
}

/// Reads what one user sends to another from its document.
pub fn read_message(tree: &Json) -> (r: Result<MessageType, DecodeError>)
    ensures
        match r {
            Ok(message) => message_of(tree@) == Ok::<MessageTypeView, DecodeError>(message@),
            Err(e) => message_of(tree@) == Err::<MessageTypeView, DecodeError>(e),
        },
{
    match tree.single_field() {
        None => Err(DecodeError::MalformedPayload),
        Some((tag, body)) => {
            if same(tag.as_str(), "TextMsg") {
                match read_text(body.get("content")) {
                    Ok(content) => Ok(MessageType::TextMsg { content }),
                    Err(e) => Err(e),
                }
            } else {
                Err(DecodeError::UnknownVariant)
            }
        },
    }
}

fn read_content(field: Option<&Json>) -> (r: Result<MessageType, DecodeError>)
    ensures
        match r {
            Ok(message) => content_of(found_view(field)) == Ok::<MessageTypeView, DecodeError>(
                message@,
            ),
            Err(e) => content_of(found_view(field)) == Err::<MessageTypeView, DecodeError>(e),
        },
{
    match field {
        Some(tree) => read_message(tree),
        None => Err(DecodeError::MalformedPayload),
    }
}

/// Reads a notification from its document.
pub fn read_notify(tree: &Json) -> (r: Result<NotifyProtocol, DecodeError>)
    ensures
        match r {
            Ok(notify) => notify_of(tree@) == Ok::<NotifyProtocolView, DecodeError>(notify@),
            Err(e) => notify_of(tree@) == Err::<NotifyProtocolView, DecodeError>(e),
        },
{
    match tree.single_field() {
        None => Err(DecodeError::MalformedPayload),
        Some((tag, body)) => {
            if same(tag.as_str(), "MsgFromUser") {
                let sender = match read_text(body.get("sender")) {
                    Ok(sender) => sender,
                    Err(e) => return Err(e),
                };
                let content = match read_content(body.get("content")) {
                    Ok(content) => content,
                    Err(e) => return Err(e),
                };
                Ok(NotifyProtocol::MsgFromUser { sender, content })
            } else {
                Err(DecodeError::UnknownVariant)
            }
        },
    }
}

fn read_control(body: &Json) -> (r: Result<(MsgStatus, String, Option<Json>, Timestamp), DecodeError>)
    ensures
        match r {
            Ok((state, command, cmd_args, time)) => control_of(body@) == Ok::<
                (MsgStatus, Seq<char>, Option<JsonView>, Seq<char>),
                DecodeError,
            >((state, command@, args_view(cmd_args), time@)),
            Err(e) => control_of(body@) == Err::<
                (MsgStatus, Seq<char>, Option<JsonView>, Seq<char>),
                DecodeError,
            >(e),
        },
{
    let state = match read_status(body.get("state")) {
        Ok(state) => state,
        Err(e) => return Err(e),
    };
    let command = match read_text(body.get("command")) {
        Ok(command) => command,
        Err(e) => return Err(e),
    };
    let time = match read_time(body.get("time")) {
        Ok(time) => time,
        Err(e) => return Err(e),
    };
    let cmd_args = read_args(body.get("cmd_args"));
    Ok((state, command, cmd_args, time))
}

fn read_user_message(body: &Json) -> (r: Result<
    (MsgStatus, String, MessageType, Timestamp),
    DecodeError,
>)
    ensures
        match r {
            Ok((state, target, content, time)) => user_message_of(body@) == Ok::<
                (MsgStatus, Seq<char>, MessageTypeView, Seq<char>),
                DecodeError,
            >((state, target@, content@, time@)),
            Err(e) => user_message_of(body@) == Err::<
                (MsgStatus, Seq<char>, MessageTypeView, Seq<char>),
                DecodeError,
            >(e),
        },
{
    let state = match read_status(body.get("state")) {
        Ok(state) => state,
        Err(e) => return Err(e),
    };
    let target = match read_text(body.get("target")) {
        Ok(target) => target,
        Err(e) => return Err(e),
    };
    let content = match read_content(body.get("content")) {
        Ok(content) => content,
        Err(e) => return Err(e),
    };
    let time = match read_time(body.get("time")) {
        Ok(time) => time,
        Err(e) => return Err(e),
    };
    Ok((state, target, content, time))
}

/// Reads a contact message from its document.
pub fn read_contact(tree: &Json) -> (r: Result<ContactProtocol, DecodeError>)
    ensures
        match r {
            Ok(contact) => contact_of(tree@) == Ok::<ContactProtocolView, DecodeError>(contact@),
            Err(e) => contact_of(tree@) == Err::<ContactProtocolView, DecodeError>(e),
        },
{
    match tree.single_field() {
        None => Err(DecodeError::MalformedPayload),
        Some((tag, body)) => {
            if same(tag.as_str(), "ServerControl") {
                match read_control(body) {
                    Ok((state, command, cmd_args, time)) => Ok(
                        ContactProtocol::ServerControl { state, command, cmd_args, time },
                    ),
                    Err(e) => Err(e),
                }
            } else if same(tag.as_str(), "ClientControl") {
                match read_control(body) {
                    Ok((state, command, cmd_args, time)) => Ok(
                        ContactProtocol::ClientControl { state, command, cmd_args, time },
                    ),
                    Err(e) => Err(e),
                }
            } else if same(tag.as_str(), "User2UserMsg") {
                match read_user_message(body) {
                    Ok((state, target, content, time)) => Ok(
                        ContactProtocol::User2UserMsg { state, target, content, time },
                    ),
                    Err(e) => Err(e),
                }
            } else {
                Err(DecodeError::UnknownVariant)
            }
        },
    }
}

/// Reads a message from a JSON document.
pub fn from_tree(tree: &Json) -> (r: Result<Protocols, DecodeError>)
    ensures
        match r {
            Ok(envelope) => envelope_of(tree@) == Ok::<ProtocolsView, DecodeError>(envelope@),
            Err(e) => envelope_of(tree@) == Err::<ProtocolsView, DecodeError>(e),
        },
{
    match tree.single_field() {
        None => Err(DecodeError::MalformedPayload),
        Some((tag, body)) => {
            if same(tag.as_str(), "CPType") {
                match read_contact(body) {
                    Ok(contact) => Ok(Protocols::CPType(contact)),
                    Err(e) => Err(e),
                }
            } else if same(tag.as_str(), "NPType") {
                match read_notify(body) {
                    Ok(notify) => Ok(Protocols::NPType(notify)),
                    Err(e) => Err(e),
                }
            } else {
                Err(DecodeError::UnknownVariant)
            }
        },
    }
}

// ---------------------------------------------------------------------
// Bytes and frames
// ---------------------------------------------------------------------

/// The payload bytes of a message: the compact JSON text of its document.
pub open spec fn encode_spec(envelope: ProtocolsView) -> Option<Seq<u8>> {
    json_text(envelope_tree(envelope))
}

/// What a parsed payload says: a payload that is no JSON text is malformed.
pub open spec fn parsed_envelope(parsed: Option<JsonView>) -> Result<ProtocolsView, DecodeError> {
    match parsed {
        Some(tree) => envelope_of(tree),
        None => Err(DecodeError::MalformedPayload),
    }
}

/// The message that payload bytes spell.
pub open spec fn decode_spec(bytes: Seq<u8>) -> Result<ProtocolsView, DecodeError> {
    parsed_envelope(json_parse(bytes))
}

/// The identity that an identity frame spells.
pub open spec fn identity_of(frame: Seq<u8>) -> Result<Seq<char>, DecodeError> {
    if valid_utf8(frame) {
        Ok(decode_utf8(frame))
    } else {
        Err(DecodeError::CorruptIdentityFrame)
    }
}

/// The sender and the message that a multipart message spells. The first
/// frame is the identity, the second the payload; further frames are not
/// looked at. The identity is read first.
pub open spec fn decode_frames_spec(frames: Seq<Seq<u8>>) -> Result<
    (Seq<char>, ProtocolsView),
    DecodeError,
> {
    if frames.len() < 2 {
        Err(DecodeError::MissingIdentityFrame)
    } else {
        match identity_of(frames[0]) {
            Err(e) => Err(e),
            Ok(identity) => match decode_spec(frames[1]) {
                Err(e) => Err(e),
                Ok(envelope) => Ok((identity, envelope)),
            },
        }
    }
}

/// Calls `String::from_utf8` on a copy of `bytes`. Claimed: it succeeds
/// exactly on valid UTF-8, and the string then holds the characters that the
/// bytes encode.
#[verifier::external_body]
fn string_from_utf8(bytes: &[u8]) -> (r: Option<String>)
    ensures
        r is Some <==> valid_utf8(bytes@),
        r matches Some(text) ==> text@ == decode_utf8(bytes@),
{
    String::from_utf8(bytes.to_vec()).ok()
}

/// Writes a message as payload bytes. `None` only where serde_json
/// declines to write the document. The time that it writes denotes an
/// instant.
pub fn encode(envelope: &Protocols) -> (r: Option<Vec<u8>>)
    ensures
        match r {
            Some(bytes) => encode_spec(envelope@) == Some(bytes@),
            None => encode_spec(envelope@) is None,
        },
        envelope@.stamped(),
{
    to_tree(envelope).to_bytes()
}

/// Reads a message from a parsed payload.
pub fn from_parsed(parsed: Option<Json>) -> (r: Result<Protocols, DecodeError>)
    ensures
        match r {
            Ok(envelope) => parsed_envelope(args_view(parsed)) == Ok::<ProtocolsView, DecodeError>(
                envelope@,
            ),
            Err(e) => parsed_envelope(args_view(parsed)) == Err::<ProtocolsView, DecodeError>(e),
        },
{
    match parsed {
        Some(tree) => from_tree(&tree),
        None => Err(DecodeError::MalformedPayload),
    }
}

/// Reads a message from payload bytes.
pub fn decode(bytes: &[u8]) -> (r: Result<Protocols, DecodeError>)
    ensures
        match r {
            Ok(envelope) => decode_spec(bytes@) == Ok::<ProtocolsView, DecodeError>(envelope@),
            Err(e) => decode_spec(bytes@) == Err::<ProtocolsView, DecodeError>(e),
        },
{
    from_parsed(Json::parse(bytes))
}

/// Reads the identity of a sender from its frame.
pub fn decode_identity(frame: &[u8]) -> (r: Result<String, DecodeError>)
    ensures
        match r {
            Ok(identity) => identity_of(frame@) == Ok::<Seq<char>, DecodeError>(identity@),
            Err(e) => identity_of(frame@) == Err::<Seq<char>, DecodeError>(e),
        },
{
    match string_from_utf8(frame) {
        Some(identity) => Ok(identity),
        None => Err(DecodeError::CorruptIdentityFrame),
    }
}

/// Reads what the broker receives: the sender's identity and its message.
pub fn decode_frames(frames: &Vec<Vec<u8>>) -> (r: Result<(String, Protocols), DecodeError>)
    ensures
        match r {
            Ok((identity, envelope)) => decode_frames_spec(frames.deep_view()) == Ok::<
                (Seq<char>, ProtocolsView),
                DecodeError,
            >((identity@, envelope@)),
            Err(e) => decode_frames_spec(frames.deep_view()) == Err::<
                (Seq<char>, ProtocolsView),
                DecodeError,
            >(e),
        },
{
    if frames.len() < 2 {
        return Err(DecodeError::MissingIdentityFrame);
    }
    assert(frames.deep_view()[0] == frames@[0]@);
    assert(frames.deep_view()[1] == frames@[1]@);
    let identity = match decode_identity(frames[0].as_slice()) {
        Ok(identity) => identity,
        Err(e) => return Err(e),
    };
    let envelope = match decode(frames[1].as_slice()) {
        Ok(envelope) => envelope,
        Err(e) => return Err(e),
    };
    Ok((identity, envelope))
}

/// Writes what the broker sends: the recipient's identity frame, then the
/// payload frame.
pub fn encode_frames(recipient: &str, envelope: &Protocols) -> (r: Option<Vec<Vec<u8>>>)
    ensures
        match r {
            Some(frames) => encode_spec(envelope@) matches Some(payload) && frames.deep_view()
                == seq![recipient.spec_bytes(), payload],
            None => encode_spec(envelope@) is None,
        },
{
    match encode(envelope) {
        Some(payload) => {
            let identity = recipient.as_bytes_vec();
            let frames = vec![identity, payload];
            assert(frames.deep_view().len() == 2);
            assert(frames.deep_view()[0] == frames@[0]@);
            assert(frames.deep_view()[1] == frames@[1]@);
            assert(frames.deep_view() =~= seq![recipient.spec_bytes(), payload@]);
            Some(frames)
        },
        None => None,
    }
}

// ---------------------------------------------------------------------
// Reading back what was written
// ---------------------------------------------------------------------

impl ContactProtocolView {
    /// The timestamp of the message.
    pub open spec fn time(self) -> Seq<char> {
        match self {
            ContactProtocolView::ServerControl { time, .. } => time,
            ContactProtocolView::ClientControl { time, .. } => time,
            ContactProtocolView::User2UserMsg { time, .. } => time,
        }
    }

    /// The payload of a control message.
    pub open spec fn cmd_args(self) -> Option<JsonView> {
        match self {
            ContactProtocolView::ServerControl { cmd_args, .. } => cmd_args,
            ContactProtocolView::ClientControl { cmd_args, .. } => cmd_args,
            ContactProtocolView::User2UserMsg { .. } => None,
        }
    }
}

impl ProtocolsView {
    /// The message's time, where it has one, denotes an instant.
    pub open spec fn stamped(self) -> bool {
        match self {
            ProtocolsView::CPType(contact) => rfc3339_valid(contact.time()),
            ProtocolsView::NPType(_) => true,
        }
    }

    /// A message that can be read back as it was written: its time denotes
    /// an instant, and it does not carry `null` as a payload (on the wire,
    /// `null` stands for no payload).
    pub open spec fn well_formed(self) -> bool {
        match self {
            ProtocolsView::CPType(contact) => self.stamped() && contact.cmd_args() != Some(
                JsonView::Null,
            ),
            ProtocolsView::NPType(_) => true,
        }
    }
}

proof fn lemma_keys()
    ensures
        "state"@ != "command"@,
        "state"@ != "cmd_args"@,
        "state"@ != "time"@,
        "state"@ != "target"@,
        "state"@ != "content"@,
        "command"@ != "cmd_args"@,
        "command"@ != "time"@,
        "cmd_args"@ != "time"@,
        "target"@ != "content"@,
        "target"@ != "time"@,
        "content"@ != "time"@,
        "sender"@ != "content"@,
        "CPType"@ != "NPType"@,
        "ServerControl"@ != "ClientControl"@,
        "ServerControl"@ != "User2UserMsg"@,
        "ClientControl"@ != "User2UserMsg"@,
{
    reveal_strlit("state");
    reveal_strlit("command");
    reveal_strlit("cmd_args");
    reveal_strlit("time");
    reveal_strlit("target");
    reveal_strlit("content");
    reveal_strlit("sender");
    reveal_strlit("CPType");
    reveal_strlit("NPType");
    reveal_strlit("ServerControl");
    reveal_strlit("ClientControl");
    reveal_strlit("User2UserMsg");
    assert("state"@.len() == 5);
    assert("command"@.len() == 7);
    assert("cmd_args"@.len() == 8);
    assert("time"@.len() == 4);
    assert("target"@.len() == 6);
    assert("content"@.len() == 7);
    assert("sender"@.len() == 6);
    assert("ServerControl"@.len() == 13);
    assert("ClientControl"@.len() == 13);
    assert("User2UserMsg"@.len() == 12);
    assert("command"@[2] == 'm');
    assert("content"@[2] == 'n');
    assert("CPType"@[0] == 'C');
    assert("NPType"@[0] == 'N');
    assert("ServerControl"@[0] == 'S');
    assert("ClientControl"@[0] == 'C');
}

proof fn lemma_message_reads_back(message: MessageTypeView)
    ensures
        message_of(message_tree(message)) == Ok::<MessageTypeView, DecodeError>(message),
{
    let content = message->content;
    let body = JsonView::Object(seq![("content"@, JsonView::Str(content))]);
    lemma_lookup_at(body.fields(), "content"@, 0);
}

proof fn lemma_notify_reads_back(notify: NotifyProtocolView)
    ensures
        notify_of(notify_tree(notify)) == Ok::<NotifyProtocolView, DecodeError>(notify),
{
    lemma_keys();
    let sender = notify->sender;
    let content = notify->content;
    let body = JsonView::Object(
        seq![("sender"@, JsonView::Str(sender)), ("content"@, message_tree(content))],
    );
    lemma_lookup_at(body.fields(), "sender"@, 0);
    lemma_lookup_at(body.fields(), "content"@, 1);
    lemma_message_reads_back(content);
}

proof fn lemma_control_reads_back(
    state: MsgStatus,
    command: Seq<char>,
    cmd_args: Option<JsonView>,
    time: Seq<char>,
)
    requires
        rfc3339_valid(time),
        cmd_args != Some(JsonView::Null),
    ensures
        control_of(control_tree(state, command, cmd_args, time)) == Ok::<
            (MsgStatus, Seq<char>, Option<JsonView>, Seq<char>),
            DecodeError,
        >((state, command, cmd_args, time)),
{
    lemma_keys();
    state.lemma_label_names_status();
    let body = control_tree(state, command, cmd_args, time);
    lemma_lookup_at(body.fields(), "state"@, 0);
    lemma_lookup_at(body.fields(), "command"@, 1);
    lemma_lookup_at(body.fields(), "cmd_args"@, 2);
    lemma_lookup_at(body.fields(), "time"@, 3);
}

proof fn lemma_user_message_reads_back(
    state: MsgStatus,
    target: Seq<char>,
    content: MessageTypeView,
    time: Seq<char>,
)
    requires
        rfc3339_valid(time),
    ensures
        user_message_of(user_message_tree(state, target, content, time)) == Ok::<
            (MsgStatus, Seq<char>, MessageTypeView, Seq<char>),
            DecodeError,
        >((state, target, content, time)),
{
    lemma_keys();
    state.lemma_label_names_status();
    lemma_message_reads_back(content);
    let body = user_message_tree(state, target, content, time);
    lemma_lookup_at(body.fields(), "state"@, 0);
    lemma_lookup_at(body.fields(), "target"@, 1);
    lemma_lookup_at(body.fields(), "content"@, 2);
    lemma_lookup_at(body.fields(), "time"@, 3);
}

/// Reading inverts writing: the document of a well-formed message reads
/// back as that message.
pub proof fn lemma_read_inverts_write(envelope: ProtocolsView)
    requires
        envelope.well_formed(),
    ensures
        envelope_of(envelope_tree(envelope)) == Ok::<ProtocolsView, DecodeError>(envelope),
{
    lemma_keys();
    match envelope {
        ProtocolsView::CPType(contact) => {
            match contact {
                ContactProtocolView::ServerControl { state, command, cmd_args, time } => {
                    lemma_control_reads_back(state, command, cmd_args, time);
                },
                ContactProtocolView::ClientControl { state, command, cmd_args, time } => {
                    lemma_control_reads_back(state, command, cmd_args, time);
                },
                ContactProtocolView::User2UserMsg { state, target, content, time } => {
                    lemma_user_message_reads_back(state, target, content, time);
                },
            }
        },
        ProtocolsView::NPType(notify) => {
            lemma_notify_reads_back(notify);
        },
    }
}

/// Whatever is read is well-formed: a message that some document spells
/// can be written and read back.
pub proof fn lemma_read_is_well_formed(tree: JsonView)
    ensures
        envelope_of(tree) matches Ok(envelope) ==> envelope.well_formed(),
{
}

/// Writing what was read keeps the meaning: where a document spells a
/// message, the document written for that message spells it too. For a
/// document in the written form this gives the document back, field for
/// field.
pub proof fn lemma_write_after_read(tree: JsonView)
    ensures
        envelope_of(tree) matches Ok(envelope) ==> envelope_of(envelope_tree(envelope))
            == envelope_of(tree),
        forall|written: ProtocolsView|
            written.well_formed() && tree == envelope_tree(written) ==> envelope_of(tree) == Ok::<
                ProtocolsView,
                DecodeError,
            >(written) && envelope_tree(written) == tree,
{
    if let Ok(envelope) = envelope_of(tree) {
        lemma_read_is_well_formed(tree);
        lemma_read_inverts_write(envelope);
    }
    assert forall|written: ProtocolsView|
        written.well_formed() && tree == envelope_tree(written) implies envelope_of(tree) == Ok::<
        ProtocolsView,
        DecodeError,
    >(written) && envelope_tree(written) == tree by {
        lemma_read_inverts_write(written);
    }
}

/// On bytes, reading inverts writing as far as serde_json's reading
/// inverts its writing: where the bytes written for a well-formed message
/// are read back as the document that was written, they are read back as the
/// message.
pub proof fn lemma_decode_inverts_encode(envelope: ProtocolsView, bytes: Seq<u8>)
    ensures
        envelope.well_formed() && encode_spec(envelope) == Some(bytes) && json_parse(bytes) == Some(
            envelope_tree(envelope),
        ) ==> decode_spec(bytes) == Ok::<ProtocolsView, DecodeError>(envelope),
{
    if envelope.well_formed() {
        lemma_read_inverts_write(envelope);
    }
}

} // verus!
