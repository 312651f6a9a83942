//! The broker's rules: what it does with one message from one identity.
//!
//! Given the registry, the sender, the message and the time, the rules fix
//! the registry afterwards and what the broker sends, to whom, and whether
//! it stops. `dispatch_spec` states them; `dispatch_at` carries them out. A broker that feeds every received message through
//! `Broker::handle`, one after the other, behaves as the rules say.
//!
//! | message                | sender          | registry       | sent                                   |
//! |------------------------|-----------------|----------------|----------------------------------------|
//! | client `register`      | not registered  | sender added   | `ACCEPTED`, echoing the request        |
//! | client `register`      | registered      | unchanged      | `REJECTED`, "multiple registry"        |
//! | anything else          | not registered  | unchanged      | `REJECTED`, "register"                 |
//! | server `shutdown`      | `root`          | unchanged      | nothing; the broker stops              |
//! | server, other command  | `root`          | unchanged      | nothing                                |
//! | server, any command    | not `root`      | unchanged      | nothing                                |
//! | client `get_clients`   | registered      | unchanged      | `ACCEPTED` with the list of identities |
//! | client `unregister`    | registered      | sender removed | nothing                                |
//! | client, other command  | registered      | unchanged      | nothing                                |
//! | user message           | registered      | unchanged      | to the target: the message; or, where  |
//! |                        |                 |                | the target is not registered, to the   |
//! |                        |                 |                | sender: `FAILED`, "no such target"     |
//! | notification           | registered      | unchanged      | nothing                                |

use vstd::prelude::*;
use vstd::utf8::encode_utf8;
use crate::codec::{
    decode_frames,
    decode_frames_spec,
    encode_frames,
    encode_spec,
    DecodeError,
};
use crate::json::{Json, JsonView};
use crate::protocol::{
    args_view,
    ContactProtocol,
    ContactProtocolView,
    MsgStatus,
    NotifyProtocol,
    NotifyProtocolView,
    Protocols,
    ProtocolsView,
};
use crate::registry::{
    fresh_record,
    lemma_finite_set_listed,
    listing,
    lists,
    ClientRecordView,
    Registry,
};
use crate::text::{lemma_str_lt_asymmetric, same};
use crate::time::{rfc3339_valid, Timestamp};

verus! {

/// What the broker made of a message.
#[derive(Clone, Copy, Debug, PartialEq, Eq, Structural)]
pub enum Disposition {
    /// The sender was registered.
    Registered,
    /// The sender asked to register while registered.
    DuplicateRegistration,
    /// The sender is not registered and did not ask to register.
    NotRegistered,
    /// `root` asked the broker to stop.
    ShutdownRequested,
    /// Someone other than `root` sent a server command.
    Unauthorized,
    /// `root` sent a server command that the broker does not know.
    UnknownServerCommand,
    /// The sender asked for the list of clients.
    Listed,
    /// The sender was unregistered.
    Unregistered,
    /// The sender sent a client command that the broker does not know.
    UnknownClientCommand,
    /// The sender's message goes to its target.
    Delivered,
    /// The sender's message names a target that is not registered.
    NoSuchTarget,
    /// A client sent a notification, which only the broker sends.
    UnexpectedNotify,
}

/// A message on its way to a client.
#[derive(Debug, PartialEq, Eq)]
pub struct Outbound {
    pub recipient: String,
    pub envelope: Protocols,
}

/// View of an `Outbound`.
pub struct OutboundView {
    pub recipient: Seq<char>,
    pub envelope: ProtocolsView,
}

impl View for Outbound {
    type V = OutboundView;

    open spec fn view(&self) -> OutboundView {
        OutboundView { recipient: self.recipient@, envelope: self.envelope@ }
    }
}

/// The broker's decision on one message.
#[derive(Debug, PartialEq, Eq)]
pub struct Verdict {
    pub disposition: Disposition,
    pub outbound: Option<Outbound>,
}

/// View of a `Verdict`.
pub struct VerdictView {
    pub disposition: Disposition,
    pub outbound: Option<OutboundView>,
}

impl View for Verdict {
    type V = VerdictView;

    open spec fn view(&self) -> VerdictView {
        VerdictView {
            disposition: self.disposition,
            outbound: match self.outbound {
                Some(outbound) => Some(outbound@),
                None => None,
            },
        }
    }
}

impl Verdict {
    /// Whether the broker stops after this message.
    pub fn stops_broker(&self) -> (stop: bool)
        ensures
            stop == (self@.disposition == Disposition::ShutdownRequested),
    {
        match self.disposition {
            Disposition::ShutdownRequested => true,
            _ => false,
        }
    }
}

/// The registry as the rules see it.
pub type Clients = Map<Seq<char>, ClientRecordView>;

/// The identity that may send server commands.
pub open spec fn root() -> Seq<char> {
    "root"@
}

/// The broker's answer to a client: a client control message stamped `now`.
pub open spec fn reply(
    state: MsgStatus,
    command: Seq<char>,
    cmd_args: Option<JsonView>,
    now: Seq<char>,
) -> ProtocolsView {
    ProtocolsView::CPType(ContactProtocolView::ClientControl { state, command, cmd_args, time: now })
}

/// A verdict that sends nothing.
pub open spec fn silent(disposition: Disposition) -> VerdictView {
    VerdictView { disposition, outbound: None }
}

/// A verdict that sends `envelope` to `recipient`.
pub open spec fn sending(
    disposition: Disposition,
    recipient: Seq<char>,
    envelope: ProtocolsView,
) -> VerdictView {
    VerdictView { disposition, outbound: Some(OutboundView { recipient, envelope }) }
}

/// The JSON array of a list of identities.
pub open spec fn names_payload(names: Seq<Seq<char>>) -> JsonView {
    JsonView::Array(Seq::new(names.len(), |i: int| JsonView::Str(names[i])))
}

/// A client's request to register.
pub open spec fn is_register(envelope: ProtocolsView) -> bool {
    envelope matches ProtocolsView::CPType(ContactProtocolView::ClientControl { command, .. })
        && command == "register"@
}

/// What the broker does with `envelope` from `sender` at time `now`: the
/// registry afterwards, and the verdict.
pub open spec fn dispatch_spec(
    clients: Clients,
    sender: Seq<char>,
    envelope: ProtocolsView,
    now: Seq<char>,
) -> (Clients, VerdictView) {
    if is_register(envelope) {
        let request = envelope->CPType_0;
        if clients.dom().contains(sender) {
            (
                clients,
                sending(
                    Disposition::DuplicateRegistration,
                    sender,
                    reply(MsgStatus::REJECTED, "multiple registry"@, None, now),
                ),
            )
        } else {
            (
                clients.insert(sender, fresh_record(sender, now)),
                sending(
                    Disposition::Registered,
                    sender,
                    reply(
                        MsgStatus::ACCEPTED,
                        request->ClientControl_command,
                        request->ClientControl_cmd_args,
                        now,
                    ),
                ),
            )
        }
    } else if !clients.dom().contains(sender) {
        (
            clients,
            sending(
                Disposition::NotRegistered,
                sender,
                reply(MsgStatus::REJECTED, "register"@, None, now),
            ),
        )
    } else {
        match envelope {
            ProtocolsView::CPType(ContactProtocolView::ServerControl { command, .. }) => {
                if sender != root() {
                    (clients, silent(Disposition::Unauthorized))
                } else if command == "shutdown"@ {
                    (clients, silent(Disposition::ShutdownRequested))
                } else {
                    (clients, silent(Disposition::UnknownServerCommand))
                }
            },
            ProtocolsView::CPType(ContactProtocolView::ClientControl { command, .. }) => {
                if command == "get_clients"@ {
                    (
                        clients,
                        sending(
                            Disposition::Listed,
                            sender,
                            reply(
                                MsgStatus::ACCEPTED,
                                "get_clients"@,
                                Some(names_payload(listing(clients.dom()))),
                                now,
                            ),
                        ),
                    )
                } else if command == "unregister"@ {
                    (clients.remove(sender), silent(Disposition::Unregistered))
                } else {
                    (clients, silent(Disposition::UnknownClientCommand))
                }
            },
            ProtocolsView::CPType(ContactProtocolView::User2UserMsg { target, content, .. }) => {
                if clients.dom().contains(target) {
                    (
                        clients,
                        sending(
                            Disposition::Delivered,
                            target,
                            ProtocolsView::NPType(
                                NotifyProtocolView::MsgFromUser { sender, content },
                            ),
                        ),
                    )
                } else {
                    (
                        clients,
                        sending(
                            Disposition::NoSuchTarget,
                            sender,
                            reply(MsgStatus::FAILED, "no such target"@, None, now),
                        ),
                    )
                }
            },
            ProtocolsView::NPType(_) => (clients, silent(Disposition::UnexpectedNotify)),
        }
    }
}

fn answer(
    disposition: Disposition,
    recipient: String,
    state: MsgStatus,
    command: String,
    cmd_args: Option<Json>,
    now: Timestamp,
) -> (verdict: Verdict)
    ensures
        verdict@ == sending(
            disposition,
            recipient@,
            reply(state, command@, args_view(cmd_args), now@),
        ),
{
    Verdict {
        disposition,
        outbound: Some(
            Outbound {
                recipient,
                envelope: Protocols::CPType(
                    ContactProtocol::ClientControl { state, command, cmd_args, time: now },
                ),
            },
        ),
    }
}

fn quiet(disposition: Disposition) -> (verdict: Verdict)
    ensures
        verdict@ == silent(disposition),
{
    Verdict { disposition, outbound: None }
}

/// The JSON array of the registered identities.
fn clients_payload(registry: &Registry) -> (payload: Json)
    ensures
        payload@ == names_payload(listing(registry@.dom())),
{
    let names = registry.list();
    let mut items: Vec<Json> = Vec::new();
    let mut i: usize = 0;
    while i < names.len()
        invariant
            i <= names@.len(),
            items@.len() == i,
            forall|k: int| 0 <= k < i ==> items@[k]@ == JsonView::Str(names@[k]@),
        decreases names@.len() - i,
    {
        items.push(Json::string(names[i].as_str()));
        i += 1;
    }
    let payload = Json::Array(items);
    proof {
        let listed = names.deep_view();
        assert(payload@->Array_0 =~= names_payload(listed)->Array_0) by {
            assert(payload@->Array_0.len() == listed.len());
            assert forall|k: int| 0 <= k < listed.len() implies payload@->Array_0[k]
                == JsonView::Str(listed[k]) by {
                assert(listed[k] == names@[k]@);
            }
        }
    }
    payload
}

/// Carries out the rules on one message, with `now` as the time.
pub fn dispatch_at(registry: &mut Registry, sender: String, envelope: Protocols, now: Timestamp) -> (verdict:
    Verdict)
    ensures
        (final(registry)@, verdict@) == dispatch_spec(old(registry)@, sender@, envelope@, now@),
        old(registry)@.dom().finite(),
        final(registry)@.dom().finite(),
{
    let registered = registry.contains(sender.as_str());
    match envelope {
        Protocols::CPType(ContactProtocol::ClientControl { state: _, command, cmd_args, time: _ }) => {
            if same(command.as_str(), "register") {
                if registered {
                    answer(
                        Disposition::DuplicateRegistration,
                        sender,
                        MsgStatus::REJECTED,
                        "multiple registry".to_owned(),
                        None,
                        now,
                    )
                } else {
                    let added = registry.try_register(sender.clone(), now.clone());
                    assert(added is Ok);
                    answer(
                        Disposition::Registered,
                        sender,
                        MsgStatus::ACCEPTED,
                        command,
                        cmd_args,
                        now,
                    )
                }
            } else if !registered {
                answer(
                    Disposition::NotRegistered,
                    sender,
                    MsgStatus::REJECTED,
                    "register".to_owned(),
                    None,
                    now,
                )
            } else if same(command.as_str(), "get_clients") {
                let payload = clients_payload(registry);
                answer(
                    Disposition::Listed,
                    sender,
                    MsgStatus::ACCEPTED,
                    "get_clients".to_owned(),
                    Some(payload),
                    now,
                )
            } else if same(command.as_str(), "unregister") {
                let removed = registry.unregister(sender.as_str());
                assert(removed is Ok);
                quiet(Disposition::Unregistered)
            } else {
                quiet(Disposition::UnknownClientCommand)
            }
        },
        Protocols::CPType(ContactProtocol::ServerControl { state: _, command, cmd_args: _, time: _ }) => {
            if !registered {
                answer(
                    Disposition::NotRegistered,
                    sender,
                    MsgStatus::REJECTED,
                    "register".to_owned(),
                    None,
                    now,
                )
            } else if !same(sender.as_str(), "root") {
                quiet(Disposition::Unauthorized)
            } else if same(command.as_str(), "shutdown") {
                quiet(Disposition::ShutdownRequested)
            } else {
                quiet(Disposition::UnknownServerCommand)
            }
        },
        Protocols::CPType(ContactProtocol::User2UserMsg { state: _, target, content, time: _ }) => {
            if !registered {
                answer(
                    Disposition::NotRegistered,
                    sender,
                    MsgStatus::REJECTED,
                    "register".to_owned(),
                    None,
                    now,
                )
            } else if registry.contains(target.as_str()) {
                Verdict {
                    disposition: Disposition::Delivered,
                    outbound: Some(
                        Outbound {
                            recipient: target,
                            envelope: Protocols::NPType(
                                NotifyProtocol::MsgFromUser { sender, content },
                            ),
                        },
                    ),
                }
            } else {
                answer(
                    Disposition::NoSuchTarget,
                    sender,
                    MsgStatus::FAILED,
                    "no such target".to_owned(),
                    None,
                    now,
                )
            }
        },
        Protocols::NPType(_) => {
            if !registered {
                answer(
                    Disposition::NotRegistered,
                    sender,
                    MsgStatus::REJECTED,
                    "register".to_owned(),
                    None,
                    now,
                )
            } else {
                quiet(Disposition::UnexpectedNotify)
            }
        },
    }
}

/// The registry went from `before` to `after` and the verdict was
/// `verdict`, as the rules say for time `now`.
pub open spec fn dispatched(
    before: Clients,
    sender: Seq<char>,
    envelope: ProtocolsView,
    now: Seq<char>,
    after: Clients,
    verdict: VerdictView,
) -> bool {
    (after, verdict) == dispatch_spec(before, sender, envelope, now)
}

/// Carries out the rules on one message, stamping what the broker writes
/// with the current time.
pub fn dispatch(registry: &mut Registry, sender: String, envelope: Protocols) -> (verdict: Verdict)
    ensures
        exists|now: Seq<char>|
            rfc3339_valid(now) && dispatched(
                old(registry)@,
                sender@,
                envelope@,
                now,
                final(registry)@,
                verdict@,
            ),
{
    let now = Timestamp::now();
    let ghost stamp = now@;
    let verdict = dispatch_at(registry, sender, envelope, now);
    assert(rfc3339_valid(stamp) && dispatched(
        old(registry)@,
        sender@,
        envelope@,
        stamp,
        registry@,
        verdict@,
    ));
    verdict
}

// ---------------------------------------------------------------------
// One round of the broker's loop
// ---------------------------------------------------------------------

/// What one round of the loop came to.
#[derive(Clone, Copy, Debug, PartialEq, Eq, Structural)]
pub enum StepEvent {
    /// What arrived could not be read; it was dropped.
    Undecodable(DecodeError),
    /// The message was handled.
    Dispatched(Disposition),
    /// The message was handled, but what the broker had to send could not
    /// be written.
    Unsendable(Disposition),
}

/// The outcome of one round: what to send, and whether to stop.
#[derive(Debug, PartialEq, Eq)]
pub struct Step {
    pub event: StepEvent,
    /// The frames to send: the recipient's identity, then the payload.
    pub frames: Option<Vec<Vec<u8>>>,
    pub stop: bool,
}

/// View of a `Step`.
pub struct StepView {
    pub event: StepEvent,
    pub frames: Option<Seq<Seq<u8>>>,
    pub stop: bool,
}

impl View for Step {
    type V = StepView;

    open spec fn view(&self) -> StepView {
        StepView {
            event: self.event,
            frames: match self.frames {
                Some(frames) => Some(frames.deep_view()),
                None => None,
            },
            stop: self.stop,
        }
    }
}

/// The frames in which an outbound message travels, where it can be
/// written.
pub open spec fn frames_of(outbound: Option<OutboundView>) -> Option<Seq<Seq<u8>>> {
    match outbound {
        Some(message) => match encode_spec(message.envelope) {
            Some(payload) => Some(seq![encode_utf8(message.recipient), payload]),
            None => None,
        },
        None => None,
    }
}

/// The outcome of a round in which the verdict was `verdict`.
pub open spec fn step_of(verdict: VerdictView) -> StepView {
    let frames = frames_of(verdict.outbound);
    StepView {
        event: if verdict.outbound is Some && frames is None {
            StepEvent::Unsendable(verdict.disposition)
        } else {
            StepEvent::Dispatched(verdict.disposition)
        },
        frames,
        stop: verdict.disposition == Disposition::ShutdownRequested,
    }
}

/// One round of the loop at time `now`: what cannot be read is dropped and
/// changes nothing; what can be read is dispatched.
pub open spec fn step_spec(clients: Clients, frames: Seq<Seq<u8>>, now: Seq<char>) -> (
    Clients,
    StepView,
) {
    match decode_frames_spec(frames) {
        Err(e) => (clients, StepView { event: StepEvent::Undecodable(e), frames: None, stop: false }),
        Ok((sender, envelope)) => {
            let (after, verdict) = dispatch_spec(clients, sender, envelope, now);
            (after, step_of(verdict))
        },
    }
}

/// The round took the registry from `before` to `after` with outcome
/// `step`, as `step_spec` says for time `now`.
pub open spec fn stepped(
    before: Clients,
    frames: Seq<Seq<u8>>,
    now: Seq<char>,
    after: Clients,
    step: StepView,
) -> bool {
    (after, step) == step_spec(before, frames, now)
}

/// The registry of a broker that has just started: `root`, registered at
/// `now`, and nobody else.
pub open spec fn seeded(now: Seq<char>) -> Clients {
    Map::<Seq<char>, ClientRecordView>::empty().insert(root(), fresh_record(root(), now))
}

/// The broker: the registry, and the rules applied to it.
pub struct Broker {
    registry: Registry,
}

impl Broker {
    /// The registered clients.
    pub closed spec fn clients(&self) -> Clients {
        self.registry@
    }

    /// A broker whose registry holds `root`, registered at `now`.
    pub fn seeded_at(now: Timestamp) -> (broker: Broker)
        ensures
            broker.clients() == seeded(now@),
    {
        let mut registry = Registry::new();
        let added = registry.try_register("root".to_owned(), now);
        assert(added is Ok);
        Broker { registry }
    }

    /// A broker whose registry holds `root`, registered now.
    pub fn new() -> (broker: Broker)
        ensures
            exists|now: Seq<char>| rfc3339_valid(now) && broker.clients() == #[trigger] seeded(now),
    {
        let now = Timestamp::now();
        let ghost stamp = now@;
        let broker = Broker::seeded_at(now);
        assert(rfc3339_valid(stamp) && broker.clients() == seeded(stamp));
        broker
    }

    /// The registry.
    pub fn registry(&self) -> (registry: &Registry)
        ensures
            registry@ == self.clients(),
    {
        &self.registry
    }

    /// One round of the loop on what was received, with `now` as the time.
    pub fn handle_at(&mut self, frames: &Vec<Vec<u8>>, now: Timestamp) -> (step: Step)
        ensures
            stepped(old(self).clients(), frames.deep_view(), now@, final(self).clients(), step@),
    {
        match decode_frames(frames) {
            Err(e) => Step { event: StepEvent::Undecodable(e), frames: None, stop: false },
            Ok((sender, envelope)) => {
                let verdict = dispatch_at(&mut self.registry, sender, envelope, now);
                let stop = verdict.stops_broker();
                match verdict.outbound {
                    None => Step {
                        event: StepEvent::Dispatched(verdict.disposition),
                        frames: None,
                        stop,
                    },
                    Some(message) => {
                        match encode_frames(message.recipient.as_str(), &message.envelope) {
                            Some(written) => Step {
                                event: StepEvent::Dispatched(verdict.disposition),
                                frames: Some(written),
                                stop,
                            },
                            None => Step {
                                event: StepEvent::Unsendable(verdict.disposition),
                                frames: None,
                                stop,
                            },
                        }
                    },
                }
            },
        }
    }

    /// One round of the loop on what was received, stamping what the broker
    /// writes with the current time.
    pub fn handle(&mut self, frames: &Vec<Vec<u8>>) -> (step: Step)
        ensures
            exists|now: Seq<char>|
                rfc3339_valid(now) && stepped(
                    old(self).clients(),
                    frames.deep_view(),
                    now,
                    final(self).clients(),
                    step@,
                ),
    {
        let now = Timestamp::now();
        let ghost stamp = now@;
        let step = self.handle_at(frames, now);
        assert(rfc3339_valid(stamp) && stepped(
            old(self).clients(),
            frames.deep_view(),
            stamp,
            self.clients(),
            step@,
        ));
        step
    }
}

// ---------------------------------------------------------------------
// What the rules imply
// ---------------------------------------------------------------------

proof fn lemma_commands()
    ensures
        "register"@ != "get_clients"@,
        "register"@ != "unregister"@,
        "get_clients"@ != "unregister"@,
{
    reveal_strlit("register");
    reveal_strlit("get_clients");
    reveal_strlit("unregister");
    assert("register"@.len() == 8);
    assert("get_clients"@.len() == 11);
    assert("unregister"@.len() == 10);
}

/// A client's request with command `command`.
pub open spec fn is_client_command(envelope: ProtocolsView, command: Seq<char>) -> bool {
    envelope matches ProtocolsView::CPType(ContactProtocolView::ClientControl { command: c, .. })
        && c == command
}

/// Registering is accepted once: an identity that is not registered gets
/// `ACCEPTED`, echoing its request, and is registered from then on; its next
/// request to register gets `REJECTED`, "multiple registry", and changes
/// nothing.
pub proof fn lemma_register_twice(
    clients: Clients,
    id: Seq<char>,
    first: ProtocolsView,
    t1: Seq<char>,
    second: ProtocolsView,
    t2: Seq<char>,
)
    requires
        is_register(first),
        is_register(second),
        !clients.dom().contains(id),
    ensures
        ({
            let (once, accepted) = dispatch_spec(clients, id, first, t1);
            let (twice, rejected) = dispatch_spec(once, id, second, t2);
            &&& once == clients.insert(id, fresh_record(id, t1))
            &&& accepted == sending(
                Disposition::Registered,
                id,
                reply(
                    MsgStatus::ACCEPTED,
                    "register"@,
                    first->CPType_0->ClientControl_cmd_args,
                    t1,
                ),
            )
            &&& twice == once
            &&& rejected == sending(
                Disposition::DuplicateRegistration,
                id,
                reply(MsgStatus::REJECTED, "multiple registry"@, None, t2),
            )
        }),
{
}

/// A registered identity stays registered, whatever arrives and from
/// whomever, until it asks to be unregistered itself. So a request to
/// register is rejected however long after the first it comes.
pub proof fn lemma_registration_lasts(
    clients: Clients,
    id: Seq<char>,
    sender: Seq<char>,
    envelope: ProtocolsView,
    now: Seq<char>,
)
    requires
        clients.dom().contains(id),
        !(sender == id && is_client_command(envelope, "unregister"@)),
    ensures
        dispatch_spec(clients, sender, envelope, now).0.dom().contains(id),
        dispatch_spec(clients, sender, envelope, now).0[id] == clients[id],
{
}

/// A server command from anyone but `root` changes nothing: the registry
/// stays as it was and the broker goes on. A registered sender gets no
/// answer.
pub proof fn lemma_server_command_needs_root(
    clients: Clients,
    sender: Seq<char>,
    envelope: ProtocolsView,
    now: Seq<char>,
)
    requires
        sender != root(),
        envelope matches ProtocolsView::CPType(ContactProtocolView::ServerControl { .. }),
    ensures
        ({
            let (after, verdict) = dispatch_spec(clients, sender, envelope, now);
            &&& after == clients
            &&& verdict.disposition != Disposition::ShutdownRequested
            &&& clients.dom().contains(sender) ==> verdict == silent(Disposition::Unauthorized)
        }),
{
}

/// `shutdown` from `root` stops the broker. (`root` is registered when the
/// broker starts; the rule holds for as long as it is.)
pub proof fn lemma_root_shutdown(clients: Clients, envelope: ProtocolsView, now: Seq<char>)
    requires
        clients.dom().contains(root()),
        envelope matches ProtocolsView::CPType(ContactProtocolView::ServerControl { command, .. })
            && command == "shutdown"@,
    ensures
        dispatch_spec(clients, root(), envelope, now) == (
            clients,
            silent(Disposition::ShutdownRequested),
        ),
        step_of(dispatch_spec(clients, root(), envelope, now).1).stop,
{
}

/// A message from a registered sender to a registered target goes to the
/// target, as a notification that names the sender, and nothing goes to the
/// sender; a message to a target that is not registered goes nowhere, and
/// the sender gets `FAILED`, "no such target". Either way exactly one message
/// is sent and the registry stays as it was.
pub proof fn lemma_user_message_routed(
    clients: Clients,
    sender: Seq<char>,
    envelope: ProtocolsView,
    now: Seq<char>,
)
    requires
        clients.dom().contains(sender),
        envelope matches ProtocolsView::CPType(ContactProtocolView::User2UserMsg { .. }),
    ensures
        ({
            let target = envelope->CPType_0->User2UserMsg_target;
            let content = envelope->CPType_0->User2UserMsg_content;
            let (after, verdict) = dispatch_spec(clients, sender, envelope, now);
            &&& after == clients
            &&& clients.dom().contains(target) ==> verdict == sending(
                Disposition::Delivered,
                target,
                ProtocolsView::NPType(NotifyProtocolView::MsgFromUser { sender, content }),
            )
            &&& !clients.dom().contains(target) ==> verdict == sending(
                Disposition::NoSuchTarget,
                sender,
                reply(MsgStatus::FAILED, "no such target"@, None, now),
            )
        }),
{
}

/// Whatever an identity that is not registered sends, other than a request
/// to register, is dropped: the registry stays as it was, nothing is
/// delivered, the broker goes on, and the sender gets `REJECTED`, "register".
pub proof fn lemma_unregistered_gate(
    clients: Clients,
    sender: Seq<char>,
    envelope: ProtocolsView,
    now: Seq<char>,
)
    requires
        !clients.dom().contains(sender),
        !is_register(envelope),
    ensures
        dispatch_spec(clients, sender, envelope, now) == (
            clients,
            sending(
                Disposition::NotRegistered,
                sender,
                reply(MsgStatus::REJECTED, "register"@, None, now),
            ),
        ),
{
}

/// `get_clients` from a registered sender is answered with the list of
/// the identities that are registered when it is handled: each of them once,
/// in ascending order, the sender among them, and `root` too while it is
/// registered. Nothing else is in the list, and the registry stays as it
/// was.
pub proof fn lemma_list_snapshot(
    clients: Clients,
    sender: Seq<char>,
    envelope: ProtocolsView,
    now: Seq<char>,
)
    requires
        clients.dom().finite(),
        clients.dom().contains(sender),
        is_client_command(envelope, "get_clients"@),
    ensures
        ({
            let ids = listing(clients.dom());
            &&& dispatch_spec(clients, sender, envelope, now) == (
                clients,
                sending(
                    Disposition::Listed,
                    sender,
                    reply(MsgStatus::ACCEPTED, "get_clients"@, Some(names_payload(ids)), now),
                ),
            )
            &&& lists(ids, clients.dom())
            &&& forall|id: Seq<char>| clients.dom().contains(id) <==> ids.contains(id)
            &&& ids.contains(sender)
            &&& clients.dom().contains(root()) ==> ids.contains(root())
            &&& ids.no_duplicates()
            &&& ids.len() == clients.dom().len()
        }),
{
    lemma_commands();
    lemma_finite_set_listed(clients.dom());
    let ids = listing(clients.dom());
    assert forall|i: int, j: int| 0 <= i < ids.len() && 0 <= j < ids.len() && i != j implies ids[i]
        != ids[j] by {
        if i < j {
            lemma_str_lt_asymmetric(ids[i], ids[j]);
        } else {
            lemma_str_lt_asymmetric(ids[j], ids[i]);
        }
    }
}

/// Every registry that the broker can come to is finite: the rules add at
/// most the sender.
pub proof fn lemma_registry_stays_finite(
    clients: Clients,
    sender: Seq<char>,
    envelope: ProtocolsView,
    now: Seq<char>,
)
    requires
        clients.dom().finite(),
    ensures
        dispatch_spec(clients, sender, envelope, now).0.dom().finite(),
        seeded(now).dom().finite(),
{
}

/// Unregistering removes the sender and nobody else, and is not answered.
pub proof fn lemma_unregister(
    clients: Clients,
    sender: Seq<char>,
    envelope: ProtocolsView,
    now: Seq<char>,
)
    requires
        clients.dom().contains(sender),
        is_client_command(envelope, "unregister"@),
    ensures
        dispatch_spec(clients, sender, envelope, now) == (
            clients.remove(sender),
            silent(Disposition::Unregistered),
        ),
{
    lemma_commands();
}

} // verus!
