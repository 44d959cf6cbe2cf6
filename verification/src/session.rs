//! The per-connection endpoint: handshake state machine, peer binding, and
//! liveness decisions.
//!
//! Each open connection owns one [`WsSession`].  Inbound transport events and
//! decoded commands are folded through a step function that yields the next
//! state and the action the connection layer must perform (forward a request
//! to the registry, answer a ping, or close).  Endpoint state is only ever
//! touched by its own connection, so no locking is involved here.

use vstd::prelude::*;

use crate::ident::identity_of_str;
use crate::ident::parse_identity;
use crate::message::Command;
use crate::server::delivery;
use crate::server::route_deliveries;
use crate::server::Ack;
use crate::server::ClientMessage;
use crate::server::ConnectionHandle;
use crate::server::Disconnect;
use crate::server::Join;
use crate::server::Message;
use crate::server::ServerMessage;
use crate::server::Syn;
use crate::server::SynAck;

verus! {

/// How often the connection layer polls the liveness decision, in
/// milliseconds.
pub const HEARTBEAT_INTERVAL_MS: u64 = 5000;

/// How long a connection may stay silent before the liveness decision closes
/// it, in milliseconds.
pub const TIMEOUT_MS: u64 = 10000;

/// Where a connection stands in the three-step rendezvous.
#[derive(Debug, Clone, Copy, PartialEq, Eq, Structural)]
pub enum HandshakePhase {
    /// No peer bound; offers may be sent or received.
    Idle,
    /// This side issued an offer and waits for the counter.
    OfferSent,
    /// The peer identity is fixed; chat relay is active.
    Bound,
}

/// An inbound transport-level event, as plain values.
#[derive(Debug, Clone, PartialEq, Eq)]
pub enum ClientEvent {
    /// A text frame, already decoded (an undecodable frame arrives as
    /// `Command::Unknown`).
    Command(Command),
    /// A ping frame with its payload; must be answered.
    Ping(Vec<u8>),
    /// A pong frame answering our ping.
    Pong,
    /// A binary frame: unsupported, connection-fatal.
    Binary,
    /// A continuation frame: unsupported, connection-fatal.
    Continuation,
    /// A close frame from the client.
    Close,
    /// A no-op frame.
    Nop,
    /// A transport read error: connection-fatal.
    TransportError,
}

/// A request the endpoint asks the connection layer to forward to the
/// registry.
#[derive(Debug, Clone, PartialEq, Eq)]
pub enum RegistryRequest {
    Syn(Syn),
    SynAck(SynAck),
    Ack(Ack),
    Join(Join),
    ClientMessage(ClientMessage),
}

/// What the connection layer must do after an event is processed.
#[derive(Debug, Clone, PartialEq, Eq)]
pub enum SessionAction {
    /// Nothing: the event was a no-op.
    Ignore,
    /// Forward this request to the registry.
    ToServer(RegistryRequest),
    /// Answer the ping with a pong carrying the same payload.
    Pong(Vec<u8>),
    /// Echo the close frame and tear the connection down.
    CloseEcho,
    /// Tear the connection down without an echo.
    Stop,
}

/// The liveness decision.
#[derive(Debug, Clone, Copy, PartialEq, Eq, Structural)]
pub enum HeartbeatAction {
    /// The connection is live: probe it again.
    Ping,
    /// The timeout passed with no sign of life: close and deregister.
    Close,
}

/// Per-connection endpoint state.  `id` is the registry-assigned identity
/// (zero until registration completes), `recipient` the currently bound peer
/// (zero when unset — the sentinel never matches a live registration, so
/// routing to it reports a miss), and `heartbeat` the time of the last sign
/// of life, in milliseconds of the connection layer's monotonic clock.
#[derive(Debug, Clone, PartialEq, Eq)]
pub struct WsSession {
    pub id: usize,
    pub name: Option<String>,
    pub heartbeat: u64,
    pub recipient: usize,
    pub phase: HandshakePhase,
}

/// The connection was silent for longer than the timeout.
pub open spec fn heartbeat_expired(last: u64, now: u64) -> bool {
    now >= last && now - last > TIMEOUT_MS
}

/// The state and registry request a decoded client command leads to.
pub open spec fn session_command_step(s: WsSession, cmd: Command) -> (WsSession, SessionAction) {
    match cmd {
        Command::Message { message } => (
            s,
            SessionAction::ToServer(
                RegistryRequest::ClientMessage(
                    ClientMessage { sender: s.id, msg: message, recipient: s.recipient },
                ),
            ),
        ),
        Command::Syn { inviterKey, recipient } => (
            WsSession { phase: HandshakePhase::OfferSent, ..s },
            SessionAction::ToServer(
                RegistryRequest::Syn(
                    Syn { id: s.id, inviterKey, recipient: identity_of_str(recipient@) },
                ),
            ),
        ),
        Command::SynAck { inviterKey, recipientKey, recipient } => {
            let rid = identity_of_str(recipient@);
            (
                WsSession { recipient: rid, phase: HandshakePhase::Bound, ..s },
                SessionAction::ToServer(
                    RegistryRequest::SynAck(
                        SynAck { id: s.id, inviterKey, recipientKey, recipient: rid },
                    ),
                ),
            )
        },
        Command::Ack { recipientKey, recipient } => {
            let rid = identity_of_str(recipient@);
            (
                WsSession { recipient: rid, phase: HandshakePhase::Bound, ..s },
                SessionAction::ToServer(
                    RegistryRequest::Ack(Ack { id: s.id, recipientKey, recipient: rid }),
                ),
            )
        },
        Command::Join { recipient } => (
            WsSession { recipient, phase: HandshakePhase::Bound, ..s },
            SessionAction::ToServer(RegistryRequest::Join(Join { id: s.id, recipient })),
        ),
        Command::Unknown => (s, SessionAction::Ignore),
    }
}

/// The state and action any inbound transport event leads to.
pub open spec fn session_event_step(s: WsSession, ev: ClientEvent, now: u64) -> (
    WsSession,
    SessionAction,
) {
    match ev {
        ClientEvent::Command(cmd) => session_command_step(s, cmd),
        ClientEvent::Ping(payload) => (
            WsSession { heartbeat: now, ..s },
            SessionAction::Pong(payload),
        ),
        ClientEvent::Pong => (WsSession { heartbeat: now, ..s }, SessionAction::Ignore),
        ClientEvent::Binary => (s, SessionAction::Stop),
        ClientEvent::Continuation => (s, SessionAction::Stop),
        ClientEvent::Close => (s, SessionAction::CloseEcho),
        ClientEvent::Nop => (s, SessionAction::Ignore),
        ClientEvent::TransportError => (s, SessionAction::Stop),
    }
}

/// The state and reply an inbound routed envelope leads to: a counter-offer
/// that arrives while this side's own offer is pending binds the sender as
/// peer and produces the confirmation to route back; every other envelope
/// leaves the state alone.
pub open spec fn session_envelope_step(s: WsSession, env: ServerMessage) -> (
    WsSession,
    Option<Ack>,
) {
    match env.message {
        Message::SynAck { recipientKey, .. } => {
            if s.phase is OfferSent {
                (
                    WsSession { recipient: env.sender, phase: HandshakePhase::Bound, ..s },
                    Some(Ack { id: s.id, recipientKey, recipient: env.sender }),
                )
            } else {
                (s, None)
            }
        },
        _ => (s, None),
    }
}

impl WsSession {
    /// A session for a connection that has just opened at time `now`: no
    /// identity yet, no peer, handshake idle.
    pub fn new(now: u64) -> (s: Self)
        ensures
            s == (WsSession {
                id: 0,
                name: None,
                heartbeat: now,
                recipient: 0,
                phase: HandshakePhase::Idle,
            }),
    {
        WsSession { id: 0, name: None, heartbeat: now, recipient: 0, phase: HandshakePhase::Idle }
    }

    /// Record the identity the registry assigned when the connection
    /// registered.
    pub fn started(&mut self, id: usize)
        ensures
            *final(self) == (WsSession { id, ..*old(self) }),
    {
        self.id = id;
    }

    /// The request to hand the registry when the connection stops: deregister
    /// this session's identity.
    pub fn stopping(&self) -> (r: Disconnect)
        ensures
            r == (Disconnect { id: self.id }),
    {
        Disconnect { id: self.id }
    }

    /// The liveness decision at poll time `now`: close a connection whose
    /// last sign of life lies longer than the timeout in the past, otherwise
    /// probe it again.
    pub fn heartbeat(&self, now: u64) -> (r: HeartbeatAction)
        ensures
            r == (if heartbeat_expired(self.heartbeat, now) {
                HeartbeatAction::Close
            } else {
                HeartbeatAction::Ping
            }),
    {
        if now >= self.heartbeat && now - self.heartbeat > TIMEOUT_MS {
            HeartbeatAction::Close
        } else {
            HeartbeatAction::Ping
        }
    }

    /// Build the offer request for `recipient` and move to OfferSent.
    pub fn send_syn(&mut self, recipient: usize, inviter_key: String) -> (r: Syn)
        ensures
            *final(self) == (WsSession { phase: HandshakePhase::OfferSent, ..*old(self) }),
            r == (Syn { id: old(self).id, inviterKey: inviter_key, recipient }),
    {
        self.phase = HandshakePhase::OfferSent;
        Syn { id: self.id, inviterKey: inviter_key, recipient }
    }

    /// Build the counter-offer request for `recipient`, binding it as peer.
    pub fn send_synack(&mut self, inviter_key: String, recipient_key: String, recipient: usize) -> (r: SynAck)
        ensures
            *final(self) == (WsSession {
                recipient,
                phase: HandshakePhase::Bound,
                ..*old(self)
            }),
            r == (SynAck {
                id: old(self).id,
                inviterKey: inviter_key,
                recipientKey: recipient_key,
                recipient,
            }),
    {
        self.recipient = recipient;
        self.phase = HandshakePhase::Bound;
        SynAck {
            id: self.id,
            inviterKey: inviter_key,
            recipientKey: recipient_key,
            recipient,
        }
    }

    /// Build the confirmation request for `recipient`, binding it as peer.
    pub fn send_ack(&mut self, recipient_key: String, recipient: usize) -> (r: Ack)
        ensures
            *final(self) == (WsSession {
                recipient,
                phase: HandshakePhase::Bound,
                ..*old(self)
            }),
            r == (Ack { id: old(self).id, recipientKey: recipient_key, recipient }),
    {
        self.recipient = recipient;
        self.phase = HandshakePhase::Bound;
        Ack { id: self.id, recipientKey: recipient_key, recipient }
    }

    /// Build the chat-relay request for the currently bound peer.  With no
    /// peer bound the target is the zero sentinel, which never matches a live
    /// registration, so the registry reports a miss.
    pub fn send_message(&self, message: String) -> (r: ClientMessage)
        ensures
            r == (ClientMessage {
                sender: self.id,
                msg: message,
                recipient: self.recipient,
            }),
    {
        ClientMessage { sender: self.id, msg: message, recipient: self.recipient }
    }

    /// Process one decoded client command: step the handshake state and
    /// produce the action it calls for.
    pub fn handle_command(&mut self, cmd: Command) -> (r: SessionAction)
        ensures
            (*final(self), r) == session_command_step(*old(self), cmd),
    {
        match cmd {
            Command::Message { message } => {
                let req = self.send_message(message);
                SessionAction::ToServer(RegistryRequest::ClientMessage(req))
            },
            Command::Syn { inviterKey, recipient } => {
                let rid = parse_identity(recipient.as_str());
                let req = self.send_syn(rid, inviterKey);
                SessionAction::ToServer(RegistryRequest::Syn(req))
            },
            Command::SynAck { inviterKey, recipientKey, recipient } => {
                let rid = parse_identity(recipient.as_str());
                let req = self.send_synack(inviterKey, recipientKey, rid);
                SessionAction::ToServer(RegistryRequest::SynAck(req))
            },
            Command::Ack { recipientKey, recipient } => {
                let rid = parse_identity(recipient.as_str());
                let req = self.send_ack(recipientKey, rid);
                SessionAction::ToServer(RegistryRequest::Ack(req))
            },
            Command::Join { recipient } => {
                self.recipient = recipient;
                self.phase = HandshakePhase::Bound;
                SessionAction::ToServer(RegistryRequest::Join(Join { id: self.id, recipient }))
            },
            Command::Unknown => SessionAction::Ignore,
        }
    }

    /// Process one inbound transport event: decoded commands step the
    /// handshake, pings and pongs refresh the liveness timestamp, unsupported
    /// and failed frames stop the connection.
    pub fn handle_event(&mut self, ev: ClientEvent, now: u64) -> (r: SessionAction)
        ensures
            (*final(self), r) == session_event_step(*old(self), ev, now),
    {
        match ev {
            ClientEvent::Command(cmd) => self.handle_command(cmd),
            ClientEvent::Ping(payload) => {
                self.heartbeat = now;
                SessionAction::Pong(payload)
            },
            ClientEvent::Pong => {
                self.heartbeat = now;
                SessionAction::Ignore
            },
            ClientEvent::Binary => SessionAction::Stop,
            ClientEvent::Continuation => SessionAction::Stop,
            ClientEvent::Close => SessionAction::CloseEcho,
            ClientEvent::Nop => SessionAction::Ignore,
            ClientEvent::TransportError => SessionAction::Stop,
        }
    }

    /// Process one inbound routed envelope.  The envelope itself is returned
    /// for verbatim forwarding to the client; a counter-offer that completes
    /// this side's pending offer additionally binds the peer and yields the
    /// confirmation request to route back.
    pub fn handle_envelope(&mut self, env: ServerMessage) -> (r: (ServerMessage, Option<Ack>))
        ensures
            r.0 == env,
            (*final(self), r.1) == session_envelope_step(*old(self), env),
    {
        let reply: Option<Ack> = match &env.message {
            Message::SynAck { recipientKey, .. } => {
                if self.phase == HandshakePhase::OfferSent {
                    let key = recipientKey.clone();
                    self.recipient = env.sender;
                    self.phase = HandshakePhase::Bound;
                    Some(Ack { id: self.id, recipientKey: key, recipient: env.sender })
                } else {
                    None
                }
            },
            _ => None,
        };
        (env, reply)
    }
}

/// Law: the handshake happy path binds both sides to each other.  With A and
/// B both live and idle, A's offer to B leaves A in OfferSent; B's counter
/// binds B to A; the routed counter reaches A's handle, and A's processing of
/// it binds A to B and produces the confirmation addressed back to B — both
/// sides end Bound with mutual peer identities.
pub proof fn lemma_handshake_happy_path(
    t: Map<usize, ConnectionHandle>,
    a: WsSession,
    b: WsSession,
    inviter_key: String,
    recipient_key: String,
    a_str: String,
    b_str: String,
)
    requires
        t.contains_key(a.id),
        t.contains_key(b.id),
        identity_of_str(a_str@) == a.id,
        identity_of_str(b_str@) == b.id,
        a.phase is Idle,
        b.phase is Idle,
    ensures
        ({
            let step_a = session_command_step(
                a,
                Command::Syn { inviterKey: inviter_key, recipient: b_str },
            );
            let offer = Message::Syn { inviterKey: inviter_key, recipient: b.id };
            let offer_deliveries = route_deliveries(t, a.id, b.id, offer, crate::server::Command::Syn);
            let step_b = session_command_step(
                b,
                Command::SynAck {
                    inviterKey: inviter_key,
                    recipientKey: recipient_key,
                    recipient: a_str,
                },
            );
            let counter = Message::SynAck {
                inviterKey: inviter_key,
                recipientKey: recipient_key,
                recipient: a.id,
            };
            let counter_deliveries = route_deliveries(
                t,
                b.id,
                a.id,
                counter,
                crate::server::Command::SynAck,
            );
            let step_confirm = session_envelope_step(step_a.0, counter_deliveries[0].message);
            &&& step_a.0.phase is OfferSent
            &&& step_a.1 == SessionAction::ToServer(
                RegistryRequest::Syn(Syn { id: a.id, inviterKey: inviter_key, recipient: b.id }),
            )
            &&& offer_deliveries == seq![
                delivery(t[b.id], a.id, offer, crate::server::Command::Syn),
            ]
            &&& step_b.0.phase is Bound
            &&& step_b.0.recipient == a.id
            &&& step_b.1 == SessionAction::ToServer(
                RegistryRequest::SynAck(
                    SynAck {
                        id: b.id,
                        inviterKey: inviter_key,
                        recipientKey: recipient_key,
                        recipient: a.id,
                    },
                ),
            )
            &&& counter_deliveries == seq![
                delivery(t[a.id], b.id, counter, crate::server::Command::SynAck),
            ]
            &&& step_confirm.0.phase is Bound
            &&& step_confirm.0.recipient == b.id
            &&& step_confirm.1 == Some(
                Ack { id: a.id, recipientKey: recipient_key, recipient: b.id },
            )
        }),
{
}

} // verus!
