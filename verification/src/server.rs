//! The session registry: the single serialized owner of the mapping from
//! live identity to connection handle.
//!
//! All mutation and lookup of the table goes through the registry's
//! operations, and every envelope the registry decides to deliver is appended
//! to an ordered outbound trace (`outbox`).  The connection layer drains the
//! trace in order and performs the actual writes, so a slow connection never
//! stalls routing and the registry itself never blocks: delivery is
//! queue-and-return.  The trace order is the delivery order, which is what
//! gives per-sender-to-recipient ordering.

use std::collections::HashMap;
use vstd::prelude::*;
use vstd::set_lib::lemma_len_subset;

verus! {

broadcast use vstd::std_specs::hash::group_hash_axioms;

/// An opaque capability to push an envelope to exactly one live connection.
/// The registry holds handles only as table values and never inspects them;
/// the connection layer resolves the token to the real outbound channel.
#[derive(Debug, Clone, Copy, PartialEq, Eq, Hash, Structural)]
pub struct ConnectionHandle {
    pub token: usize,
}

/// The tag of an envelope pushed from the relay to a client.
#[derive(Debug, Clone, Copy, PartialEq, Eq, Structural)]
pub enum Command {
    Syn,
    SynAck,
    Ack,
    NoRecipient,
    ChatMessage,
    MessageSent,
    StartedSession,
    Success,
    Join,
}

/// The payload of an envelope.  Key-material fields are opaque strings that
/// the relay forwards without inspecting.
#[allow(non_snake_case)]
#[derive(Debug, Clone, PartialEq, Eq)]
pub enum Message {
    /// A handshake offer from the origin identity, with its key material.
    Syn { inviterKey: String, recipient: usize },
    /// A handshake counter-offer, with both sides' key material.
    SynAck { inviterKey: String, recipientKey: String, recipient: usize },
    /// A handshake confirmation, echoing the counter key material.
    Ack { recipientKey: String, recipient: usize },
    /// A relayed chat payload.
    ChatMessage { message: String, timestamp: u128 },
    /// A routing miss: `recipient` was not registered.
    NoRecipient { recipient: usize },
    /// Pushed to a connection right after it registers, naming its identity.
    SessionStarted { identity: usize },
    /// Acknowledges a relayed chat payload back to its sender.
    MessageAck { text: String },
    /// Notifies a connection that `from` bound it as peer directly.
    Joined { from: usize },
}

/// One envelope pushed from the relay to a client: the origin identity, the
/// payload, and the tag.
#[derive(Debug, Clone, PartialEq, Eq)]
pub struct ServerMessage {
    pub sender: usize,
    pub message: Message,
    pub command: Command,
}

/// One queued delivery: which handle receives which envelope.
#[derive(Debug, Clone, PartialEq, Eq)]
pub struct Delivery {
    pub handle: ConnectionHandle,
    pub message: ServerMessage,
}

/// A new connection asks to register, handing over its handle.
#[derive(Debug, Clone, Copy, PartialEq, Eq, Structural)]
pub struct Connect {
    pub addr: ConnectionHandle,
}

/// A connection asks to deregister its identity.
#[derive(Debug, Clone, Copy, PartialEq, Eq, Structural)]
pub struct Disconnect {
    pub id: usize,
}

/// Route a handshake offer from `id` to `recipient`.
#[allow(non_snake_case)]
#[derive(Debug, Clone, PartialEq, Eq)]
pub struct Syn {
    pub id: usize,
    pub inviterKey: String,
    pub recipient: usize,
}

/// Route a handshake counter-offer from `id` to `recipient`.
#[allow(non_snake_case)]
#[derive(Debug, Clone, PartialEq, Eq)]
pub struct SynAck {
    pub id: usize,
    pub inviterKey: String,
    pub recipientKey: String,
    pub recipient: usize,
}

/// Route a handshake confirmation from `id` to `recipient`.
#[allow(non_snake_case)]
#[derive(Debug, Clone, PartialEq, Eq)]
pub struct Ack {
    pub id: usize,
    pub recipientKey: String,
    pub recipient: usize,
}

/// Route a direct-join notification from `id` to `recipient`.
#[derive(Debug, Clone, Copy, PartialEq, Eq, Structural)]
pub struct Join {
    pub id: usize,
    pub recipient: usize,
}

/// Route a chat payload from `sender` to `recipient`.
#[derive(Debug, Clone, PartialEq, Eq)]
pub struct ClientMessage {
    pub sender: usize,
    pub msg: String,
    pub recipient: usize,
}

/// One envelope addressed to one handle.
pub open spec fn delivery(h: ConnectionHandle, sender: usize, m: Message, c: Command) -> Delivery {
    Delivery { handle: h, message: ServerMessage { sender, message: m, command: c } }
}

/// What a fire-and-forget send to `recipient` queues: the envelope if
/// `recipient` is live, nothing otherwise.
pub open spec fn direct_deliveries(
    t: Map<usize, ConnectionHandle>,
    recipient: usize,
    sender: usize,
    m: Message,
    c: Command,
) -> Seq<Delivery> {
    if t.contains_key(recipient) {
        seq![delivery(t[recipient], sender, m, c)]
    } else {
        Seq::empty()
    }
}

/// What reporting a routing miss to `sender` queues: one NoRecipient envelope
/// to the sender's own handle, if the sender itself is still live.
pub open spec fn no_recipient_deliveries(
    t: Map<usize, ConnectionHandle>,
    sender: usize,
    recipient: usize,
) -> Seq<Delivery> {
    direct_deliveries(t, sender, sender, Message::NoRecipient { recipient }, Command::NoRecipient)
}

/// What a routed envelope queues: the envelope to the target if the target is
/// live, and a NoRecipient report back to the sender otherwise.
pub open spec fn route_deliveries(
    t: Map<usize, ConnectionHandle>,
    from: usize,
    to: usize,
    m: Message,
    c: Command,
) -> Seq<Delivery> {
    if t.contains_key(to) {
        seq![delivery(t[to], from, m, c)]
    } else {
        no_recipient_deliveries(t, from, to)
    }
}

/// What relaying a chat payload queues: the payload to the recipient plus an
/// acknowledgement back to the sender when the recipient is live, and a
/// NoRecipient report when it is not.
pub open spec fn chat_deliveries(
    t: Map<usize, ConnectionHandle>,
    sender: usize,
    recipient: usize,
    text: String,
    ts: u128,
) -> Seq<Delivery> {
    if t.contains_key(recipient) {
        direct_deliveries(
            t,
            recipient,
            sender,
            Message::ChatMessage { message: text, timestamp: ts },
            Command::ChatMessage,
        ) + direct_deliveries(
            t,
            sender,
            sender,
            Message::MessageAck { text },
            Command::MessageSent,
        )
    } else {
        no_recipient_deliveries(t, sender, recipient)
    }
}

/// How many random draws registration makes before it falls back to a
/// deterministic sweep for a free identity.
const ID_SAMPLE_ATTEMPTS: usize = 8;

/// Relies on `rand::random` (rand 0.8): one value of `T` drawn from the
/// thread-local generator through the `Standard` distribution.  The draw
/// depends on generator state, so nothing is promised of the value.
pub assume_specification<T>[ rand::random::<T> ]() -> (r: T)
    where
        rand::distributions::Standard: rand::distributions::Distribution<T>,
;

/// Relies on `std::time::SystemTime` for the wall clock: milliseconds since
/// the Unix epoch, or zero when the clock reads before the epoch.  The value
/// depends on the clock, so nothing is promised of it.
#[verifier::external_body]
fn get_unix() -> (ms: u128) {
    std::time::SystemTime::now()
        .duration_since(std::time::UNIX_EPOCH)
        .unwrap_or(std::time::Duration::from_millis(0))
        .as_millis()
}

/// The set of identities from 1 through `m` has exactly `m` elements.
proof fn lemma_usize_range_card(m: usize)
    ensures
        Set::new(|k: usize| 1 <= k && k <= m).finite(),
        Set::new(|k: usize| 1 <= k && k <= m).len() == m,
    decreases m,
{
    let s = Set::new(|k: usize| 1 <= k && k <= m);
    if m == 0 {
        assert(s =~= Set::<usize>::empty());
    } else {
        let prev = (m - 1) as usize;
        lemma_usize_range_card(prev);
        let s0 = Set::new(|k: usize| 1 <= k && k <= prev);
        assert(!s0.contains(m));
        assert(s =~= s0.insert(m));
    }
}

/// The registry: the identity table and the ordered trace of queued
/// deliveries.
#[derive(Debug)]
pub struct ChatServer {
    sessions: HashMap<usize, ConnectionHandle>,
    outbox: Vec<Delivery>,
}

impl ChatServer {
    /// The identity table: which identities are live, and to which handle
    /// each one routes.
    pub closed spec fn table(&self) -> Map<usize, ConnectionHandle> {
        self.sessions@
    }

    /// The ordered trace of deliveries queued and not yet drained.
    pub closed spec fn trace(&self) -> Seq<Delivery> {
        self.outbox@
    }

    /// An empty registry: no live identity, nothing queued.
    pub fn new() -> (s: Self)
        ensures
            s.table() == Map::<usize, ConnectionHandle>::empty(),
            s.trace() == Seq::<Delivery>::empty(),
    {
        ChatServer { sessions: HashMap::new(), outbox: Vec::new() }
    }

    /// Pure lookup: whether `recipient` is currently registered.
    pub fn recipient_exists(&self, recipient: &usize) -> (b: bool)
        ensures
            b == self.table().contains_key(*recipient),
    {
        self.sessions.get(recipient).is_some()
    }

    /// How many identities are currently live.
    pub fn session_count(&self) -> (n: usize)
        ensures
            n as nat == self.table().dom().len(),
    {
        self.sessions.len()
    }

    /// Queue `m` for `recipient`'s handle, tagged with `sender` as origin;
    /// a missing recipient queues nothing (fire-and-forget).
    pub fn send_message(&mut self, recipient: usize, message: Message, sender: usize, command: Command)
        ensures
            final(self).table() == old(self).table(),
            final(self).trace() == old(self).trace() + direct_deliveries(
                old(self).table(),
                recipient,
                sender,
                message,
                command,
            ),
    {
        let ghost t = self.table();
        let ghost m0 = message;
        let handle_opt: Option<ConnectionHandle> = match self.sessions.get(&recipient) {
            Some(r) => Some(*r),
            None => None,
        };
        match handle_opt {
            Some(handle) => {
                self.outbox.push(Delivery {
                    handle,
                    message: ServerMessage { sender, message, command },
                });
                proof {
                    assert(self.outbox@ =~= old(self).outbox@ + direct_deliveries(
                        t,
                        recipient,
                        sender,
                        m0,
                        command,
                    ));
                }
            },
            None => {
                proof {
                    assert(self.outbox@ =~= old(self).outbox@ + direct_deliveries(
                        t,
                        recipient,
                        sender,
                        m0,
                        command,
                    ));
                }
            },
        }
    }

    /// Report a routing miss of `recipient` back to `sender`.
    pub fn send_no_recipient(&mut self, sender: usize, recipient: usize)
        ensures
            final(self).table() == old(self).table(),
            final(self).trace() == old(self).trace() + no_recipient_deliveries(
                old(self).table(),
                sender,
                recipient,
            ),
    {
        let message = Message::NoRecipient { recipient };
        self.send_message(sender, message, sender, Command::NoRecipient);
    }

    /// Route one envelope from `from` to `to`: deliver it to `to` when `to`
    /// is live, otherwise report the miss back to `from`.  Returns whether
    /// `to` was live.
    pub fn route(&mut self, from: usize, to: usize, message: Message, command: Command) -> (ok: bool)
        ensures
            final(self).table() == old(self).table(),
            ok == old(self).table().contains_key(to),
            final(self).trace() == old(self).trace() + route_deliveries(
                old(self).table(),
                from,
                to,
                message,
                command,
            ),
    {
        if self.recipient_exists(&to) {
            self.send_message(to, message, from, command);
            true
        } else {
            self.send_no_recipient(from, to);
            false
        }
    }

    /// An identity that is nonzero and not yet in the table: a bounded number
    /// of random draws, then a deterministic sweep, so that registration
    /// always terminates.
    fn fresh_identity(&self) -> (id: usize)
        requires
            self.table().dom().len() < usize::MAX,
        ensures
            id != 0,
            !self.table().contains_key(id),
    {
        let mut attempts: usize = 0;
        while attempts < ID_SAMPLE_ATTEMPTS
            invariant
                attempts <= ID_SAMPLE_ATTEMPTS,
            decreases ID_SAMPLE_ATTEMPTS - attempts,
        {
            let candidate = rand::random::<usize>();
            if candidate != 0 && !self.sessions.contains_key(&candidate) {
                return candidate;
            }
            attempts = attempts + 1;
        }
        // Every random draw collided: sweep from 1 upward.  The table has
        // fewer keys than there are candidates in 1 ..= len + 1, so the sweep
        // finds a free identity before running past len + 1.
        let n = self.sessions.len();
        let mut c: usize = 1;
        loop
            invariant
                1 <= c,
                c as int <= n as int + 1,
                forall|j: usize| 1 <= j < c ==> self.table().contains_key(j),
                n as nat == self.table().dom().len(),
                n < usize::MAX,
            decreases n as int + 1 - c as int,
        {
            if !self.sessions.contains_key(&c) {
                return c;
            }
            proof {
                if c as int == n as int + 1 {
                    let dom = self.table().dom();
                    let range = Set::new(|k: usize| 1 <= k && k <= c);
                    lemma_usize_range_card(c);
                    assert forall|k: usize| range.contains(k) implies dom.contains(k) by {
                        if k < c {
                            assert(self.table().contains_key(k));
                        } else {
                            assert(k == c);
                            assert(self.table().contains_key(c));
                        }
                    }
                    assert(range.subset_of(dom));
                    lemma_len_subset(range, dom);
                    assert(false);
                }
            }
            c = c + 1;
        }
    }

    /// Register a new connection: assign a fresh nonzero identity, insert the
    /// handle, and queue the SessionStarted envelope to that same handle
    /// before returning.
    pub fn handle_connect(&mut self, msg: Connect) -> (id: usize)
        requires
            old(self).table().dom().len() < usize::MAX,
        ensures
            id != 0,
            !old(self).table().contains_key(id),
            final(self).table() == old(self).table().insert(id, msg.addr),
            final(self).trace() == old(self).trace() + seq![
                delivery(
                    msg.addr,
                    id,
                    Message::SessionStarted { identity: id },
                    Command::StartedSession,
                ),
            ],
    {
        let id = self.fresh_identity();
        self.sessions.insert(id, msg.addr);
        self.outbox.push(Delivery {
            handle: msg.addr,
            message: ServerMessage {
                sender: id,
                message: Message::SessionStarted { identity: id },
                command: Command::StartedSession,
            },
        });
        proof {
            assert(self.outbox@ =~= old(self).outbox@ + seq![
                delivery(
                    msg.addr,
                    id,
                    Message::SessionStarted { identity: id },
                    Command::StartedSession,
                ),
            ]);
        }
        id
    }

    /// Deregister an identity.  An absent identity is a silent no-op, so a
    /// double disconnect never errors and queues nothing.
    pub fn handle_disconnect(&mut self, msg: Disconnect)
        ensures
            final(self).table() == old(self).table().remove(msg.id),
            final(self).trace() == old(self).trace(),
    {
        self.sessions.remove(&msg.id);
    }

    /// Route a handshake offer to its target.
    pub fn handle_syn(&mut self, msg: Syn)
        ensures
            final(self).table() == old(self).table(),
            final(self).trace() == old(self).trace() + route_deliveries(
                old(self).table(),
                msg.id,
                msg.recipient,
                Message::Syn { inviterKey: msg.inviterKey, recipient: msg.recipient },
                Command::Syn,
            ),
    {
        let Syn { id, inviterKey, recipient } = msg;
        let message = Message::Syn { inviterKey, recipient };
        self.route(id, recipient, message, Command::Syn);
    }

    /// Route a handshake counter-offer to its target.
    pub fn handle_synack(&mut self, msg: SynAck)
        ensures
            final(self).table() == old(self).table(),
            final(self).trace() == old(self).trace() + route_deliveries(
                old(self).table(),
                msg.id,
                msg.recipient,
                Message::SynAck {
                    inviterKey: msg.inviterKey,
                    recipientKey: msg.recipientKey,
                    recipient: msg.recipient,
                },
                Command::SynAck,
            ),
    {
        let SynAck { id, inviterKey, recipientKey, recipient } = msg;
        let message = Message::SynAck { inviterKey, recipientKey, recipient };
        self.route(id, recipient, message, Command::SynAck);
    }

    /// Route a handshake confirmation to its target.
    pub fn handle_ack(&mut self, msg: Ack)
        ensures
            final(self).table() == old(self).table(),
            final(self).trace() == old(self).trace() + route_deliveries(
                old(self).table(),
                msg.id,
                msg.recipient,
                Message::Ack { recipientKey: msg.recipientKey, recipient: msg.recipient },
                Command::Ack,
            ),
    {
        let Ack { id, recipientKey, recipient } = msg;
        let message = Message::Ack { recipientKey, recipient };
        self.route(id, recipient, message, Command::Ack);
    }

    /// Route a direct-join notification to its target.
    pub fn handle_join(&mut self, msg: Join)
        ensures
            final(self).table() == old(self).table(),
            final(self).trace() == old(self).trace() + route_deliveries(
                old(self).table(),
                msg.id,
                msg.recipient,
                Message::Joined { from: msg.id },
                Command::Join,
            ),
    {
        let message = Message::Joined { from: msg.id };
        self.route(msg.id, msg.recipient, message, Command::Join);
    }

    /// Relay a chat payload stamped `ts`: deliver it to the recipient and
    /// acknowledge to the sender when the recipient is live, otherwise report
    /// the miss to the sender.
    pub fn handle_client_message_at(&mut self, msg: ClientMessage, ts: u128)
        ensures
            final(self).table() == old(self).table(),
            final(self).trace() == old(self).trace() + chat_deliveries(
                old(self).table(),
                msg.sender,
                msg.recipient,
                msg.msg,
                ts,
            ),
    {
        let ClientMessage { sender, recipient, msg: text } = msg;
        if self.recipient_exists(&recipient) {
            let ack_text = text.clone();
            let message = Message::ChatMessage { message: text, timestamp: ts };
            self.send_message(recipient, message, sender, Command::ChatMessage);
            self.send_message(
                sender,
                Message::MessageAck { text: ack_text },
                sender,
                Command::MessageSent,
            );
            proof {
                assert(self.trace() =~= old(self).trace() + chat_deliveries(
                    old(self).table(),
                    sender,
                    recipient,
                    msg.msg,
                    ts,
                ));
            }
        } else {
            self.send_no_recipient(sender, recipient);
        }
    }

    /// Relay a chat payload stamped with the current wall-clock time.
    pub fn handle_client_message(&mut self, msg: ClientMessage)
        ensures
            final(self).table() == old(self).table(),
            exists|ts: u128|
                final(self).trace() == old(self).trace() + #[trigger] chat_deliveries(
                    old(self).table(),
                    msg.sender,
                    msg.recipient,
                    msg.msg,
                    ts,
                ),
    {
        let ghost m = msg;
        let ts = get_unix();
        self.handle_client_message_at(msg, ts);
        proof {
            assert(self.trace() == old(self).trace() + chat_deliveries(
                old(self).table(),
                m.sender,
                m.recipient,
                m.msg,
                ts,
            ));
        }
    }

    /// Drain the queued deliveries, in the order they were queued.
    pub fn take_outbox(&mut self) -> (r: Vec<Delivery>)
        ensures
            final(self).table() == old(self).table(),
            final(self).trace() == Seq::<Delivery>::empty(),
            r@ == old(self).trace(),
    {
        let mut r: Vec<Delivery> = Vec::new();
        core::mem::swap(&mut r, &mut self.outbox);
        proof {
            assert(self.outbox@ =~= Seq::<Delivery>::empty());
        }
        r
    }
}

/// Law: a freshly assigned identity differs from every identity live before
/// it and disturbs no existing registration, so simultaneously-live
/// identities stay pairwise distinct across any sequence of registrations.
pub proof fn lemma_register_keeps_identities_distinct(
    t: Map<usize, ConnectionHandle>,
    id: usize,
    h: ConnectionHandle,
)
    requires
        !t.contains_key(id),
    ensures
        t.insert(id, h).contains_key(id),
        t.insert(id, h)[id] == h,
        forall|j: usize| #[trigger] t.contains_key(j) ==> j != id && t.insert(id, h).contains_key(j)
            && t.insert(id, h)[j] == t[j],
{
}

/// Law: deregistration is idempotent.  Removing an identity twice is the same
/// as removing it once, and removing an identity that was never registered
/// leaves the table exactly as it was.
pub proof fn lemma_deregister_idempotent(t: Map<usize, ConnectionHandle>, id: usize)
    ensures
        t.remove(id).remove(id) == t.remove(id),
        !t.contains_key(id) ==> t.remove(id) == t,
{
    assert(t.remove(id).remove(id) =~= t.remove(id));
    if !t.contains_key(id) {
        assert(t.remove(id) =~= t);
    }
}

/// Law: routing to an identity that is not in the table queues exactly one
/// NoRecipient envelope naming the missing target, delivered to the sender's
/// own handle, and nothing anywhere else.
pub proof fn lemma_route_miss_reports_no_recipient(
    t: Map<usize, ConnectionHandle>,
    from: usize,
    to: usize,
    m: Message,
    c: Command,
)
    requires
        !t.contains_key(to),
        t.contains_key(from),
    ensures
        route_deliveries(t, from, to, m, c) == seq![
            delivery(t[from], from, Message::NoRecipient { recipient: to }, Command::NoRecipient),
        ],
{
}

/// Law: routing to an identity immediately after it registers queues exactly
/// one envelope, addressed to the just-registered handle and tagged with the
/// sender as origin.
pub proof fn lemma_route_after_register(
    t: Map<usize, ConnectionHandle>,
    id: usize,
    h: ConnectionHandle,
    from: usize,
    m: Message,
    c: Command,
)
    ensures
        route_deliveries(t.insert(id, h), from, id, m, c) == seq![delivery(h, from, m, c)],
{
}

/// The trace left by routing a sequence of payloads, one `route` call each,
/// from `from` to `to`, starting from `trace`.
pub open spec fn trace_after_routes(
    trace: Seq<Delivery>,
    t: Map<usize, ConnectionHandle>,
    from: usize,
    to: usize,
    payloads: Seq<Message>,
    c: Command,
) -> Seq<Delivery>
    decreases payloads.len(),
{
    if payloads.len() == 0 {
        trace
    } else {
        trace_after_routes(
            trace + route_deliveries(t, from, to, payloads.first(), c),
            t,
            from,
            to,
            payloads.drop_first(),
            c,
        )
    }
}

/// Law: any number of sequential routes from one sender to one live
/// recipient are observed at the recipient in call order — the trace gains
/// exactly one envelope per call, at consecutive positions, each carrying its
/// call's payload, and what was queued before is untouched.
pub proof fn lemma_routes_observed_in_call_order(
    trace: Seq<Delivery>,
    t: Map<usize, ConnectionHandle>,
    from: usize,
    to: usize,
    payloads: Seq<Message>,
    c: Command,
)
    requires
        t.contains_key(to),
    ensures
        ({
            let after = trace_after_routes(trace, t, from, to, payloads, c);
            &&& after.len() == trace.len() + payloads.len()
            &&& forall|i: int| 0 <= i < trace.len() ==> after[i] == trace[i]
            &&& forall|i: int|
                trace.len() <= i < after.len() ==> after[i] == delivery(
                    t[to],
                    from,
                    payloads[i - trace.len()],
                    c,
                )
        }),
    decreases payloads.len(),
{
    if payloads.len() > 0 {
        let first_step = trace + route_deliveries(t, from, to, payloads.first(), c);
        lemma_routes_observed_in_call_order(first_step, t, from, to, payloads.drop_first(), c);
        let after = trace_after_routes(trace, t, from, to, payloads, c);
        assert(first_step[trace.len() as int] == delivery(t[to], from, payloads.first(), c));
        assert forall|i: int| trace.len() <= i < after.len() implies after[i] == delivery(
            t[to],
            from,
            payloads[i - trace.len()],
            c,
        ) by {
            if i == trace.len() {
                assert(after[i] == first_step[i]);
            } else {
                assert(after[i] == delivery(t[to], from, payloads.drop_first()[i - first_step.len()], c));
                assert(payloads.drop_first()[i - first_step.len()] == payloads[i - trace.len()]);
            }
        }
    }
}

/// Law: once an identity deregisters, routing to it reports a miss — the
/// sender gets the NoRecipient envelope and the departed identity gets
/// nothing.
pub proof fn lemma_deregistered_unroutable(
    t: Map<usize, ConnectionHandle>,
    id: usize,
    from: usize,
    m: Message,
    c: Command,
)
    requires
        from != id,
        t.contains_key(from),
    ensures
        route_deliveries(t.remove(id), from, id, m, c) == seq![
            delivery(t[from], from, Message::NoRecipient { recipient: id }, Command::NoRecipient),
        ],
{
}

} // verus!
