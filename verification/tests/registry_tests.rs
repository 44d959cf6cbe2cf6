use chat_relay::server::{
    ChatServer, ClientMessage, Command, Connect, ConnectionHandle, Disconnect, Message,
};

fn handle(token: usize) -> ConnectionHandle {
    ConnectionHandle { token }
}

/// An identity that is certainly not registered in a registry holding only
/// the given identities.
fn missing_id(live: &[usize]) -> usize {
    let mut candidate: usize = 999;
    while live.contains(&candidate) || candidate == 0 {
        candidate += 1;
    }
    candidate
}

#[test]
fn register_assigns_nonzero_identity_and_greets() {
    let mut server = ChatServer::new();
    let ha = handle(1);
    let id = server.handle_connect(Connect { addr: ha });
    assert_ne!(id, 0);
    let out = server.take_outbox();
    assert_eq!(out.len(), 1);
    assert_eq!(out[0].handle, ha);
    assert_eq!(out[0].message.sender, id);
    assert_eq!(out[0].message.command, Command::StartedSession);
    assert_eq!(out[0].message.message, Message::SessionStarted { identity: id });
}

#[test]
fn register_twice_gives_distinct_identities() {
    let mut server = ChatServer::new();
    let id_a = server.handle_connect(Connect { addr: handle(1) });
    let id_b = server.handle_connect(Connect { addr: handle(2) });
    let id_c = server.handle_connect(Connect { addr: handle(3) });
    assert_ne!(id_a, id_b);
    assert_ne!(id_a, id_c);
    assert_ne!(id_b, id_c);
    assert_eq!(server.session_count(), 3);
}

#[test]
fn deregister_is_idempotent() {
    let mut server = ChatServer::new();
    let id_a = server.handle_connect(Connect { addr: handle(1) });
    let id_b = server.handle_connect(Connect { addr: handle(2) });
    server.take_outbox();
    server.handle_disconnect(Disconnect { id: id_a });
    assert_eq!(server.session_count(), 1);
    // a second disconnect of the same identity changes nothing and queues nothing
    server.handle_disconnect(Disconnect { id: id_a });
    assert_eq!(server.session_count(), 1);
    assert!(server.take_outbox().is_empty());
    // deregistering an identity that never registered is a silent no-op
    let ghost_id = missing_id(&[id_a, id_b]);
    server.handle_disconnect(Disconnect { id: ghost_id });
    assert_eq!(server.session_count(), 1);
    assert!(server.take_outbox().is_empty());
    assert!(server.recipient_exists(&id_b));
    assert!(!server.recipient_exists(&id_a));
}

#[test]
fn route_miss_reports_no_recipient_to_sender_only() {
    let mut server = ChatServer::new();
    let ha = handle(1);
    let id_a = server.handle_connect(Connect { addr: ha });
    let id_b = server.handle_connect(Connect { addr: handle(2) });
    server.take_outbox();
    let absent = missing_id(&[id_a, id_b]);
    let ok = server.route(
        id_a,
        absent,
        Message::Joined { from: id_a },
        Command::Join,
    );
    assert!(!ok);
    let out = server.take_outbox();
    assert_eq!(out.len(), 1);
    assert_eq!(out[0].handle, ha);
    assert_eq!(out[0].message.sender, id_a);
    assert_eq!(out[0].message.command, Command::NoRecipient);
    assert_eq!(out[0].message.message, Message::NoRecipient { recipient: absent });
}

#[test]
fn route_miss_with_departed_sender_queues_nothing() {
    let mut server = ChatServer::new();
    let id_a = server.handle_connect(Connect { addr: handle(1) });
    server.take_outbox();
    server.handle_disconnect(Disconnect { id: id_a });
    let absent = missing_id(&[id_a]);
    let ok = server.route(id_a, absent, Message::Joined { from: id_a }, Command::Join);
    assert!(!ok);
    assert!(server.take_outbox().is_empty());
}

#[test]
fn route_right_after_register_delivers_exactly_once() {
    let mut server = ChatServer::new();
    let id_a = server.handle_connect(Connect { addr: handle(1) });
    let hb = handle(2);
    let id_b = server.handle_connect(Connect { addr: hb });
    server.take_outbox();
    let ok = server.route(
        id_a,
        id_b,
        Message::ChatMessage { message: "hello".to_string(), timestamp: 3 },
        Command::ChatMessage,
    );
    assert!(ok);
    let out = server.take_outbox();
    assert_eq!(out.len(), 1);
    assert_eq!(out[0].handle, hb);
    assert_eq!(out[0].message.sender, id_a);
    assert_eq!(out[0].message.command, Command::ChatMessage);
    assert_eq!(
        out[0].message.message,
        Message::ChatMessage { message: "hello".to_string(), timestamp: 3 }
    );
}

#[test]
fn sequential_routes_arrive_in_call_order() {
    let mut server = ChatServer::new();
    let id_a = server.handle_connect(Connect { addr: handle(1) });
    let hb = handle(2);
    let id_b = server.handle_connect(Connect { addr: hb });
    server.take_outbox();
    for n in 0..5u128 {
        server.route(
            id_a,
            id_b,
            Message::ChatMessage { message: format!("m{}", n), timestamp: n },
            Command::ChatMessage,
        );
    }
    let out = server.take_outbox();
    assert_eq!(out.len(), 5);
    for n in 0..5usize {
        assert_eq!(out[n].handle, hb);
        assert_eq!(out[n].message.sender, id_a);
        assert_eq!(
            out[n].message.message,
            Message::ChatMessage { message: format!("m{}", n), timestamp: n as u128 }
        );
    }
}

#[test]
fn chat_relay_delivers_payload_and_ack() {
    let mut server = ChatServer::new();
    let ha = handle(1);
    let hb = handle(2);
    let id_a = server.handle_connect(Connect { addr: ha });
    let id_b = server.handle_connect(Connect { addr: hb });
    server.take_outbox();
    server.handle_client_message_at(
        ClientMessage { sender: id_a, msg: "hi".to_string(), recipient: id_b },
        7,
    );
    let out = server.take_outbox();
    assert_eq!(out.len(), 2);
    assert_eq!(out[0].handle, hb);
    assert_eq!(out[0].message.sender, id_a);
    assert_eq!(out[0].message.command, Command::ChatMessage);
    assert_eq!(
        out[0].message.message,
        Message::ChatMessage { message: "hi".to_string(), timestamp: 7 }
    );
    assert_eq!(out[1].handle, ha);
    assert_eq!(out[1].message.sender, id_a);
    assert_eq!(out[1].message.command, Command::MessageSent);
    assert_eq!(out[1].message.message, Message::MessageAck { text: "hi".to_string() });
}

#[test]
fn chat_relay_with_wall_clock_stamps_some_time() {
    let mut server = ChatServer::new();
    let ha = handle(1);
    let hb = handle(2);
    let id_a = server.handle_connect(Connect { addr: ha });
    let id_b = server.handle_connect(Connect { addr: hb });
    server.take_outbox();
    server.handle_client_message(ClientMessage {
        sender: id_a,
        msg: "hi".to_string(),
        recipient: id_b,
    });
    let out = server.take_outbox();
    assert_eq!(out.len(), 2);
    assert_eq!(out[0].handle, hb);
    match &out[0].message.message {
        Message::ChatMessage { message, .. } => assert_eq!(message, "hi"),
        other => panic!("expected a chat payload, got {:?}", other),
    }
    assert_eq!(out[1].message.message, Message::MessageAck { text: "hi".to_string() });
}

#[test]
fn chat_to_absent_recipient_reports_miss() {
    let mut server = ChatServer::new();
    let ha = handle(1);
    let id_a = server.handle_connect(Connect { addr: ha });
    server.take_outbox();
    let absent = missing_id(&[id_a]);
    server.handle_client_message_at(
        ClientMessage { sender: id_a, msg: "hi".to_string(), recipient: absent },
        7,
    );
    let out = server.take_outbox();
    assert_eq!(out.len(), 1);
    assert_eq!(out[0].handle, ha);
    assert_eq!(out[0].message.command, Command::NoRecipient);
    assert_eq!(out[0].message.message, Message::NoRecipient { recipient: absent });
}

#[test]
fn handshake_offer_to_absent_target_reports_miss() {
    let mut server = ChatServer::new();
    let ha = handle(1);
    let id_a = server.handle_connect(Connect { addr: ha });
    server.take_outbox();
    let absent = missing_id(&[id_a]);
    server.handle_syn(chat_relay::server::Syn {
        id: id_a,
        inviterKey: "key-a".to_string(),
        recipient: absent,
    });
    let out = server.take_outbox();
    assert_eq!(out.len(), 1);
    assert_eq!(out[0].handle, ha);
    assert_eq!(out[0].message.command, Command::NoRecipient);
    assert_eq!(out[0].message.message, Message::NoRecipient { recipient: absent });
}

#[test]
fn take_outbox_drains_everything() {
    let mut server = ChatServer::new();
    let id_a = server.handle_connect(Connect { addr: handle(1) });
    assert_eq!(server.take_outbox().len(), 1);
    assert!(server.take_outbox().is_empty());
    assert!(server.recipient_exists(&id_a));
}
