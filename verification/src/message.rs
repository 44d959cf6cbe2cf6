//! Client-side wire commands and session-level status replies.
//!
//! A client frame decodes to one [`Command`]; a frame that does not decode
//! becomes [`Command::Unknown`], which is processed as a no-op so a malformed
//! frame never tears the connection down.

use vstd::prelude::*;

verus! {

/// A command sent by a client over its connection, already decoded from the
/// wire frame.  Recipient identities of the handshake commands arrive as
/// decimal strings and are parsed with [`crate::ident::parse_identity`].
#[allow(non_snake_case)]
#[derive(Debug, Clone, PartialEq, Eq)]
pub enum Command {
    /// Propose a handshake to `recipient`, carrying the proposer's opaque key
    /// material.
    Syn { inviterKey: String, recipient: String },
    /// Counter a received offer: carry both sides' opaque key material back
    /// to the proposer named by `recipient`.
    SynAck { inviterKey: String, recipientKey: String, recipient: String },
    /// Confirm a received counter, echoing the counter key material to
    /// `recipient`.
    Ack { recipientKey: String, recipient: String },
    /// Relay a chat payload to the currently bound peer.
    Message { message: String },
    /// Bind `recipient` as the peer directly, skipping the handshake.
    Join { recipient: usize },
    /// An unrecognized frame; processed as a no-op.
    Unknown,
}

/// Outcome tag of a session-level status reply.
#[derive(Debug, Clone, PartialEq, Eq)]
enum Status {
    OK,
    NotFound,
}

/// A full client frame: one command.
#[derive(Debug, Clone, PartialEq, Eq)]
pub struct TextMessage {
    pub command: Command,
}

impl TextMessage {
    /// The frame an unparseable wire payload decodes to: an ignored
    /// `Unknown` command.
    pub fn default() -> (t: Self)
        ensures
            t.command is Unknown,
    {
        TextMessage { command: Command::Unknown }
    }
}

/// A session-level status reply with human-readable text.
#[derive(Debug, Clone, PartialEq, Eq)]
pub struct SessionMessage {
    status: Status,
    message: String,
}

impl SessionMessage {
    /// Whether the reply reports success.
    pub closed spec fn is_ok(&self) -> bool {
        self.status is OK
    }

    /// The text carried by the reply.
    pub closed spec fn text_view(&self) -> Seq<char> {
        self.message@
    }

    /// A successful reply carrying `msg`.
    pub fn ok(msg: String) -> (r: Self)
        ensures
            r.is_ok(),
            r.text_view() == msg@,
    {
        SessionMessage { status: Status::OK, message: msg }
    }

    /// A routing-miss reply carrying `msg`.
    pub fn no_recipient(msg: String) -> (r: Self)
        ensures
            !r.is_ok(),
            r.text_view() == msg@,
    {
        SessionMessage { status: Status::NotFound, message: msg }
    }

    /// Whether the reply reports success, for callers outside the proof.
    pub fn status_ok(&self) -> (b: bool)
        ensures
            b == self.is_ok(),
    {
        match self.status {
            Status::OK => true,
            Status::NotFound => false,
        }
    }

    /// The text carried by the reply, for callers outside the proof.
    pub fn text(&self) -> (t: &str)
        ensures
            t@ == self.text_view(),
    {
        self.message.as_str()
    }
}

} // verus!
