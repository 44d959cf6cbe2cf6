//! A real-time message relay: clients register with a session registry,
//! receive a process-unique identity, and exchange point-to-point envelopes
//! and a three-step key-exchange handshake through it.  The registry owns the
//! identity-to-handle table and an ordered trace of outbound deliveries; the
//! per-connection session drives the handshake state machine and liveness
//! decisions.

pub mod ident;
pub mod message;
pub mod server;
pub mod session;
