//! Negotiation of a direct peer-to-peer data channel between two participants
//! through a signaling relay.
//!
//! The engine in [`engine`] owns one session. Its surroundings hand it every
//! event (a text from the relay, a trigger or a completion of the peer
//! connection, a request of the local user) and perform the actions it
//! returns. What the engine does on each event is the transition function of
//! [`session`]; [`laws`] proves what holds of every run of it. The envelopes
//! of the relay are the types of [`message`]; [`codec`] gives them their wire
//! form over the JSON trees of [`json`], whose text form is `serde_json`'s.

pub mod buffer;
pub mod codec;
pub mod engine;
pub mod json;
pub mod laws;
pub mod message;
pub mod session;
