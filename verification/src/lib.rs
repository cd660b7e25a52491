//! The Bolt protocol, as a client speaks it.
//!
//! The crate holds what the protocol lays down and nothing that moves bytes:
//!
//! - the values and messages, and the [`term::Term`] that each of them is on
//!   the wire ([`value`], [`message`], [`term`], [`dictionary`],
//!   [`accessors`], [`conversions`], [`duplicate`]);
//! - when two values are the same ([`same`], [`equality`]);
//! - the binary format: how a term is written, every integer and every
//!   length in its smallest form, and how bytes are read as a term
//!   ([`wire`], [`marker`], [`format`], [`encode`], [`decode`], [`fields`],
//!   [`structure`], [`catalog`], [`codec`], [`message_codec`],
//!   [`serialize`]);
//! - what holds of the format: reading gives back what was written
//!   ([`roundtrip`]), nothing is read that is shorter than what is written
//!   ([`minimal`]), and what is read is well formed ([`wellformed`]);
//! - the framing of a message into chunks, and its reverse ([`chunk`]);
//! - the handshake, the states of a session, and the session itself: which
//!   request may go out when, and what a response means ([`client`],
//!   [`state`], [`version`]);
//! - what a pool of connections has to decide ([`pool`]).
//!
//! A float is held as its IEEE 754 binary64 bit pattern throughout:
//! `f64::to_bits` and `f64::from_bits` lead there and back.

pub mod accessors;
pub mod catalog;
pub mod chunk;
pub mod client;
pub mod codec;
pub mod conversions;
pub mod decode;
pub mod dictionary;
pub mod duplicate;
pub mod encode;
pub mod equality;
pub mod error;
pub mod fields;
pub mod format;
pub mod marker;
pub mod message;
pub mod message_codec;
pub mod minimal;
pub mod pool;
pub mod roundtrip;
pub mod same;
pub mod serialize;
pub mod state;
pub mod structure;
pub mod term;
pub mod value;
pub mod version;
pub mod wellformed;
pub mod wire;
