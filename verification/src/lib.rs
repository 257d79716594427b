//! Codec for the slow-path input event messages of a remote-desktop session:
//! typed messages from untrusted bytes, and bytes from typed messages.
//!
//! - [`wire`] holds the little-endian integer fields that every message is
//!   made of.
//! - [`codec`] holds the contract that every message type meets: decode,
//!   encode and an exact length, with the laws that relate them.
//! - [`input`] holds the messages: the payload of each kind of event, the
//!   event as a tagged union of them, and the counted sequence of events.

pub mod codec;
pub mod input;
pub mod wire;

pub use codec::{decode, reports, Parsed, PduParsing};
