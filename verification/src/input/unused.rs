//! The unused event: six bytes that carry nothing.

use crate::codec::{Parsed, PduParsing};
use crate::input::InputEventError;
use crate::wire::{read_u16_le, read_u32_le, write_u16_le, write_u32_le};
use vstd::prelude::*;

verus! {

/// An unused event.
#[derive(Debug, Clone, Copy, PartialEq, Eq)]
pub struct UnusedPdu;

impl View for UnusedPdu {
    type V = UnusedPdu;

    open spec fn view(&self) -> UnusedPdu {
        *self
    }
}

impl PduParsing for UnusedPdu {
    open spec fn valid(&self) -> bool {
        true
    }

    /// Six bytes of padding.
    open spec fn wire(&self) -> Seq<u8> {
        seq![0u8, 0u8, 0u8, 0u8, 0u8, 0u8]
    }

    open spec fn wire_len(&self) -> nat {
        6
    }

    open spec fn parse(bytes: Seq<u8>) -> Parsed<UnusedPdu> {
        if bytes.len() < 6 {
            Parsed::Truncated
        } else {
            Parsed::Value { value: UnusedPdu, consumed: 6 }
        }
    }

    fn from_buffer(stream: &mut &[u8]) -> (r: Result<Self, InputEventError>) {
        let _padding = match read_u32_le(stream) {
            Ok(v) => v,
            Err(e) => return Err(InputEventError::IOError(e)),
        };
        let _padding = match read_u16_le(stream) {
            Ok(v) => v,
            Err(e) => return Err(InputEventError::IOError(e)),
        };
        Ok(UnusedPdu)
    }

    fn to_buffer(&self, stream: &mut Vec<u8>) -> (r: Result<(), InputEventError>) {
        match write_u32_le(stream, 0) {
            Ok(()) => {},
            Err(e) => return Err(InputEventError::IOError(e)),
        }
        match write_u16_le(stream, 0) {
            Ok(()) => {},
            Err(e) => return Err(InputEventError::IOError(e)),
        }
        Ok(())
    }

    fn buffer_length(&self) -> (n: usize) {
        6
    }

    proof fn lemma_wire_len(&self) {
    }

    proof fn lemma_round_trip(&self, rest: Seq<u8>) {
    }

    proof fn lemma_truncated_prefix(&self, k: int) {
    }
}

} // verus!
