//! The extended mouse event: the two extra buttons of a five-button mouse.

use crate::codec::{Parsed, PduParsing};
use crate::input::InputEventError;
use crate::wire::{lemma_mask_u16, read_u16_le, u16_bytes, u16_le, write_u16_le};
use vstd::prelude::*;

verus! {

/// Which extended button changed, and how.
#[derive(Debug, Clone, Copy, PartialEq, Eq)]
pub struct PointerXFlags {
    pub bits: u16,
}

impl PointerXFlags {
    /// The first extended button changed.
    pub const BUTTON1: u16 = 0x0001;

    /// The second extended button changed.
    pub const BUTTON2: u16 = 0x0002;

    /// The button that changed went down.
    pub const DOWN: u16 = 0x8000;

    /// Every bit that has a meaning.
    pub const ALL: u16 = 0x8003;

    /// No bit is set that has no meaning.
    pub open spec fn valid(self) -> bool {
        self.bits & Self::ALL == self.bits
    }

    /// Whether every bit of `other` is set in `self`.
    pub open spec fn spec_contains(self, other: u16) -> bool {
        self.bits & other == other
    }

    /// No flag is set.
    pub fn empty() -> (r: Self)
        ensures
            r.bits == 0,
            r.valid(),
    {
        proof {
            lemma_mask_u16(0, Self::ALL);
        }
        PointerXFlags { bits: 0 }
    }

    /// The flags of `bits`, without the bits that have no meaning.
    pub fn from_bits_truncate(bits: u16) -> (r: Self)
        ensures
            r.bits == bits & Self::ALL,
            r.valid(),
    {
        proof {
            lemma_mask_u16(bits, Self::ALL);
        }
        PointerXFlags { bits: bits & Self::ALL }
    }

    /// Whether every bit of `other` is set.
    pub fn contains(&self, other: u16) -> (r: bool)
        ensures
            r == self.spec_contains(other),
    {
        self.bits & other == other
    }
}

/// An extended button changed at a position.
#[derive(Debug, Clone, Copy, PartialEq, Eq)]
pub struct MouseXPdu {
    pub flags: PointerXFlags,
    pub x_position: u16,
    pub y_position: u16,
}

impl View for MouseXPdu {
    type V = MouseXPdu;

    open spec fn view(&self) -> MouseXPdu {
        *self
    }
}

impl PduParsing for MouseXPdu {
    open spec fn valid(&self) -> bool {
        self.flags.valid()
    }

    /// The flags, then the two coordinates.
    open spec fn wire(&self) -> Seq<u8> {
        u16_bytes(self.flags.bits) + u16_bytes(self.x_position) + u16_bytes(self.y_position)
    }

    open spec fn wire_len(&self) -> nat {
        6
    }

    open spec fn parse(bytes: Seq<u8>) -> Parsed<MouseXPdu> {
        if bytes.len() < 6 {
            Parsed::Truncated
        } else {
            Parsed::Value {
                value: MouseXPdu {
                    flags: PointerXFlags { bits: u16_le(bytes[0], bytes[1]) & PointerXFlags::ALL },
                    x_position: u16_le(bytes[2], bytes[3]),
                    y_position: u16_le(bytes[4], bytes[5]),
                },
                consumed: 6,
            }
        }
    }

    fn from_buffer(stream: &mut &[u8]) -> (r: Result<Self, InputEventError>) {
        let bits = match read_u16_le(stream) {
            Ok(v) => v,
            Err(e) => return Err(InputEventError::IOError(e)),
        };
        let x_position = match read_u16_le(stream) {
            Ok(v) => v,
            Err(e) => return Err(InputEventError::IOError(e)),
        };
        let y_position = match read_u16_le(stream) {
            Ok(v) => v,
            Err(e) => return Err(InputEventError::IOError(e)),
        };
        Ok(MouseXPdu { flags: PointerXFlags::from_bits_truncate(bits), x_position, y_position })
    }

    fn to_buffer(&self, stream: &mut Vec<u8>) -> (r: Result<(), InputEventError>) {
        match write_u16_le(stream, self.flags.bits) {
            Ok(()) => {},
            Err(e) => return Err(InputEventError::IOError(e)),
        }
        match write_u16_le(stream, self.x_position) {
            Ok(()) => {},
            Err(e) => return Err(InputEventError::IOError(e)),
        }
        match write_u16_le(stream, self.y_position) {
            Ok(()) => {},
            Err(e) => return Err(InputEventError::IOError(e)),
        }
        Ok(())
    }

    fn buffer_length(&self) -> (n: usize) {
        6
    }

    proof fn lemma_wire_len(&self) {
    }

    proof fn lemma_round_trip(&self, rest: Seq<u8>) {
    }

    proof fn lemma_truncated_prefix(&self, k: int) {
    }
}

} // verus!
