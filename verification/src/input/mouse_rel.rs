//! The relative mouse event: the pointer moved by an offset.

use crate::codec::{Parsed, PduParsing};
use crate::input::InputEventError;
use crate::wire::{
    i16_bytes, i16_le, lemma_mask_u16, read_i16_le, read_u16_le, u16_bytes, u16_le, write_i16_le,
    write_u16_le,
};
use vstd::prelude::*;

verus! {

/// What the pointer did while it moved.
#[derive(Debug, Clone, Copy, PartialEq, Eq)]
pub struct PointerRelFlags {
    pub bits: u16,
}

impl PointerRelFlags {
    /// The first extended button changed.
    pub const XBUTTON1: u16 = 0x0001;

    /// The second extended button changed.
    pub const XBUTTON2: u16 = 0x0002;

    /// The pointer moved.
    pub const MOVE: u16 = 0x0800;

    /// The left button changed.
    pub const BUTTON1: u16 = 0x1000;

    /// The right button changed.
    pub const BUTTON2: u16 = 0x2000;

    /// The middle button changed.
    pub const BUTTON3: u16 = 0x4000;

    /// The button that changed went down.
    pub const DOWN: u16 = 0x8000;

    /// Every bit that has a meaning.
    pub const ALL: u16 = 0xF803;

    /// No bit is set that has no meaning.
    pub open spec fn valid(self) -> bool {
        self.bits & Self::ALL == self.bits
    }

    /// Whether every bit of `other` is set in `self`.
    pub open spec fn spec_contains(self, other: u16) -> bool {
        self.bits & other == other
    }

    /// No flag is set.
    pub fn empty() -> (r: Self)
        ensures
            r.bits == 0,
            r.valid(),
    {
        proof {
            lemma_mask_u16(0, Self::ALL);
        }
        PointerRelFlags { bits: 0 }
    }

    /// The flags of `bits`, without the bits that have no meaning.
    pub fn from_bits_truncate(bits: u16) -> (r: Self)
        ensures
            r.bits == bits & Self::ALL,
            r.valid(),
    {
        proof {
            lemma_mask_u16(bits, Self::ALL);
        }
        PointerRelFlags { bits: bits & Self::ALL }
    }

    /// Whether every bit of `other` is set.
    pub fn contains(&self, other: u16) -> (r: bool)
        ensures
            r == self.spec_contains(other),
    {
        self.bits & other == other
    }
}

/// The pointer moved by an offset, or a button changed while it did.
#[derive(Debug, Clone, Copy, PartialEq, Eq)]
pub struct MouseRelPdu {
    pub flags: PointerRelFlags,
    pub x_delta: i16,
    pub y_delta: i16,
}

impl View for MouseRelPdu {
    type V = MouseRelPdu;

    open spec fn view(&self) -> MouseRelPdu {
        *self
    }
}

impl PduParsing for MouseRelPdu {
    open spec fn valid(&self) -> bool {
        self.flags.valid()
    }

    /// The flags, then the two signed offsets.
    open spec fn wire(&self) -> Seq<u8> {
        u16_bytes(self.flags.bits) + i16_bytes(self.x_delta) + i16_bytes(self.y_delta)
    }

    open spec fn wire_len(&self) -> nat {
        6
    }

    open spec fn parse(bytes: Seq<u8>) -> Parsed<MouseRelPdu> {
        if bytes.len() < 6 {
            Parsed::Truncated
        } else {
            Parsed::Value {
                value: MouseRelPdu {
                    flags: PointerRelFlags {
                        bits: u16_le(bytes[0], bytes[1]) & PointerRelFlags::ALL,
                    },
                    x_delta: i16_le(bytes[2], bytes[3]),
                    y_delta: i16_le(bytes[4], bytes[5]),
                },
                consumed: 6,
            }
        }
    }

    fn from_buffer(stream: &mut &[u8]) -> (r: Result<Self, InputEventError>) {
        let bits = match read_u16_le(stream) {
            Ok(v) => v,
            Err(e) => return Err(InputEventError::IOError(e)),
        };
        let x_delta = match read_i16_le(stream) {
            Ok(v) => v,
            Err(e) => return Err(InputEventError::IOError(e)),
        };
        let y_delta = match read_i16_le(stream) {
            Ok(v) => v,
            Err(e) => return Err(InputEventError::IOError(e)),
        };
        Ok(MouseRelPdu { flags: PointerRelFlags::from_bits_truncate(bits), x_delta, y_delta })
    }

    fn to_buffer(&self, stream: &mut Vec<u8>) -> (r: Result<(), InputEventError>) {
        match write_u16_le(stream, self.flags.bits) {
            Ok(()) => {},
            Err(e) => return Err(InputEventError::IOError(e)),
        }
        match write_i16_le(stream, self.x_delta) {
            Ok(()) => {},
            Err(e) => return Err(InputEventError::IOError(e)),
        }
        match write_i16_le(stream, self.y_delta) {
            Ok(()) => {},
            Err(e) => return Err(InputEventError::IOError(e)),
        }
        Ok(())
    }

    fn buffer_length(&self) -> (n: usize) {
        6
    }

    proof fn lemma_wire_len(&self) {
    }

    proof fn lemma_round_trip(&self, rest: Seq<u8>) {
    }

    proof fn lemma_truncated_prefix(&self, k: int) {
    }
}

} // verus!
