//! The scan-code key event.

use crate::codec::{Parsed, PduParsing};
use crate::input::InputEventError;
use crate::wire::{lemma_mask_u16, read_u16_le, u16_bytes, u16_le, write_u16_le};
use vstd::prelude::*;

verus! {

/// How a key changed, and which part of the keyboard it is on.
#[derive(Debug, Clone, Copy, PartialEq, Eq)]
pub struct KeyboardFlags {
    pub bits: u16,
}

impl KeyboardFlags {
    /// The key is one of the extended keys.
    pub const EXTENDED: u16 = 0x0100;

    /// The scan code follows the second extended prefix.
    pub const EXTENDED_1: u16 = 0x0200;

    /// The key was already down before this event.
    pub const DOWN: u16 = 0x4000;

    /// The key went up.
    pub const RELEASE: u16 = 0x8000;

    /// Every bit that has a meaning.
    pub const ALL: u16 = 0xC300;

    /// No bit is set that has no meaning.
    pub open spec fn valid(self) -> bool {
        self.bits & Self::ALL == self.bits
    }

    /// Whether every bit of `other` is set in `self`.
    pub open spec fn spec_contains(self, other: u16) -> bool {
        self.bits & other == other
    }

    /// No flag is set.
    pub fn empty() -> (r: Self)
        ensures
            r.bits == 0,
            r.valid(),
    {
        proof {
            lemma_mask_u16(0, Self::ALL);
        }
        KeyboardFlags { bits: 0 }
    }

    /// The flags of `bits`, without the bits that have no meaning.
    pub fn from_bits_truncate(bits: u16) -> (r: Self)
        ensures
            r.bits == bits & Self::ALL,
            r.valid(),
    {
        proof {
            lemma_mask_u16(bits, Self::ALL);
        }
        KeyboardFlags { bits: bits & Self::ALL }
    }

    /// Whether every bit of `other` is set.
    pub fn contains(&self, other: u16) -> (r: bool)
        ensures
            r == self.spec_contains(other),
    {
        self.bits & other == other
    }
}

/// A key, named by its scan code, went down or up.
#[derive(Debug, Clone, Copy, PartialEq, Eq)]
pub struct ScanCodePdu {
    pub flags: KeyboardFlags,
    pub key_code: u16,
}

impl View for ScanCodePdu {
    type V = ScanCodePdu;

    open spec fn view(&self) -> ScanCodePdu {
        *self
    }
}

impl PduParsing for ScanCodePdu {
    open spec fn valid(&self) -> bool {
        self.flags.valid()
    }

    /// The flags, the key code, then two bytes of padding.
    open spec fn wire(&self) -> Seq<u8> {
        u16_bytes(self.flags.bits) + u16_bytes(self.key_code) + seq![0u8, 0u8]
    }

    open spec fn wire_len(&self) -> nat {
        6
    }

    open spec fn parse(bytes: Seq<u8>) -> Parsed<ScanCodePdu> {
        if bytes.len() < 6 {
            Parsed::Truncated
        } else {
            Parsed::Value {
                value: ScanCodePdu {
                    flags: KeyboardFlags { bits: u16_le(bytes[0], bytes[1]) & KeyboardFlags::ALL },
                    key_code: u16_le(bytes[2], bytes[3]),
                },
                consumed: 6,
            }
        }
    }

    fn from_buffer(stream: &mut &[u8]) -> (r: Result<Self, InputEventError>) {
        let bits = match read_u16_le(stream) {
            Ok(v) => v,
            Err(e) => return Err(InputEventError::IOError(e)),
        };
        let key_code = match read_u16_le(stream) {
            Ok(v) => v,
            Err(e) => return Err(InputEventError::IOError(e)),
        };
        let _padding = match read_u16_le(stream) {
            Ok(v) => v,
            Err(e) => return Err(InputEventError::IOError(e)),
        };
        Ok(ScanCodePdu { flags: KeyboardFlags::from_bits_truncate(bits), key_code })
    }

    fn to_buffer(&self, stream: &mut Vec<u8>) -> (r: Result<(), InputEventError>) {
        match write_u16_le(stream, self.flags.bits) {
            Ok(()) => {},
            Err(e) => return Err(InputEventError::IOError(e)),
        }
        match write_u16_le(stream, self.key_code) {
            Ok(()) => {},
            Err(e) => return Err(InputEventError::IOError(e)),
        }
        match write_u16_le(stream, 0) {
            Ok(()) => {},
            Err(e) => return Err(InputEventError::IOError(e)),
        }
        Ok(())
    }

    fn buffer_length(&self) -> (n: usize) {
        6
    }

    proof fn lemma_wire_len(&self) {
    }

    proof fn lemma_round_trip(&self, rest: Seq<u8>) {
    }

    proof fn lemma_truncated_prefix(&self, k: int) {
    }
}

} // verus!
