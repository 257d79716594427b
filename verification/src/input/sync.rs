//! The synchronize event: the state of the keyboard's toggle keys.

use crate::codec::{Parsed, PduParsing};
use crate::input::InputEventError;
use crate::wire::{
    lemma_mask_u32, read_u16_le, read_u32_le, u32_bytes, u32_le, write_u16_le, write_u32_le,
};
use vstd::prelude::*;

verus! {

/// The toggle keys that are on.
#[derive(Debug, Clone, Copy, PartialEq, Eq)]
pub struct SyncToggleFlags {
    pub bits: u32,
}

impl SyncToggleFlags {
    /// Scroll Lock is on.
    pub const SCROLL_LOCK: u32 = 0x0000_0001;

    /// Num Lock is on.
    pub const NUM_LOCK: u32 = 0x0000_0002;

    /// Caps Lock is on.
    pub const CAPS_LOCK: u32 = 0x0000_0004;

    /// Kana Lock is on.
    pub const KANA_LOCK: u32 = 0x0000_0008;

    /// Every bit that names a toggle key.
    pub const ALL: u32 = 0x0000_000F;

    /// No bit is set that names no key.
    pub open spec fn valid(self) -> bool {
        self.bits & Self::ALL == self.bits
    }

    /// Whether every bit of `other` is set in `self`.
    pub open spec fn spec_contains(self, other: u32) -> bool {
        self.bits & other == other
    }

    /// No key is on.
    pub fn empty() -> (r: Self)
        ensures
            r.bits == 0,
            r.valid(),
    {
        proof {
            lemma_mask_u32(0, Self::ALL);
        }
        SyncToggleFlags { bits: 0 }
    }

    /// The flags of `bits`, without the bits that name no key.
    pub fn from_bits_truncate(bits: u32) -> (r: Self)
        ensures
            r.bits == bits & Self::ALL,
            r.valid(),
    {
        proof {
            lemma_mask_u32(bits, Self::ALL);
        }
        SyncToggleFlags { bits: bits & Self::ALL }
    }

    /// Whether every bit of `other` is set.
    pub fn contains(&self, other: u32) -> (r: bool)
        ensures
            r == self.spec_contains(other),
    {
        self.bits & other == other
    }
}

/// A synchronize event.
#[derive(Debug, Clone, Copy, PartialEq, Eq)]
pub struct SyncPdu {
    pub flags: SyncToggleFlags,
}

impl View for SyncPdu {
    type V = SyncPdu;

    open spec fn view(&self) -> SyncPdu {
        *self
    }
}

impl PduParsing for SyncPdu {
    open spec fn valid(&self) -> bool {
        self.flags.valid()
    }

    /// Two bytes of padding, then the flags.
    open spec fn wire(&self) -> Seq<u8> {
        seq![0u8, 0u8] + u32_bytes(self.flags.bits)
    }

    open spec fn wire_len(&self) -> nat {
        6
    }

    open spec fn parse(bytes: Seq<u8>) -> Parsed<SyncPdu> {
        if bytes.len() < 6 {
            Parsed::Truncated
        } else {
            Parsed::Value {
                value: SyncPdu {
                    flags: SyncToggleFlags {
                        bits: u32_le(bytes[2], bytes[3], bytes[4], bytes[5]) & SyncToggleFlags::ALL,
                    },
                },
                consumed: 6,
            }
        }
    }

    fn from_buffer(stream: &mut &[u8]) -> (r: Result<Self, InputEventError>) {
        let _padding = match read_u16_le(stream) {
            Ok(v) => v,
            Err(e) => return Err(InputEventError::IOError(e)),
        };
        let bits = match read_u32_le(stream) {
            Ok(v) => v,
            Err(e) => return Err(InputEventError::IOError(e)),
        };
        Ok(SyncPdu { flags: SyncToggleFlags::from_bits_truncate(bits) })
    }

    fn to_buffer(&self, stream: &mut Vec<u8>) -> (r: Result<(), InputEventError>) {
        match write_u16_le(stream, 0) {
            Ok(()) => {},
            Err(e) => return Err(InputEventError::IOError(e)),
        }
        match write_u32_le(stream, self.flags.bits) {
            Ok(()) => {},
            Err(e) => return Err(InputEventError::IOError(e)),
        }
        Ok(())
    }

    fn buffer_length(&self) -> (n: usize) {
        6
    }

    proof fn lemma_wire_len(&self) {
    }

    proof fn lemma_round_trip(&self, rest: Seq<u8>) {
    }

    proof fn lemma_truncated_prefix(&self, k: int) {
    }
}

} // verus!
