//! The mouse event: pointer movement, the three main buttons and the wheel.
//!
//! The first field packs two things. Its high byte holds the pointer flags.
//! Its low nine bits hold the wheel rotation as a two's complement number,
//! so the wheel's sign bit is the lowest of the pointer flags.

use crate::codec::{Parsed, PduParsing};
use crate::input::InputEventError;
use crate::wire::{lemma_mask_u16, read_u16_le, u16_bytes, u16_le, write_u16_le};
use vstd::prelude::*;

verus! {

/// What the pointer did.
#[derive(Debug, Clone, Copy, PartialEq, Eq)]
pub struct PointerFlags {
    pub bits: u16,
}

impl PointerFlags {
    /// The wheel rotation is negative: the sign bit of the rotation.
    pub const WHEEL_NEGATIVE: u16 = 0x0100;

    /// The vertical wheel turned.
    pub const VERTICAL_WHEEL: u16 = 0x0200;

    /// The horizontal wheel turned.
    pub const HORIZONTAL_WHEEL: u16 = 0x0400;

    /// The pointer moved.
    pub const MOVE: u16 = 0x0800;

    /// The left button changed.
    pub const LEFT_BUTTON: u16 = 0x1000;

    /// The right button changed.
    pub const RIGHT_BUTTON: u16 = 0x2000;

    /// The middle button, or the wheel as a button, changed.
    pub const MIDDLE_BUTTON_OR_WHEEL: u16 = 0x4000;

    /// The button that changed went down.
    pub const DOWN: u16 = 0x8000;

    /// Every bit that has a meaning.
    pub const ALL: u16 = 0xFF00;

    /// No bit is set that has no meaning.
    pub open spec fn valid(self) -> bool {
        self.bits & Self::ALL == self.bits
    }

    /// Whether every bit of `other` is set in `self`.
    pub open spec fn spec_contains(self, other: u16) -> bool {
        self.bits & other == other
    }

    /// No flag is set.
    pub fn empty() -> (r: Self)
        ensures
            r.bits == 0,
            r.valid(),
    {
        proof {
            lemma_mask_u16(0, Self::ALL);
        }
        PointerFlags { bits: 0 }
    }

    /// The flags of `bits`, without the bits that have no meaning.
    pub fn from_bits_truncate(bits: u16) -> (r: Self)
        ensures
            r.bits == bits & Self::ALL,
            r.valid(),
    {
        proof {
            lemma_mask_u16(bits, Self::ALL);
        }
        PointerFlags { bits: bits & Self::ALL }
    }

    /// Whether every bit of `other` is set.
    pub fn contains(&self, other: u16) -> (r: bool)
        ensures
            r == self.spec_contains(other),
    {
        self.bits & other == other
    }
}

/// The low byte of the wheel field.
pub const WHEEL_ROTATION_LOW: u16 = 0x00FF;

/// The low eight bits of `units` in two's complement.
pub open spec fn wheel_low_bits(units: i16) -> u16 {
    (units as int % 256) as u16
}

/// The wheel's sign bit for `units`.
pub open spec fn wheel_sign_bit(units: i16) -> u16 {
    if units < 0 {
        PointerFlags::WHEEL_NEGATIVE
    } else {
        0
    }
}

/// The rotation that the first field `raw` carries: its low byte, less 256
/// where the sign bit is set.
pub open spec fn wheel_units(raw: u16) -> i16 {
    if raw & PointerFlags::WHEEL_NEGATIVE == PointerFlags::WHEEL_NEGATIVE {
        ((raw & WHEEL_ROTATION_LOW) as int - 256) as i16
    } else {
        (raw & WHEEL_ROTATION_LOW) as i16
    }
}

/// How the parts of the first field come apart again: flags that keep to the
/// high byte, a sign bit that the flags already hold or that is absent, and
/// a low byte.
proof fn lemma_first_field_parts(flags: u16, sign: u16, low: u16)
    by (bit_vector)
    requires
        flags & 0xFF00 == flags,
        sign == flags & 0x0100,
        low <= 0xFF,
    ensures
        (flags | sign | low) & 0xFF00 == flags,
        (flags | sign | low) & 0x00FF == low,
        ((flags | sign | low) & 0x0100 == 0x0100) == (flags & 0x0100 == 0x0100),
{
}

/// A single bit is either set or clear.
proof fn lemma_sign_bit_values(flags: u16)
    by (bit_vector)
    ensures
        flags & 0x0100 == 0x0100 || flags & 0x0100 == 0,
{
}

/// The parts of any first field: the low byte is a byte, and the sign bit of
/// the field is the sign bit of its flags.
proof fn lemma_first_field_split(raw: u16)
    by (bit_vector)
    ensures
        raw & 0x00FF <= 0xFF,
        ((raw & 0xFF00) & 0x0100 == 0x0100) == (raw & 0x0100 == 0x0100),
{
}

/// A pointer event at a position.
#[derive(Debug, Clone, Copy, PartialEq, Eq)]
pub struct MousePdu {
    pub flags: PointerFlags,
    pub number_of_wheel_rotation_units: i16,
    pub x_position: u16,
    pub y_position: u16,
}

impl View for MousePdu {
    type V = MousePdu;

    open spec fn view(&self) -> MousePdu {
        *self
    }
}

impl MousePdu {
    /// The first field: the flags, the wheel's sign bit and its low byte.
    pub open spec fn first_field(&self) -> u16 {
        self.flags.bits | wheel_sign_bit(self.number_of_wheel_rotation_units) | wheel_low_bits(
            self.number_of_wheel_rotation_units,
        )
    }
}

impl PduParsing for MousePdu {
    /// The flags keep to their bits, the rotation fits in nine bits, and the
    /// sign flag says whether the rotation is negative.
    open spec fn valid(&self) -> bool {
        &&& self.flags.valid()
        &&& -256 <= self.number_of_wheel_rotation_units <= 255
        &&& self.flags.spec_contains(PointerFlags::WHEEL_NEGATIVE)
            <==> self.number_of_wheel_rotation_units < 0
    }

    /// The first field, then the two coordinates.
    open spec fn wire(&self) -> Seq<u8> {
        u16_bytes(self.first_field()) + u16_bytes(self.x_position) + u16_bytes(self.y_position)
    }

    open spec fn wire_len(&self) -> nat {
        6
    }

    open spec fn parse(bytes: Seq<u8>) -> Parsed<MousePdu> {
        if bytes.len() < 6 {
            Parsed::Truncated
        } else {
            Parsed::Value {
                value: MousePdu {
                    flags: PointerFlags { bits: u16_le(bytes[0], bytes[1]) & PointerFlags::ALL },
                    number_of_wheel_rotation_units: wheel_units(u16_le(bytes[0], bytes[1])),
                    x_position: u16_le(bytes[2], bytes[3]),
                    y_position: u16_le(bytes[4], bytes[5]),
                },
                consumed: 6,
            }
        }
    }

    fn from_buffer(stream: &mut &[u8]) -> (r: Result<Self, InputEventError>) {
        let raw = match read_u16_le(stream) {
            Ok(v) => v,
            Err(e) => return Err(InputEventError::IOError(e)),
        };
        let flags = PointerFlags::from_bits_truncate(raw);
        let low: u16 = raw & WHEEL_ROTATION_LOW;
        proof {
            lemma_first_field_split(raw);
        }
        let number_of_wheel_rotation_units: i16 = if flags.contains(PointerFlags::WHEEL_NEGATIVE) {
            low as i16 - 256
        } else {
            low as i16
        };
        let x_position = match read_u16_le(stream) {
            Ok(v) => v,
            Err(e) => return Err(InputEventError::IOError(e)),
        };
        let y_position = match read_u16_le(stream) {
            Ok(v) => v,
            Err(e) => return Err(InputEventError::IOError(e)),
        };
        Ok(MousePdu { flags, number_of_wheel_rotation_units, x_position, y_position })
    }

    fn to_buffer(&self, stream: &mut Vec<u8>) -> (r: Result<(), InputEventError>) {
        let units = self.number_of_wheel_rotation_units;
        let sign: u16 = if units < 0 {
            PointerFlags::WHEEL_NEGATIVE
        } else {
            0
        };
        let widened: u32 = (units as i32 + 0x1_0000) as u32;
        let low: u16 = (widened % 256) as u16;
        let first = self.flags.bits | sign | low;
        match write_u16_le(stream, first) {
            Ok(()) => {},
            Err(e) => return Err(InputEventError::IOError(e)),
        }
        match write_u16_le(stream, self.x_position) {
            Ok(()) => {},
            Err(e) => return Err(InputEventError::IOError(e)),
        }
        match write_u16_le(stream, self.y_position) {
            Ok(()) => {},
            Err(e) => return Err(InputEventError::IOError(e)),
        }
        Ok(())
    }

    fn buffer_length(&self) -> (n: usize) {
        6
    }

    proof fn lemma_wire_len(&self) {
    }

    proof fn lemma_round_trip(&self, rest: Seq<u8>) {
        let units = self.number_of_wheel_rotation_units;
        lemma_sign_bit_values(self.flags.bits);
        lemma_first_field_parts(self.flags.bits, wheel_sign_bit(units), wheel_low_bits(units));
    }

    proof fn lemma_truncated_prefix(&self, k: int) {
    }
}

} // verus!
