//! The contract that every message type of the protocol meets: decode from a
//! byte stream, encode to a byte sink, and an exact serialized length.

use crate::input::InputEventError;
use vstd::prelude::*;

verus! {

/// What decoding a byte sequence comes to.
pub enum Parsed<V> {
    /// The leading `consumed` bytes are the encoding of `value`.
    Value { value: V, consumed: nat },
    /// The bytes end before the message does.
    Truncated,
    /// The bytes hold an event type code outside the closed set.
    InvalidEventType { code: u16 },
}

impl<V> Parsed<V> {
    /// The outcome for a message that is this one under another type: the
    /// value seen through `f`. A failure stays as it is.
    pub open spec fn wrap<W>(self, f: spec_fn(V) -> W) -> Parsed<W> {
        match self {
            Parsed::Value { value, consumed } => Parsed::Value { value: f(value), consumed },
            Parsed::Truncated => Parsed::Truncated,
            Parsed::InvalidEventType { code } => Parsed::InvalidEventType { code },
        }
    }

    /// The outcome for a message that stands behind `before` bytes which
    /// were consumed in front of it. A failure stays as it is.
    pub open spec fn behind(self, before: nat) -> Parsed<V> {
        match self {
            Parsed::Value { value, consumed } => Parsed::Value {
                value,
                consumed: before + consumed,
            },
            Parsed::Truncated => Parsed::Truncated,
            Parsed::InvalidEventType { code } => Parsed::InvalidEventType { code },
        }
    }
}

impl<T> Parsed<Seq<T>> {
    /// The outcome for a sequence of which `prefix` was decoded before, from
    /// `before` bytes. A failure stays as it is.
    pub open spec fn after(self, prefix: Seq<T>, before: nat) -> Parsed<Seq<T>> {
        match self {
            Parsed::Value { value, consumed } => Parsed::Value {
                value: prefix + value,
                consumed: before + consumed,
            },
            Parsed::Truncated => Parsed::Truncated,
            Parsed::InvalidEventType { code } => Parsed::InvalidEventType { code },
        }
    }
}

/// Whether the result `r` of a decoder reports the outcome `p`.
pub open spec fn reports<T: View>(r: Result<T, InputEventError>, p: Parsed<T::V>) -> bool {
    match p {
        Parsed::Value { value, consumed } => r is Ok && r->Ok_0@ == value,
        Parsed::Truncated => r matches Err(InputEventError::IOError(_)),
        Parsed::InvalidEventType { code } => r matches Err(
            InputEventError::InvalidInputEventType(c),
        ) && c == code,
    }
}

/// A message that can be read from and written to the wire.
///
/// `wire` and `parse` are the mathematical description of the format; the
/// three executable methods are held to them, and the lemmas relate the two
/// directions.
pub trait PduParsing: View + Sized {
    /// The values that the wire format can carry without loss.
    spec fn valid(&self) -> bool;

    /// The encoding of `self`.
    spec fn wire(&self) -> Seq<u8>;

    /// The serialized length of `self`, from its fields.
    spec fn wire_len(&self) -> nat;

    /// The outcome of decoding one message from the front of `bytes`.
    spec fn parse(bytes: Seq<u8>) -> Parsed<Self::V>;

    /// Decodes one message from the front of `stream` and moves `stream` past
    /// it. Bytes that follow the message are left for the next read. After a
    /// failure `stream` stands somewhere in what it held, and no further.
    fn from_buffer(stream: &mut &[u8]) -> (r: Result<Self, InputEventError>)
        ensures
            reports(r, Self::parse(old(stream)@)),
            final(stream)@.is_suffix_of(old(stream)@),
            r is Ok ==> r->Ok_0.valid(),
            r is Ok ==> Self::parse(old(stream)@)->consumed <= old(stream)@.len(),
            r is Ok ==> final(stream)@ == old(stream)@.skip(
                Self::parse(old(stream)@)->consumed as int,
            ),
    ;

    /// Appends the encoding of `self` to `stream`.
    fn to_buffer(&self, stream: &mut Vec<u8>) -> (r: Result<(), InputEventError>)
        ensures
            r is Ok,
            final(stream)@ == old(stream)@ + self.wire(),
            final(stream)@.len() == old(stream)@.len() + self.wire_len(),
    ;

    /// The number of bytes that `to_buffer` writes for `self`.
    fn buffer_length(&self) -> (n: usize)
        requires
            self.wire_len() <= usize::MAX,
        ensures
            n == self.wire_len(),
    ;

    /// The encoding is exactly as long as the length computed from the fields.
    proof fn lemma_wire_len(&self)
        ensures
            self.wire().len() == self.wire_len(),
    ;

    /// Decoding the encoding of a valid message gives the message back and
    /// consumes the encoding and nothing more, whatever follows it.
    proof fn lemma_round_trip(&self, rest: Seq<u8>)
        requires
            self.valid(),
        ensures
            Self::parse(self.wire() + rest) == (Parsed::Value {
                value: self@,
                consumed: self.wire().len(),
            }),
    ;

    /// Decoding a strict prefix of the encoding of a valid message fails as
    /// truncated.
    proof fn lemma_truncated_prefix(&self, k: int)
        requires
            self.valid(),
            0 <= k < self.wire().len(),
        ensures
            Self::parse(self.wire().take(k)) == Parsed::<Self::V>::Truncated,
    ;
}

/// Decodes one message of type `T` from the front of `data`.
pub fn decode<T: PduParsing>(data: &[u8]) -> (r: Result<T, InputEventError>)
    ensures
        reports(r, T::parse(data@)),
        r is Ok ==> r->Ok_0.valid(),
{
    let mut stream = data;
    T::from_buffer(&mut stream)
}

} // verus!
