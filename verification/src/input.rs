//! The slow-path input event messages: a counted sequence of tagged events.
//!
//! An event is a four-byte time stamp, a two-byte type code and a payload
//! whose layout the code selects. The time stamp carries nothing for the
//! receiving side: it is read and dropped, and written as zero. A message
//! is a two-byte count, two bytes of padding and that many events.

use crate::codec::{Parsed, PduParsing};
use crate::wire::{
    read_u16_le, read_u32_le, u16_bytes, u16_le, u32_bytes, write_u16_le, write_u32_le,
};
use vstd::prelude::*;

pub mod laws;
pub mod mouse;
pub mod mouse_rel;
pub mod mouse_x;
pub mod scan_code;
pub mod sync;
pub mod unicode;
pub mod unused;

pub use mouse::MousePdu;
pub use mouse_rel::MouseRelPdu;
pub use mouse_x::MouseXPdu;
pub use scan_code::ScanCodePdu;
pub use sync::SyncPdu;
pub use unicode::UnicodePdu;
pub use unused::UnusedPdu;

verus! {

/// Why an input message could not be decoded or encoded.
#[derive(Debug)]
pub enum InputEventError {
    /// The stream ended before the message did.
    IOError(std::io::Error),
    /// The event type code, carried here, is outside the closed set.
    InvalidInputEventType(u16),
    /// The message is encrypted, which is not supported.
    EncryptionNotSupported,
    /// The fast-path event code, carried here, is not supported.
    EventCodeUnsupported(u8),
    /// The fast-path keyboard flags, carried here, are not supported.
    KeyboardFlagsUnsupported(u8),
    /// The fast-path synchronize flags, carried here, are not supported.
    SynchronizeFlagsUnsupported(u8),
    /// The fast-path message holds no event.
    EmptyFastPathInput,
}

impl From<std::io::Error> for InputEventError {
    fn from(e: std::io::Error) -> (r: InputEventError) {
        InputEventError::IOError(e)
    }
}

impl vstd::std_specs::convert::FromSpecImpl<std::io::Error> for InputEventError {
    open spec fn obeys_from_spec() -> bool {
        true
    }

    open spec fn from_spec(e: std::io::Error) -> InputEventError {
        InputEventError::IOError(e)
    }
}

/// The kinds of event, each with its own code on the wire.
#[derive(Debug, Copy, Clone, PartialEq, Eq)]
pub enum InputEventType {
    Sync,
    Unused,
    ScanCode,
    Unicode,
    Mouse,
    MouseX,
    MouseRel,
}

impl InputEventType {
    /// The code that stands for this kind on the wire.
    pub open spec fn code(self) -> u16 {
        match self {
            InputEventType::Sync => 0x0000,
            InputEventType::Unused => 0x0002,
            InputEventType::ScanCode => 0x0004,
            InputEventType::Unicode => 0x0005,
            InputEventType::Mouse => 0x8001,
            InputEventType::MouseX => 0x8002,
            InputEventType::MouseRel => 0x8004,
        }
    }

    /// The kind that `code` stands for, if any.
    pub open spec fn of_code(code: u16) -> Option<InputEventType> {
        if code == 0x0000 {
            Some(InputEventType::Sync)
        } else if code == 0x0002 {
            Some(InputEventType::Unused)
        } else if code == 0x0004 {
            Some(InputEventType::ScanCode)
        } else if code == 0x0005 {
            Some(InputEventType::Unicode)
        } else if code == 0x8001 {
            Some(InputEventType::Mouse)
        } else if code == 0x8002 {
            Some(InputEventType::MouseX)
        } else if code == 0x8004 {
            Some(InputEventType::MouseRel)
        } else {
            None
        }
    }

    /// The kind that `code` stands for, if any.
    pub fn from_u16(code: u16) -> (r: Option<InputEventType>)
        ensures
            r == Self::of_code(code),
    {
        if code == 0x0000 {
            Some(InputEventType::Sync)
        } else if code == 0x0002 {
            Some(InputEventType::Unused)
        } else if code == 0x0004 {
            Some(InputEventType::ScanCode)
        } else if code == 0x0005 {
            Some(InputEventType::Unicode)
        } else if code == 0x8001 {
            Some(InputEventType::Mouse)
        } else if code == 0x8002 {
            Some(InputEventType::MouseX)
        } else if code == 0x8004 {
            Some(InputEventType::MouseRel)
        } else {
            None
        }
    }

    /// The code that stands for this kind on the wire.
    pub fn to_u16(&self) -> (r: u16)
        ensures
            r == self.code(),
    {
        match self {
            InputEventType::Sync => 0x0000,
            InputEventType::Unused => 0x0002,
            InputEventType::ScanCode => 0x0004,
            InputEventType::Unicode => 0x0005,
            InputEventType::Mouse => 0x8001,
            InputEventType::MouseX => 0x8002,
            InputEventType::MouseRel => 0x8004,
        }
    }
}

/// One input event.
#[derive(Debug, Clone, Copy, PartialEq, Eq)]
pub enum InputEvent {
    Sync(SyncPdu),
    Unused(UnusedPdu),
    ScanCode(ScanCodePdu),
    Unicode(UnicodePdu),
    Mouse(MousePdu),
    MouseX(MouseXPdu),
    MouseRel(MouseRelPdu),
}

impl View for InputEvent {
    type V = InputEvent;

    open spec fn view(&self) -> InputEvent {
        *self
    }
}

impl From<&InputEvent> for InputEventType {
    fn from(event: &InputEvent) -> (r: InputEventType) {
        match event {
            InputEvent::Sync(_) => InputEventType::Sync,
            InputEvent::Unused(_) => InputEventType::Unused,
            InputEvent::ScanCode(_) => InputEventType::ScanCode,
            InputEvent::Unicode(_) => InputEventType::Unicode,
            InputEvent::Mouse(_) => InputEventType::Mouse,
            InputEvent::MouseX(_) => InputEventType::MouseX,
            InputEvent::MouseRel(_) => InputEventType::MouseRel,
        }
    }
}

impl vstd::std_specs::convert::FromSpecImpl<&InputEvent> for InputEventType {
    open spec fn obeys_from_spec() -> bool {
        true
    }

    open spec fn from_spec(event: &InputEvent) -> InputEventType {
        event.event_type()
    }
}

impl InputEvent {
    /// The number of bytes in front of the payload: time stamp and type code.
    pub const HEADER_LEN: usize = 6;

    /// The kind of this event.
    pub open spec fn event_type(&self) -> InputEventType {
        match self {
            InputEvent::Sync(_) => InputEventType::Sync,
            InputEvent::Unused(_) => InputEventType::Unused,
            InputEvent::ScanCode(_) => InputEventType::ScanCode,
            InputEvent::Unicode(_) => InputEventType::Unicode,
            InputEvent::Mouse(_) => InputEventType::Mouse,
            InputEvent::MouseX(_) => InputEventType::MouseX,
            InputEvent::MouseRel(_) => InputEventType::MouseRel,
        }
    }

    /// The encoding of the payload alone.
    pub open spec fn payload_wire(&self) -> Seq<u8> {
        match self {
            InputEvent::Sync(pdu) => pdu.wire(),
            InputEvent::Unused(pdu) => pdu.wire(),
            InputEvent::ScanCode(pdu) => pdu.wire(),
            InputEvent::Unicode(pdu) => pdu.wire(),
            InputEvent::Mouse(pdu) => pdu.wire(),
            InputEvent::MouseX(pdu) => pdu.wire(),
            InputEvent::MouseRel(pdu) => pdu.wire(),
        }
    }

    /// The serialized length of the payload alone.
    pub open spec fn payload_len(&self) -> nat {
        match self {
            InputEvent::Sync(pdu) => pdu.wire_len(),
            InputEvent::Unused(pdu) => pdu.wire_len(),
            InputEvent::ScanCode(pdu) => pdu.wire_len(),
            InputEvent::Unicode(pdu) => pdu.wire_len(),
            InputEvent::Mouse(pdu) => pdu.wire_len(),
            InputEvent::MouseX(pdu) => pdu.wire_len(),
            InputEvent::MouseRel(pdu) => pdu.wire_len(),
        }
    }

    /// The outcome of decoding a payload of kind `event_type` from the front
    /// of `bytes`.
    pub open spec fn parse_payload(event_type: InputEventType, bytes: Seq<u8>) -> Parsed<
        InputEvent,
    > {
        match event_type {
            InputEventType::Sync => SyncPdu::parse(bytes).wrap(|pdu| InputEvent::Sync(pdu)),
            InputEventType::Unused => UnusedPdu::parse(bytes).wrap(|pdu| InputEvent::Unused(pdu)),
            InputEventType::ScanCode => ScanCodePdu::parse(bytes).wrap(
                |pdu| InputEvent::ScanCode(pdu),
            ),
            InputEventType::Unicode => UnicodePdu::parse(bytes).wrap(
                |pdu| InputEvent::Unicode(pdu),
            ),
            InputEventType::Mouse => MousePdu::parse(bytes).wrap(|pdu| InputEvent::Mouse(pdu)),
            InputEventType::MouseX => MouseXPdu::parse(bytes).wrap(|pdu| InputEvent::MouseX(pdu)),
            InputEventType::MouseRel => MouseRelPdu::parse(bytes).wrap(
                |pdu| InputEvent::MouseRel(pdu),
            ),
        }
    }
}

impl PduParsing for InputEvent {
    open spec fn valid(&self) -> bool {
        match self {
            InputEvent::Sync(pdu) => pdu.valid(),
            InputEvent::Unused(pdu) => pdu.valid(),
            InputEvent::ScanCode(pdu) => pdu.valid(),
            InputEvent::Unicode(pdu) => pdu.valid(),
            InputEvent::Mouse(pdu) => pdu.valid(),
            InputEvent::MouseX(pdu) => pdu.valid(),
            InputEvent::MouseRel(pdu) => pdu.valid(),
        }
    }

    /// A zero time stamp, the code of the kind, then the payload.
    open spec fn wire(&self) -> Seq<u8> {
        u32_bytes(0) + u16_bytes(self.event_type().code()) + self.payload_wire()
    }

    open spec fn wire_len(&self) -> nat {
        6 + self.payload_len()
    }

    /// The time stamp is passed over; the code selects the payload, and a
    /// code that names no kind is an error whatever follows it.
    open spec fn parse(bytes: Seq<u8>) -> Parsed<InputEvent> {
        if bytes.len() < 6 {
            Parsed::Truncated
        } else {
            let code = u16_le(bytes[4], bytes[5]);
            match InputEventType::of_code(code) {
                None => Parsed::InvalidEventType { code },
                Some(event_type) => Self::parse_payload(event_type, bytes.skip(6)).behind(6),
            }
        }
    }

    fn from_buffer(stream: &mut &[u8]) -> (r: Result<Self, InputEventError>) {
        let _event_time = match read_u32_le(stream) {
            Ok(v) => v,
            Err(e) => return Err(InputEventError::IOError(e)),
        };
        let code = match read_u16_le(stream) {
            Ok(v) => v,
            Err(e) => return Err(InputEventError::IOError(e)),
        };
        let event_type = match InputEventType::from_u16(code) {
            Some(t) => t,
            None => return Err(InputEventError::InvalidInputEventType(code)),
        };
        let r = match event_type {
            InputEventType::Sync => match SyncPdu::from_buffer(stream) {
                Ok(pdu) => Ok(InputEvent::Sync(pdu)),
                Err(e) => Err(e),
            },
            InputEventType::Unused => match UnusedPdu::from_buffer(stream) {
                Ok(pdu) => Ok(InputEvent::Unused(pdu)),
                Err(e) => Err(e),
            },
            InputEventType::ScanCode => match ScanCodePdu::from_buffer(stream) {
                Ok(pdu) => Ok(InputEvent::ScanCode(pdu)),
                Err(e) => Err(e),
            },
            InputEventType::Unicode => match UnicodePdu::from_buffer(stream) {
                Ok(pdu) => Ok(InputEvent::Unicode(pdu)),
                Err(e) => Err(e),
            },
            InputEventType::Mouse => match MousePdu::from_buffer(stream) {
                Ok(pdu) => Ok(InputEvent::Mouse(pdu)),
                Err(e) => Err(e),
            },
            InputEventType::MouseX => match MouseXPdu::from_buffer(stream) {
                Ok(pdu) => Ok(InputEvent::MouseX(pdu)),
                Err(e) => Err(e),
            },
            InputEventType::MouseRel => match MouseRelPdu::from_buffer(stream) {
                Ok(pdu) => Ok(InputEvent::MouseRel(pdu)),
                Err(e) => Err(e),
            },
        };
        proof {
            if r is Ok {
            }
        }
        r
    }

    fn to_buffer(&self, stream: &mut Vec<u8>) -> (r: Result<(), InputEventError>) {
        match write_u32_le(stream, 0) {
            Ok(()) => {},
            Err(e) => return Err(InputEventError::IOError(e)),
        }
        match write_u16_le(stream, InputEventType::from(self).to_u16()) {
            Ok(()) => {},
            Err(e) => return Err(InputEventError::IOError(e)),
        }
        let r = match self {
            InputEvent::Sync(pdu) => pdu.to_buffer(stream),
            InputEvent::Unused(pdu) => pdu.to_buffer(stream),
            InputEvent::ScanCode(pdu) => pdu.to_buffer(stream),
            InputEvent::Unicode(pdu) => pdu.to_buffer(stream),
            InputEvent::Mouse(pdu) => pdu.to_buffer(stream),
            InputEvent::MouseX(pdu) => pdu.to_buffer(stream),
            InputEvent::MouseRel(pdu) => pdu.to_buffer(stream),
        };
        r
    }

    fn buffer_length(&self) -> (n: usize) {
        Self::HEADER_LEN + match self {
            InputEvent::Sync(pdu) => pdu.buffer_length(),
            InputEvent::Unused(pdu) => pdu.buffer_length(),
            InputEvent::ScanCode(pdu) => pdu.buffer_length(),
            InputEvent::Unicode(pdu) => pdu.buffer_length(),
            InputEvent::Mouse(pdu) => pdu.buffer_length(),
            InputEvent::MouseX(pdu) => pdu.buffer_length(),
            InputEvent::MouseRel(pdu) => pdu.buffer_length(),
        }
    }

    proof fn lemma_wire_len(&self) {
        match self {
            InputEvent::Sync(pdu) => pdu.lemma_wire_len(),
            InputEvent::Unused(pdu) => pdu.lemma_wire_len(),
            InputEvent::ScanCode(pdu) => pdu.lemma_wire_len(),
            InputEvent::Unicode(pdu) => pdu.lemma_wire_len(),
            InputEvent::Mouse(pdu) => pdu.lemma_wire_len(),
            InputEvent::MouseX(pdu) => pdu.lemma_wire_len(),
            InputEvent::MouseRel(pdu) => pdu.lemma_wire_len(),
        }
    }

    proof fn lemma_round_trip(&self, rest: Seq<u8>) {
        let code = self.event_type().code();
        match self {
            InputEvent::Sync(pdu) => pdu.lemma_round_trip(rest),
            InputEvent::Unused(pdu) => pdu.lemma_round_trip(rest),
            InputEvent::ScanCode(pdu) => pdu.lemma_round_trip(rest),
            InputEvent::Unicode(pdu) => pdu.lemma_round_trip(rest),
            InputEvent::Mouse(pdu) => pdu.lemma_round_trip(rest),
            InputEvent::MouseX(pdu) => pdu.lemma_round_trip(rest),
            InputEvent::MouseRel(pdu) => pdu.lemma_round_trip(rest),
        }
    }

    proof fn lemma_truncated_prefix(&self, k: int) {
        if k >= 6 {
            let code = self.event_type().code();
            match self {
                InputEvent::Sync(pdu) => pdu.lemma_truncated_prefix(k - 6),
                InputEvent::Unused(pdu) => pdu.lemma_truncated_prefix(k - 6),
                InputEvent::ScanCode(pdu) => pdu.lemma_truncated_prefix(k - 6),
                InputEvent::Unicode(pdu) => pdu.lemma_truncated_prefix(k - 6),
                InputEvent::Mouse(pdu) => pdu.lemma_truncated_prefix(k - 6),
                InputEvent::MouseX(pdu) => pdu.lemma_truncated_prefix(k - 6),
                InputEvent::MouseRel(pdu) => pdu.lemma_truncated_prefix(k - 6),
            }
        }
    }
}

/// The encodings of `events`, one after the other.
pub open spec fn events_wire(events: Seq<InputEvent>) -> Seq<u8>
    decreases events.len(),
{
    if events.len() == 0 {
        Seq::empty()
    } else {
        events[0].wire() + events_wire(events.skip(1))
    }
}

/// The sum of the serialized lengths of `events`.
pub open spec fn events_len(events: Seq<InputEvent>) -> nat
    decreases events.len(),
{
    if events.len() == 0 {
        0
    } else {
        events[0].wire_len() + events_len(events.skip(1))
    }
}

/// The outcome of decoding `count` events from the front of `bytes`: the
/// events in order, or the failure of the first one that fails.
pub open spec fn parse_events(bytes: Seq<u8>, count: nat) -> Parsed<Seq<InputEvent>>
    decreases count,
{
    if count == 0 {
        Parsed::Value { value: Seq::empty(), consumed: 0 }
    } else {
        match InputEvent::parse(bytes) {
            Parsed::Value { value, consumed } => parse_events(
                bytes.skip(consumed as int),
                (count - 1) as nat,
            ).after(seq![value], consumed),
            Parsed::Truncated => Parsed::Truncated,
            Parsed::InvalidEventType { code } => Parsed::InvalidEventType { code },
        }
    }
}

/// Every event of `events` is valid.
pub open spec fn all_valid(events: Seq<InputEvent>) -> bool {
    forall|i: int| 0 <= i < events.len() ==> (#[trigger] events[i]).valid()
}

/// The encoding of a sequence with one more event at its end.
pub proof fn lemma_events_wire_push(events: Seq<InputEvent>, event: InputEvent)
    ensures
        events_wire(events.push(event)) == events_wire(events) + event.wire(),
    decreases events.len(),
{
    if events.len() == 0 {
        assert(events_wire(events.push(event).skip(1)) =~= Seq::<u8>::empty());
    } else {
        lemma_events_wire_push(events.skip(1), event);
        assert(events.push(event).skip(1) =~= events.skip(1).push(event));
    }
}

/// The encodings of `events` are together as long as the sum of their
/// lengths, and every event takes twelve bytes.
pub proof fn lemma_events_wire_len(events: Seq<InputEvent>)
    ensures
        events_wire(events).len() == events_len(events),
        events_len(events) == 12 * events.len(),
    decreases events.len(),
{
    if events.len() > 0 {
        lemma_events_wire_len(events.skip(1));
    }
}

/// Decoding as many events as were encoded gives them back, whatever
/// follows them.
pub proof fn lemma_events_round_trip(events: Seq<InputEvent>, rest: Seq<u8>)
    requires
        all_valid(events),
    ensures
        parse_events(events_wire(events) + rest, events.len()) == (Parsed::Value {
            value: events,
            consumed: events_wire(events).len(),
        }),
    decreases events.len(),
{
    if events.len() > 0 {
        let first = events[0];
        let tail = events.skip(1);
        let bytes = events_wire(events) + rest;
        let after_first = events_wire(tail) + rest;
        first.lemma_round_trip(after_first);
        assert(bytes.skip(first.wire().len() as int) =~= after_first);
        assert(all_valid(tail));
        lemma_events_round_trip(tail, rest);
        assert(seq![first] + tail =~= events);
    } else {
        assert(events =~= Seq::<InputEvent>::empty());
    }
}

/// Decoding events from a strict prefix of their encoding fails as
/// truncated.
pub proof fn lemma_events_truncated_prefix(events: Seq<InputEvent>, k: int)
    requires
        all_valid(events),
        0 <= k < events_wire(events).len(),
    ensures
        parse_events(events_wire(events).take(k), events.len()) == Parsed::<
            Seq<InputEvent>,
        >::Truncated,
    decreases events.len(),
{
    let first = events[0];
    let tail = events.skip(1);
    let n = first.wire().len() as int;
    if k < n {
        first.lemma_truncated_prefix(k);
    } else {
        assert(events_wire(events).take(k).skip(n) =~= events_wire(tail).take(k - n));
        assert(all_valid(tail));
        lemma_events_truncated_prefix(tail, k - n);
    }
}

/// Decoding more events than were encoded fails as truncated: the first
/// missing event finds the bytes at their end.
pub proof fn lemma_events_missing(events: Seq<InputEvent>, count: nat)
    requires
        all_valid(events),
        events.len() < count,
    ensures
        parse_events(events_wire(events), count) == Parsed::<Seq<InputEvent>>::Truncated,
    decreases events.len(),
{
    if events.len() > 0 {
        let first = events[0];
        let tail = events.skip(1);
        assert(events_wire(events).skip(first.wire().len() as int) =~= events_wire(tail));
        assert(all_valid(tail));
        lemma_events_missing(tail, (count - 1) as nat);
    }
}

/// A message: the events of one input update, in the order they happened.
#[derive(Debug, Clone, PartialEq, Eq)]
pub struct InputEventPdu(pub Vec<InputEvent>);

impl View for InputEventPdu {
    type V = Seq<InputEvent>;

    open spec fn view(&self) -> Seq<InputEvent> {
        self.0@
    }
}

impl InputEventPdu {
    /// The number of bytes in front of the events: count and padding.
    pub const HEADER_LEN: usize = 4;

    /// The count field for a sequence of `len` events: its low sixteen bits.
    pub open spec fn count_field(len: nat) -> u16 {
        (len % 0x1_0000) as u16
    }
}

impl PduParsing for InputEventPdu {
    /// The count fits its field, and every event is valid.
    open spec fn valid(&self) -> bool {
        &&& self@.len() <= 0xFFFF
        &&& all_valid(self@)
    }

    /// The count, two bytes of padding, then the events in order.
    open spec fn wire(&self) -> Seq<u8> {
        u16_bytes(Self::count_field(self@.len())) + u16_bytes(0) + events_wire(self@)
    }

    /// The header, and the sum of the lengths of the events.
    open spec fn wire_len(&self) -> nat {
        4 + events_len(self@)
    }

    /// The count says how many events are decoded; the padding is passed
    /// over.
    open spec fn parse(bytes: Seq<u8>) -> Parsed<Seq<InputEvent>> {
        if bytes.len() < 4 {
            Parsed::Truncated
        } else {
            parse_events(bytes.skip(4), u16_le(bytes[0], bytes[1]) as nat).behind(4)
        }
    }

    fn from_buffer(stream: &mut &[u8]) -> (r: Result<Self, InputEventError>) {
        let number_of_events = match read_u16_le(stream) {
            Ok(v) => v,
            Err(e) => return Err(InputEventError::IOError(e)),
        };
        let _padding = match read_u16_le(stream) {
            Ok(v) => v,
            Err(e) => return Err(InputEventError::IOError(e)),
        };
        let ghost body = stream@;
        let ghost mut consumed: nat = 0;
        let mut events: Vec<InputEvent> = Vec::new();
        let mut i: u16 = 0;
        assert(parse_events(body, number_of_events as nat).after(Seq::empty(), 0) == parse_events(
            body,
            number_of_events as nat,
        ));
        while i < number_of_events
            invariant
                i <= number_of_events,
                old(stream)@.len() >= 4,
                number_of_events == u16_le(old(stream)@[0], old(stream)@[1]),
                body == old(stream)@.skip(4),
                events@.len() == i,
                all_valid(events@),
                consumed <= body.len(),
                stream@ == body.skip(consumed as int),
                parse_events(body, number_of_events as nat) == parse_events(
                    stream@,
                    (number_of_events - i) as nat,
                ).after(events@, consumed),
            decreases number_of_events - i,
        {
            let ghost before = stream@;
            let ghost decoded = events@;
            match InputEvent::from_buffer(stream) {
                Ok(event) => {
                    events.push(event);
                    proof {
                        let n = InputEvent::parse(before)->consumed;
                        let rest = parse_events(stream@, (number_of_events - i - 1) as nat);
                        if rest is Value {
                            assert(decoded + (seq![event] + rest->value) =~= events@
                                + rest->value);
                        }
                        consumed = consumed + n;
                    }
                },
                Err(e) => {
                    return Err(e);
                },
            }
            i += 1;
        }
        Ok(InputEventPdu(events))
    }

    fn to_buffer(&self, stream: &mut Vec<u8>) -> (r: Result<(), InputEventError>) {
        let count: u16 = (self.0.len() % 0x1_0000) as u16;
        match write_u16_le(stream, count) {
            Ok(()) => {},
            Err(e) => return Err(InputEventError::IOError(e)),
        }
        match write_u16_le(stream, 0) {
            Ok(()) => {},
            Err(e) => return Err(InputEventError::IOError(e)),
        }
        let ghost header = stream@;
        let mut i: usize = 0;
        while i < self.0.len()
            invariant
                i <= self@.len(),
                header == old(stream)@ + u16_bytes(Self::count_field(self@.len())) + u16_bytes(0),
                stream@ == header + events_wire(self@.take(i as int)),
            decreases self@.len() - i,
        {
            match self.0[i].to_buffer(stream) {
                Ok(()) => {},
                Err(e) => return Err(e),
            }
            proof {
                lemma_events_wire_push(self@.take(i as int), self@[i as int]);
                assert(self@.take(i as int).push(self@[i as int]) =~= self@.take(i + 1));
            }
            i += 1;
        }
        proof {
            assert(self@.take(i as int) =~= self@);
            self.lemma_wire_len();
        }
        Ok(())
    }

    fn buffer_length(&self) -> (n: usize) {
        proof {
            lemma_events_wire_len(self@);
        }
        let mut total: usize = Self::HEADER_LEN;
        let mut i: usize = 0;
        while i < self.0.len()
            invariant
                i <= self@.len(),
                total == 4 + 12 * i,
                4 + 12 * self@.len() <= usize::MAX,
            decreases self@.len() - i,
        {
            total = total + self.0[i].buffer_length();
            i += 1;
        }
        total
    }

    proof fn lemma_wire_len(&self) {
        lemma_events_wire_len(self@);
    }

    proof fn lemma_round_trip(&self, rest: Seq<u8>) {
        let bytes = self.wire() + rest;
        assert(bytes.skip(4) =~= events_wire(self@) + rest);
        lemma_events_round_trip(self@, rest);
    }

    proof fn lemma_truncated_prefix(&self, k: int) {
        if k >= 4 {
            let bytes = self.wire().take(k);
            assert(bytes.skip(4) =~= events_wire(self@).take(k - 4));
            lemma_events_truncated_prefix(self@, k - 4);
        }
    }
}

} // verus!
