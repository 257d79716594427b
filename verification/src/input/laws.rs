//! What holds of the input event format as a whole: kinds and codes match
//! one to one, an unknown code is always refused, and a message never
//! decodes to fewer events than its count announces.

use crate::codec::{Parsed, PduParsing};
use crate::input::{
    all_valid, events_wire, parse_events, InputEvent, InputEventPdu, InputEventType,
};
use crate::wire::{u16_bytes, u16_le};
use vstd::prelude::*;

verus! {

/// Kinds and codes match one to one: the code of a kind stands for that
/// kind, no two kinds share a code, and a code that stands for a kind is
/// the code of that kind.
pub proof fn lemma_event_type_bijection(t: InputEventType, u: InputEventType, code: u16)
    ensures
        InputEventType::of_code(t.code()) == Some(t),
        t.code() == u.code() ==> t == u,
        InputEventType::of_code(code) == Some(t) ==> t.code() == code,
{
}

/// The codes that stand for a kind are seven, and no others.
pub proof fn lemma_event_type_codes(code: u16)
    ensures
        InputEventType::of_code(code) is Some <==> code == 0x0000 || code == 0x0002 || code
            == 0x0004 || code == 0x0005 || code == 0x8001 || code == 0x8002 || code == 0x8004,
{
}

/// Decoding the encoding of any event, valid or not, succeeds, consumes the
/// encoding, and gives an event of the same kind.
pub proof fn lemma_same_kind(event: InputEvent, rest: Seq<u8>)
    ensures
        InputEvent::parse(event.wire() + rest) is Value,
        InputEvent::parse(event.wire() + rest)->value.event_type() == event.event_type(),
        InputEvent::parse(event.wire() + rest)->consumed == event.wire().len(),
{
}

/// An event whose type code stands for no kind is refused with that code,
/// whatever its other bytes are.
pub proof fn lemma_unknown_type_rejected(bytes: Seq<u8>)
    requires
        bytes.len() >= 6,
        InputEventType::of_code(u16_le(bytes[4], bytes[5])) is None,
    ensures
        InputEvent::parse(bytes) == (Parsed::<InputEvent>::InvalidEventType {
            code: u16_le(bytes[4], bytes[5]),
        }),
{
}

/// In a sequence, an unknown type code behind valid events is refused with
/// that code: the events in front of it do not hide it, and nothing is
/// returned in its place.
pub proof fn lemma_unknown_type_in_sequence(events: Seq<InputEvent>, count: nat, bad: Seq<u8>)
    requires
        all_valid(events),
        events.len() < count,
        bad.len() >= 6,
        InputEventType::of_code(u16_le(bad[4], bad[5])) is None,
    ensures
        parse_events(events_wire(events) + bad, count) == (Parsed::<
            Seq<InputEvent>,
        >::InvalidEventType { code: u16_le(bad[4], bad[5]) }),
    decreases events.len(),
{
    if events.len() > 0 {
        let first = events[0];
        let tail = events.skip(1);
        let bytes = events_wire(events) + bad;
        assert(bytes.skip(first.wire().len() as int) =~= events_wire(tail) + bad);
        assert(all_valid(tail));
        lemma_unknown_type_in_sequence(tail, (count - 1) as nat, bad);
    }
}

/// A message that announces more events than it holds is refused as
/// truncated; the events that are there are not returned.
pub proof fn lemma_count_fidelity(count: u16, padding: u16, events: Seq<InputEvent>)
    requires
        all_valid(events),
        events.len() < count,
    ensures
        InputEventPdu::parse(u16_bytes(count) + u16_bytes(padding) + events_wire(events))
            == Parsed::<Seq<InputEvent>>::Truncated,
{
    let bytes = u16_bytes(count) + u16_bytes(padding) + events_wire(events);
    assert(bytes.skip(4) =~= events_wire(events));
    crate::input::lemma_events_missing(events, count as nat);
}

/// A message decodes to exactly as many events as its count announces.
pub proof fn lemma_count_exact(bytes: Seq<u8>)
    requires
        InputEventPdu::parse(bytes) is Value,
    ensures
        InputEventPdu::parse(bytes)->value.len() == u16_le(bytes[0], bytes[1]),
{
    lemma_parse_events_len(bytes.skip(4), u16_le(bytes[0], bytes[1]) as nat);
}

/// Decoding `count` events gives `count` events or fails.
pub proof fn lemma_parse_events_len(bytes: Seq<u8>, count: nat)
    ensures
        parse_events(bytes, count) is Value ==> parse_events(bytes, count)->value.len() == count,
    decreases count,
{
    if count > 0 {
        match InputEvent::parse(bytes) {
            Parsed::Value { value, consumed } => {
                lemma_parse_events_len(bytes.skip(consumed as int), (count - 1) as nat);
            },
            _ => {},
        }
    }
}

} // verus!
