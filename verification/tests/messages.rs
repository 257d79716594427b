use ironrdp_pdu::input::scan_code::{KeyboardFlags, ScanCodePdu};
use ironrdp_pdu::input::sync::{SyncPdu, SyncToggleFlags};
use ironrdp_pdu::input::unused::UnusedPdu;
use ironrdp_pdu::input::{InputEvent, InputEventError, InputEventPdu};
use ironrdp_pdu::{decode, PduParsing};

const TWO_EVENTS: [u8; 28] = [
    0x02, 0x00, // count
    0x00, 0x00, // padding
    0x00, 0x00, 0x00, 0x00, 0x00, 0x00, // time stamp, synchronize
    0x00, 0x00, 0x05, 0x00, 0x00, 0x00, // padding, scroll lock and caps lock
    0x00, 0x00, 0x00, 0x00, 0x04, 0x00, // time stamp, scan code
    0x00, 0x80, 0x1C, 0x00, 0x00, 0x00, // release, key 0x1C, padding
];

fn two_events() -> InputEventPdu {
    InputEventPdu(vec![
        InputEvent::Sync(SyncPdu {
            flags: SyncToggleFlags::from_bits_truncate(
                SyncToggleFlags::SCROLL_LOCK | SyncToggleFlags::CAPS_LOCK,
            ),
        }),
        InputEvent::ScanCode(ScanCodePdu {
            flags: KeyboardFlags::from_bits_truncate(KeyboardFlags::RELEASE),
            key_code: 0x1C,
        }),
    ])
}

fn encode(pdu: &InputEventPdu) -> Vec<u8> {
    let mut buffer = Vec::new();
    pdu.to_buffer(&mut buffer).unwrap();
    buffer
}

#[test]
fn sync_then_scan_code_decodes_and_encodes_back() {
    let mut stream = &TWO_EVENTS[..];
    let pdu = InputEventPdu::from_buffer(&mut stream).unwrap();
    assert!(stream.is_empty());
    assert_eq!(pdu.0.len(), 2);
    assert!(matches!(pdu.0[0], InputEvent::Sync(_)));
    assert!(matches!(pdu.0[1], InputEvent::ScanCode(_)));
    assert_eq!(pdu, two_events());
    assert_eq!(encode(&pdu), TWO_EVENTS.to_vec());
}

#[test]
fn message_length_is_header_and_twelve_per_event() {
    assert_eq!(InputEventPdu(vec![]).buffer_length(), 4);
    assert_eq!(two_events().buffer_length(), 28);
    assert_eq!(encode(&two_events()).len(), two_events().buffer_length());
    let many = InputEventPdu(vec![InputEvent::Unused(UnusedPdu); 100]);
    assert_eq!(many.buffer_length(), 1204);
    assert_eq!(encode(&many).len(), 1204);
}

#[test]
fn empty_message_is_four_zero_bytes() {
    assert_eq!(encode(&InputEventPdu(vec![])), vec![0, 0, 0, 0]);
    let pdu: InputEventPdu = decode(&[0, 0, 0xFF, 0xFF]).unwrap();
    assert_eq!(pdu, InputEventPdu(vec![]));
}

#[test]
fn three_byte_buffer_is_truncated() {
    let mut stream: &[u8] = &[0x02, 0x00, 0x00];
    match InputEventPdu::from_buffer(&mut stream) {
        Err(InputEventError::IOError(e)) => assert_eq!(e.kind(), std::io::ErrorKind::UnexpectedEof),
        other => panic!("unexpected result: {:?}", other),
    }
}

#[test]
fn every_strict_prefix_of_a_message_is_truncated() {
    for k in 0..TWO_EVENTS.len() {
        let mut stream = &TWO_EVENTS[..k];
        match InputEventPdu::from_buffer(&mut stream) {
            Err(InputEventError::IOError(e)) => {
                assert_eq!(e.kind(), std::io::ErrorKind::UnexpectedEof)
            }
            other => panic!("unexpected result at {}: {:?}", k, other),
        }
    }
}

#[test]
fn count_above_the_events_present_is_truncated() {
    let mut bytes = TWO_EVENTS.to_vec();
    bytes[0] = 3;
    assert!(matches!(decode::<InputEventPdu>(&bytes), Err(InputEventError::IOError(_))));
    bytes[0] = 0xFF;
    bytes[1] = 0xFF;
    assert!(matches!(decode::<InputEventPdu>(&bytes), Err(InputEventError::IOError(_))));
}

#[test]
fn count_below_the_events_present_leaves_the_rest() {
    let mut bytes = TWO_EVENTS.to_vec();
    bytes[0] = 1;
    let mut stream = bytes.as_slice();
    let pdu = InputEventPdu::from_buffer(&mut stream).unwrap();
    assert_eq!(pdu.0, two_events().0[..1].to_vec());
    assert_eq!(stream, &TWO_EVENTS[16..]);
}

#[test]
fn padding_is_ignored_on_read_and_zero_on_write() {
    let mut bytes = TWO_EVENTS.to_vec();
    bytes[2] = 0xAB;
    bytes[3] = 0xCD;
    let pdu: InputEventPdu = decode(&bytes).unwrap();
    assert_eq!(pdu, two_events());
    assert_eq!(encode(&pdu), TWO_EVENTS.to_vec());
}

#[test]
fn first_failing_event_decides_the_error() {
    let mut bytes = TWO_EVENTS.to_vec();
    bytes[20] = 0x03; // second event: unknown type
    match decode::<InputEventPdu>(&bytes) {
        Err(InputEventError::InvalidInputEventType(code)) => assert_eq!(code, 3),
        other => panic!("unexpected result: {:?}", other),
    }
    bytes[8] = 0x07; // first event: unknown type as well
    bytes[9] = 0x80;
    match decode::<InputEventPdu>(&bytes) {
        Err(InputEventError::InvalidInputEventType(code)) => assert_eq!(code, 0x8007),
        other => panic!("unexpected result: {:?}", other),
    }
    let cut = &bytes[..10]; // first event unknown, and nothing behind its header
    match decode::<InputEventPdu>(cut) {
        Err(InputEventError::InvalidInputEventType(code)) => assert_eq!(code, 0x8007),
        other => panic!("unexpected result: {:?}", other),
    }
}

#[test]
fn events_keep_their_order() {
    let pdu = InputEventPdu(vec![
        two_events().0[1],
        InputEvent::Unused(UnusedPdu),
        two_events().0[0],
        two_events().0[1],
    ]);
    let bytes = encode(&pdu);
    assert_eq!(&bytes[..4], &[4, 0, 0, 0]);
    assert_eq!(&bytes[4..16], &TWO_EVENTS[16..28]);
    assert_eq!(&bytes[28..40], &TWO_EVENTS[4..16]);
    let back: InputEventPdu = decode(&bytes).unwrap();
    assert_eq!(back, pdu);
}

#[test]
fn largest_count_round_trips() {
    let pdu = InputEventPdu(vec![InputEvent::Unused(UnusedPdu); 0xFFFF]);
    let bytes = encode(&pdu);
    assert_eq!(&bytes[..4], &[0xFF, 0xFF, 0, 0]);
    assert_eq!(bytes.len(), 4 + 12 * 0xFFFF);
    let mut stream = bytes.as_slice();
    assert_eq!(InputEventPdu::from_buffer(&mut stream).unwrap(), pdu);
    assert!(stream.is_empty());
}

#[test]
fn count_field_keeps_the_low_sixteen_bits_of_a_longer_sequence() {
    let pdu = InputEventPdu(vec![InputEvent::Unused(UnusedPdu); 0x1_0001]);
    let bytes = encode(&pdu);
    assert_eq!(&bytes[..4], &[0x01, 0x00, 0, 0]);
    assert_eq!(bytes.len(), pdu.buffer_length());
    let mut stream = bytes.as_slice();
    let back = InputEventPdu::from_buffer(&mut stream).unwrap();
    assert_eq!(back.0.len(), 1);
    assert_eq!(stream.len(), 12 * 0x1_0000);
}

#[test]
fn stream_after_a_failure_is_a_suffix_of_what_it_held() {
    for k in 0..TWO_EVENTS.len() {
        let mut stream = &TWO_EVENTS[..k];
        assert!(InputEventPdu::from_buffer(&mut stream).is_err());
        assert!(TWO_EVENTS[..k].ends_with(stream));
    }
    let mut bytes = TWO_EVENTS.to_vec();
    bytes[20] = 0x03;
    let mut stream = bytes.as_slice();
    assert!(InputEventPdu::from_buffer(&mut stream).is_err());
    assert!(bytes.ends_with(stream));
}
