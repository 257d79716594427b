use ironrdp_pdu::input::mouse::{MousePdu, PointerFlags};
use ironrdp_pdu::input::mouse_rel::{MouseRelPdu, PointerRelFlags};
use ironrdp_pdu::input::mouse_x::{MouseXPdu, PointerXFlags};
use ironrdp_pdu::input::scan_code::{KeyboardFlags, ScanCodePdu};
use ironrdp_pdu::input::sync::{SyncPdu, SyncToggleFlags};
use ironrdp_pdu::input::unicode::UnicodePdu;
use ironrdp_pdu::input::unused::UnusedPdu;
use ironrdp_pdu::input::InputEventError;
use ironrdp_pdu::PduParsing;

fn wheel(flags: u16, units: i16) -> MousePdu {
    MousePdu {
        flags: PointerFlags::from_bits_truncate(flags),
        number_of_wheel_rotation_units: units,
        x_position: 1,
        y_position: 2,
    }
}

fn encode_mouse(pdu: &MousePdu) -> Vec<u8> {
    let mut buffer = Vec::new();
    pdu.to_buffer(&mut buffer).unwrap();
    buffer
}

#[test]
fn sync_payload_round_trips() {
    let pdu = SyncPdu { flags: SyncToggleFlags::from_bits_truncate(SyncToggleFlags::CAPS_LOCK) };
    let mut buffer = Vec::new();
    pdu.to_buffer(&mut buffer).unwrap();
    assert_eq!(buffer, vec![0, 0, 4, 0, 0, 0]);
    assert_eq!(buffer.len(), pdu.buffer_length());
    let mut stream = buffer.as_slice();
    assert_eq!(SyncPdu::from_buffer(&mut stream).unwrap(), pdu);
    assert!(stream.is_empty());
}

#[test]
fn sync_payload_reads_all_four_flag_bytes() {
    let mut stream: &[u8] = &[0xAB, 0xCD, 0x0F, 0x00, 0x00, 0x00];
    assert_eq!(SyncPdu::from_buffer(&mut stream).unwrap().flags.bits, 0xF);
    let mut stream: &[u8] = &[0, 0, 0x00, 0x01, 0x02, 0x80];
    assert_eq!(SyncPdu::from_buffer(&mut stream).unwrap().flags.bits, 0);
    let wide = SyncPdu { flags: SyncToggleFlags { bits: 0x8070_0301 } };
    let mut buffer = Vec::new();
    wide.to_buffer(&mut buffer).unwrap();
    assert_eq!(buffer, vec![0, 0, 0x01, 0x03, 0x70, 0x80]);
}

#[test]
fn unused_payload_is_six_bytes_of_anything() {
    let mut stream: &[u8] = &[9, 8, 7, 6, 5, 4, 3];
    assert_eq!(UnusedPdu::from_buffer(&mut stream).unwrap(), UnusedPdu);
    assert_eq!(stream, &[3]);
    let mut buffer = Vec::new();
    UnusedPdu.to_buffer(&mut buffer).unwrap();
    assert_eq!(buffer, vec![0; 6]);
    assert_eq!(UnusedPdu.buffer_length(), 6);
}

#[test]
fn scan_code_payload_round_trips() {
    let pdu = ScanCodePdu {
        flags: KeyboardFlags::from_bits_truncate(KeyboardFlags::RELEASE | KeyboardFlags::EXTENDED_1),
        key_code: 0xBEEF,
    };
    let mut buffer = Vec::new();
    pdu.to_buffer(&mut buffer).unwrap();
    assert_eq!(buffer, vec![0x00, 0x82, 0xEF, 0xBE, 0, 0]);
    assert_eq!(buffer.len(), pdu.buffer_length());
    let mut stream = buffer.as_slice();
    assert_eq!(ScanCodePdu::from_buffer(&mut stream).unwrap(), pdu);
}

#[test]
fn unicode_payload_round_trips() {
    let pdu = UnicodePdu {
        flags: ironrdp_pdu::input::unicode::KeyboardFlags::empty(),
        unicode_code: 0x0041,
    };
    let mut buffer = Vec::new();
    pdu.to_buffer(&mut buffer).unwrap();
    assert_eq!(buffer, vec![0x00, 0x00, 0x41, 0x00, 0, 0]);
    assert_eq!(buffer.len(), pdu.buffer_length());
    let mut stream = buffer.as_slice();
    assert_eq!(UnicodePdu::from_buffer(&mut stream).unwrap(), pdu);
}

#[test]
fn unicode_flags_know_release_only() {
    let mut stream: &[u8] = &[0x00, 0xC1, 0x41, 0x00, 0, 0];
    let pdu = UnicodePdu::from_buffer(&mut stream).unwrap();
    assert_eq!(pdu.flags.bits, 0x8000);
    assert!(pdu.flags.contains(ironrdp_pdu::input::unicode::KeyboardFlags::RELEASE));
}

#[test]
fn mouse_x_payload_round_trips() {
    let pdu = MouseXPdu {
        flags: PointerXFlags::from_bits_truncate(PointerXFlags::BUTTON1),
        x_position: 0x0102,
        y_position: 0x0304,
    };
    let mut buffer = Vec::new();
    pdu.to_buffer(&mut buffer).unwrap();
    assert_eq!(buffer, vec![0x01, 0x00, 0x02, 0x01, 0x04, 0x03]);
    assert_eq!(buffer.len(), pdu.buffer_length());
    let mut stream = buffer.as_slice();
    assert_eq!(MouseXPdu::from_buffer(&mut stream).unwrap(), pdu);
}

#[test]
fn mouse_rel_payload_round_trips_signed_offsets() {
    for (x, y) in [(0i16, 0i16), (1, -1), (i16::MAX, i16::MIN), (-256, 255), (-32767, 128)] {
        let pdu = MouseRelPdu {
            flags: PointerRelFlags::from_bits_truncate(
                PointerRelFlags::MOVE | PointerRelFlags::XBUTTON1 | PointerRelFlags::DOWN,
            ),
            x_delta: x,
            y_delta: y,
        };
        let mut buffer = Vec::new();
        pdu.to_buffer(&mut buffer).unwrap();
        assert_eq!(&buffer[..2], &[0x01, 0x88]);
        assert_eq!(&buffer[2..4], &x.to_le_bytes());
        assert_eq!(&buffer[4..6], &y.to_le_bytes());
        let mut stream = buffer.as_slice();
        assert_eq!(MouseRelPdu::from_buffer(&mut stream).unwrap(), pdu);
    }
}

#[test]
fn mouse_rel_payload_has_exact_bytes() {
    let pdu = MouseRelPdu { flags: PointerRelFlags::empty(), x_delta: -1, y_delta: i16::MIN };
    let mut buffer = Vec::new();
    pdu.to_buffer(&mut buffer).unwrap();
    assert_eq!(buffer, vec![0x00, 0x00, 0xFF, 0xFF, 0x00, 0x80]);
}

#[test]
fn mouse_wheel_forward_is_the_low_byte() {
    let pdu = wheel(PointerFlags::VERTICAL_WHEEL, 120);
    assert_eq!(encode_mouse(&pdu), vec![0x78, 0x02, 1, 0, 2, 0]);
    let mut stream: &[u8] = &[0x78, 0x02, 1, 0, 2, 0];
    assert_eq!(MousePdu::from_buffer(&mut stream).unwrap(), pdu);
}

#[test]
fn mouse_wheel_backward_is_nine_bit_twos_complement() {
    let pdu = wheel(PointerFlags::VERTICAL_WHEEL | PointerFlags::WHEEL_NEGATIVE, -120);
    assert_eq!(encode_mouse(&pdu), vec![0x88, 0x03, 1, 0, 2, 0]);
    let mut stream: &[u8] = &[0x88, 0x03, 1, 0, 2, 0];
    assert_eq!(MousePdu::from_buffer(&mut stream).unwrap(), pdu);
}

#[test]
fn mouse_wheel_round_trips_over_its_whole_range() {
    for units in -256i16..=255 {
        let sign = if units < 0 { PointerFlags::WHEEL_NEGATIVE } else { 0 };
        let pdu = wheel(PointerFlags::HORIZONTAL_WHEEL | sign, units);
        let bytes = encode_mouse(&pdu);
        assert_eq!(bytes.len(), pdu.buffer_length());
        let mut stream = bytes.as_slice();
        assert_eq!(MousePdu::from_buffer(&mut stream).unwrap(), pdu);
    }
}

#[test]
fn mouse_encoding_sets_the_sign_bit_for_a_negative_rotation() {
    let pdu = wheel(PointerFlags::VERTICAL_WHEEL, -1);
    assert_eq!(encode_mouse(&pdu), vec![0xFF, 0x03, 1, 0, 2, 0]);
    let mut stream: &[u8] = &[0xFF, 0x03, 1, 0, 2, 0];
    let back = MousePdu::from_buffer(&mut stream).unwrap();
    assert_eq!(back.number_of_wheel_rotation_units, -1);
    assert!(back.flags.contains(PointerFlags::WHEEL_NEGATIVE));
}

#[test]
fn mouse_encoding_keeps_the_low_byte_of_a_rotation_out_of_range() {
    assert_eq!(encode_mouse(&wheel(0, 0x0123)), vec![0x23, 0x00, 1, 0, 2, 0]);
    assert_eq!(encode_mouse(&wheel(0, i16::MIN)), vec![0x00, 0x01, 1, 0, 2, 0]);
}

#[test]
fn mouse_decoding_takes_every_first_field() {
    for raw in 0..=u16::MAX {
        let bytes = [(raw & 0xFF) as u8, (raw >> 8) as u8, 0, 0, 0, 0];
        let mut stream = &bytes[..];
        let pdu = MousePdu::from_buffer(&mut stream).unwrap();
        assert_eq!(pdu.flags.bits, raw & 0xFF00);
        let low = (raw & 0xFF) as i16;
        let expected = if raw & 0x0100 != 0 { low - 256 } else { low };
        assert_eq!(pdu.number_of_wheel_rotation_units, expected);
        let mut again = Vec::new();
        pdu.to_buffer(&mut again).unwrap();
        assert_eq!(again, bytes);
    }
}

#[test]
fn short_payloads_are_truncated() {
    for k in 0..6 {
        let bytes = vec![0u8; k];
        assert!(matches!(SyncPdu::from_buffer(&mut bytes.as_slice()), Err(InputEventError::IOError(_))));
        assert!(matches!(UnusedPdu::from_buffer(&mut bytes.as_slice()), Err(InputEventError::IOError(_))));
        assert!(matches!(ScanCodePdu::from_buffer(&mut bytes.as_slice()), Err(InputEventError::IOError(_))));
        assert!(matches!(UnicodePdu::from_buffer(&mut bytes.as_slice()), Err(InputEventError::IOError(_))));
        assert!(matches!(MousePdu::from_buffer(&mut bytes.as_slice()), Err(InputEventError::IOError(_))));
        assert!(matches!(MouseXPdu::from_buffer(&mut bytes.as_slice()), Err(InputEventError::IOError(_))));
        assert!(matches!(MouseRelPdu::from_buffer(&mut bytes.as_slice()), Err(InputEventError::IOError(_))));
    }
}

#[test]
fn flags_truncate_contain_and_start_empty() {
    assert_eq!(SyncToggleFlags::from_bits_truncate(0xFFFF_FFFF).bits, 0xF);
    assert_eq!(KeyboardFlags::from_bits_truncate(0xFFFF).bits, 0xC300);
    assert_eq!(PointerFlags::from_bits_truncate(0xFFFF).bits, 0xFF00);
    assert_eq!(PointerXFlags::from_bits_truncate(0xFFFF).bits, 0x8003);
    assert_eq!(PointerRelFlags::from_bits_truncate(0xFFFF).bits, 0xF803);
    assert_eq!(SyncToggleFlags::empty().bits, 0);
    assert_eq!(KeyboardFlags::empty().bits, 0);
    assert_eq!(PointerFlags::empty().bits, 0);
    assert_eq!(PointerXFlags::empty().bits, 0);
    assert_eq!(PointerRelFlags::empty().bits, 0);
    let flags = KeyboardFlags::from_bits_truncate(KeyboardFlags::DOWN | KeyboardFlags::EXTENDED);
    assert!(flags.contains(KeyboardFlags::DOWN));
    assert!(flags.contains(KeyboardFlags::DOWN | KeyboardFlags::EXTENDED));
    assert!(!flags.contains(KeyboardFlags::RELEASE));
    assert!(!flags.contains(KeyboardFlags::DOWN | KeyboardFlags::RELEASE));
    assert!(SyncToggleFlags::from_bits_truncate(6).contains(SyncToggleFlags::NUM_LOCK));
    assert!(!SyncToggleFlags::from_bits_truncate(6).contains(SyncToggleFlags::SCROLL_LOCK));
    assert!(PointerXFlags::from_bits_truncate(0x8001).contains(PointerXFlags::BUTTON1));
    assert!(!PointerRelFlags::from_bits_truncate(0x0800).contains(PointerRelFlags::DOWN));
}
