use sway_ipc::{
    decode_header, encode_frame, encode_header, is_event_code, request_frame, ByteOrder,
    EventType, FramingError, Header, MessageType, HEADER_LEN,
};

const MAGIC: [u8; 6] = [105, 51, 45, 105, 112, 99];

#[test]
fn header_layout_little_endian() {
    let h = encode_header(ByteOrder::Little, 2, 5);
    assert_eq!(h, vec![105, 51, 45, 105, 112, 99, 5, 0, 0, 0, 2, 0, 0, 0]);
}

#[test]
fn header_layout_big_endian() {
    let h = encode_header(ByteOrder::Big, 0x8000_0003, 0x0102_0304);
    assert_eq!(h, vec![105, 51, 45, 105, 112, 99, 1, 2, 3, 4, 0x80, 0, 0, 3]);
}

#[test]
fn header_round_trip_every_code() {
    let mut codes: Vec<u32> = Vec::new();
    for op in [
        MessageType::RunCommand,
        MessageType::GetWorkspaces,
        MessageType::Subscribe,
        MessageType::GetOutputs,
        MessageType::GetTree,
        MessageType::GetMarks,
        MessageType::GetBarConfig,
        MessageType::GetVersion,
        MessageType::GetBindingModes,
        MessageType::GetConfig,
        MessageType::SendTick,
        MessageType::GetBindingState,
        MessageType::GetInputs,
        MessageType::GetSeats,
    ] {
        codes.push(op.code());
    }
    for e in [EventType::Workspace, EventType::Input, EventType::BarStateUpdate] {
        codes.push(e.code());
    }
    for order in [ByteOrder::Little, ByteOrder::Big] {
        for &code in &codes {
            for len in [0u32, 1, 255, 256, 70000, u32::MAX] {
                let h = encode_header(order, code, len);
                assert_eq!(h.len(), HEADER_LEN);
                assert_eq!(decode_header(order, &h), Ok(Header { length: len, type_code: code }));
            }
        }
    }
}

#[test]
fn frame_round_trip_recovers_payload() {
    let payload = br#"[{"success":true}]"#;
    let f = encode_frame(ByteOrder::Little, 0, payload);
    assert_eq!(f.len(), HEADER_LEN + payload.len());
    let h = decode_header(ByteOrder::Little, &f[..HEADER_LEN]).unwrap();
    assert_eq!(h, Header { length: payload.len() as u32, type_code: 0 });
    assert_eq!(&f[HEADER_LEN..], &payload[..]);
}

#[test]
fn frame_round_trip_empty_payload() {
    let f = encode_frame(ByteOrder::Big, 4, &[]);
    assert_eq!(f.len(), HEADER_LEN);
    assert_eq!(decode_header(ByteOrder::Big, &f), Ok(Header { length: 0, type_code: 4 }));
}

#[test]
fn bad_magic_is_a_framing_error() {
    let mut h = encode_header(ByteOrder::Little, 1, 0);
    h[2] = b'x';
    assert_eq!(decode_header(ByteOrder::Little, &h), Err(FramingError::BadMagic));
    let zeros = [0u8; 14];
    assert_eq!(decode_header(ByteOrder::Little, &zeros), Err(FramingError::BadMagic));
}

#[test]
fn back_to_back_frames_stay_aligned() {
    let first = b"{not json";
    let second = br#"{"change":"focus"}"#;
    let mut stream = encode_frame(ByteOrder::Little, 0x8000_0000, first);
    stream.extend(encode_frame(ByteOrder::Little, 0x8000_0003, second));
    let h1 = decode_header(ByteOrder::Little, &stream[..HEADER_LEN]).unwrap();
    let end1 = HEADER_LEN + h1.length as usize;
    assert_eq!(&stream[HEADER_LEN..end1], &first[..]);
    let h2 = decode_header(ByteOrder::Little, &stream[end1..end1 + HEADER_LEN]).unwrap();
    assert_eq!(h2, Header { length: second.len() as u32, type_code: 0x8000_0003 });
    assert_eq!(&stream[end1 + HEADER_LEN..], &second[..]);
}

#[test]
fn request_frame_with_payload() {
    let f = request_frame(ByteOrder::Little, MessageType::RunCommand, Some("nop;nop"));
    let mut expected = MAGIC.to_vec();
    expected.extend([7, 0, 0, 0, 0, 0, 0, 0]);
    expected.extend(b"nop;nop");
    assert_eq!(f, expected);
}

#[test]
fn request_frame_without_payload() {
    let f = request_frame(ByteOrder::Little, MessageType::GetSeats, None);
    let mut expected = MAGIC.to_vec();
    expected.extend([0, 0, 0, 0, 101, 0, 0, 0]);
    assert_eq!(f, expected);
}

#[test]
fn bar_config_opcode_serves_both_forms() {
    let list = request_frame(ByteOrder::Little, MessageType::GetBarConfig, None);
    let one = request_frame(ByteOrder::Little, MessageType::GetBarConfig, Some("bar-0"));
    assert_eq!(&list[10..14], &[6, 0, 0, 0]);
    assert_eq!(&one[10..14], &[6, 0, 0, 0]);
    assert_eq!(&one[6..10], &[5, 0, 0, 0]);
    assert_eq!(&one[14..], b"bar-0");
}

#[test]
fn utf8_payload_length_counts_bytes() {
    let f = request_frame(ByteOrder::Little, MessageType::RunCommand, Some("é"));
    assert_eq!(&f[6..10], &[2, 0, 0, 0]);
    assert_eq!(f.len(), HEADER_LEN + 2);
}

#[test]
fn opcode_table() {
    let table = [
        (MessageType::RunCommand, 0),
        (MessageType::GetWorkspaces, 1),
        (MessageType::Subscribe, 2),
        (MessageType::GetOutputs, 3),
        (MessageType::GetTree, 4),
        (MessageType::GetMarks, 5),
        (MessageType::GetBarConfig, 6),
        (MessageType::GetVersion, 7),
        (MessageType::GetBindingModes, 8),
        (MessageType::GetConfig, 9),
        (MessageType::SendTick, 10),
        (MessageType::GetBindingState, 12),
        (MessageType::GetInputs, 100),
        (MessageType::GetSeats, 101),
    ];
    for (op, code) in table {
        assert_eq!(op.code(), code);
        assert!(!is_event_code(code));
        assert_eq!(EventType::from_code(code), None);
    }
}

#[test]
fn event_code_table() {
    let table = [
        (EventType::Workspace, 0x8000_0000, "workspace"),
        (EventType::Mode, 0x8000_0002, "mode"),
        (EventType::Window, 0x8000_0003, "window"),
        (EventType::BarconfigUpdate, 0x8000_0004, "barconfig_update"),
        (EventType::Binding, 0x8000_0005, "binding"),
        (EventType::Shutdown, 0x8000_0006, "shutdown"),
        (EventType::Tick, 0x8000_0007, "tick"),
        (EventType::BarStateUpdate, 0x8000_0014, "bar_state_update"),
        (EventType::Input, 0x8000_0015, "input"),
    ];
    for (e, code, name) in table {
        assert_eq!(e.code(), code);
        assert!(is_event_code(code));
        assert_eq!(EventType::from_code(code), Some(e));
        assert_eq!(e.name(), name);
    }
    assert_eq!(EventType::from_code(0x8000_0001), None);
    assert!(is_event_code(0x8000_0001));
}
