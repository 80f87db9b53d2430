use adafruit_bluefruit_protocol::{
    check_crc, extract_and_parse_command, parse, parse_command, parse_with, Button, ButtonEvent,
    ButtonParseError, ButtonState, ColorEvent, ControllerDataPackageType, ControllerEvent,
    EnabledEvents, LocationEvent, ProtocolParseError, Scanner,
};

fn assert_is_button_event(
    event: &Result<ControllerEvent, ProtocolParseError>,
    button: Button,
    button_state: ButtonState,
) {
    match event {
        Ok(ControllerEvent::ButtonEvent(event)) => {
            assert_eq!(event.button(), &button);
            assert_eq!(event.state(), &button_state)
        }
        _ => assert!(false),
    }
}

/// Appends the checksum to `body` (marker, id and data).
fn frame(body: &[u8]) -> Vec<u8> {
    let sum = body.iter().fold(0u16, |s, b| s.wrapping_add(*b as u16));
    let mut f = body.to_vec();
    f.push((!sum & 0xff) as u8);
    f
}

#[test]
fn test_parse() {
    let input = b"\x00!B11:!B10;\x00\x00!\x00\x00\x00\x00!B138";
    let result = parse(input);

    assert_eq!(result.len(), 4);
    assert_is_button_event(&result[0], Button::Button1, ButtonState::Pressed);
    assert_is_button_event(&result[1], Button::Button1, ButtonState::Released);
    assert_eq!(result[2], Err(ProtocolParseError::UnknownEvent(Some(0))));
    if let Err(e) = &result[3] {
        assert_eq!(
            e,
            &ProtocolParseError::ButtonParseError(ButtonParseError::UnknownButtonState(b'3'))
        );
    } else {
        assert!(false, "expected an error");
    }
}

#[test]
fn test_check_crc_ok() {
    let input = b"!B11:";
    let data = &input[0..input.len() - 1];
    let crc = input.last().unwrap();

    assert!(check_crc(data, &crc).is_ok());
}

#[test]
fn test_check_crc_err() {
    let input = b"!B11;";
    let correct_crc = b':';
    let data = &input[0..input.len() - 1];
    let crc = input.last().unwrap();

    assert_eq!(
        check_crc(data, &crc),
        Err(ProtocolParseError::InvalidCrc(*crc, correct_crc as u16))
    );
}

#[test]
fn checksum_wraps_at_sixteen_bits() {
    let data = [0xffu8; 300];
    let sum = (300u32 * 0xff) % 0x10000;
    let expected = (!(sum as u16)) & 0xff;
    assert_eq!(check_crc(&data, &(expected as u8)), Ok(()));
    assert_eq!(
        check_crc(&data, &0),
        Err(ProtocolParseError::InvalidCrc(0, expected))
    );
}

#[test]
fn every_kind_round_trips_through_a_frame() {
    let floats = [1.25f32, -3.5, 0.1, f32::MAX];
    let mut bytes = Vec::new();
    for f in floats {
        bytes.extend_from_slice(&f.to_le_bytes());
    }
    for (id, len) in [(b'Q', 16usize), (b'A', 12), (b'G', 12), (b'M', 12), (b'L', 12)] {
        let mut body = vec![b'!', id];
        body.extend_from_slice(&bytes[..len]);
        let result = parse(&frame(&body));
        assert_eq!(result.len(), 1);
        let fields: Vec<u32> = match result[0] {
            Ok(ControllerEvent::QuaternionEvent(e)) => vec![e.x(), e.y(), e.z(), e.w()],
            Ok(ControllerEvent::AccelerometerEvent(e)) => vec![e.x(), e.y(), e.z()],
            Ok(ControllerEvent::GyroEvent(e)) => vec![e.x(), e.y(), e.z()],
            Ok(ControllerEvent::MagnetometerEvent(e)) => vec![e.x(), e.y(), e.z()],
            Ok(ControllerEvent::LocationEvent(e)) => {
                vec![e.latitude(), e.longitude(), e.altitude()]
            }
            _ => panic!("unexpected result {:?}", result[0]),
        };
        let decoded: Vec<f32> = fields.into_iter().map(f32::from_bits).collect();
        assert_eq!(decoded, floats[..len / 4].to_vec());
    }
    let result = parse(&frame(b"!C\x10\x20\x30"));
    assert_eq!(
        result,
        vec![Ok(ControllerEvent::ColorEvent(ColorEvent {
            red: 0x10,
            green: 0x20,
            blue: 0x30
        }))]
    );
}

#[test]
fn location_frame_decodes_exact_values() {
    let mut body = vec![b'!', b'L'];
    for f in [1.2f32, 2.3, 3.4] {
        body.extend_from_slice(&f.to_le_bytes());
    }
    let result = parse(&frame(&body));
    assert_eq!(
        result,
        vec![Ok(ControllerEvent::LocationEvent(LocationEvent {
            latitude: 1.2f32.to_bits(),
            longitude: 2.3f32.to_bits(),
            altitude: 3.4f32.to_bits(),
        }))]
    );
}

#[test]
fn flipping_a_payload_bit_breaks_the_checksum() {
    let valid = frame(b"!C\x10\x20\x30");
    for i in 2..5 {
        for bit in 0..8 {
            let mut f = valid.clone();
            f[i] ^= 1 << bit;
            let result = parse_command(ControllerDataPackageType::Color, &f, EnabledEvents::all());
            assert!(matches!(result, Err(ProtocolParseError::InvalidCrc(_, _))));
        }
    }
}

#[test]
fn wrong_frame_length_is_invalid_length() {
    assert_eq!(
        parse_command(ControllerDataPackageType::Quaternion, b"!Q\x00\x00", EnabledEvents::all()),
        Err(ProtocolParseError::InvalidLength(19, 4))
    );
    assert_eq!(
        parse_command(ControllerDataPackageType::ButtonCommand, b"!B11:x", EnabledEvents::all()),
        Err(ProtocolParseError::InvalidLength(5, 6))
    );
    assert_eq!(
        parse(b"!G\x00\x00\x00"),
        vec![Err(ProtocolParseError::InvalidLength(15, 5))]
    );
}

#[test]
fn unknown_id_and_trailing_marker() {
    assert_eq!(
        extract_and_parse_command(b"!Z12", EnabledEvents::all()),
        Err(ProtocolParseError::UnknownEvent(Some(b'Z')))
    );
    assert_eq!(
        extract_and_parse_command(b"!", EnabledEvents::all()),
        Err(ProtocolParseError::UnknownEvent(None))
    );
    assert_eq!(
        ControllerDataPackageType::try_from(b'x'),
        Err(ProtocolParseError::UnknownEvent(Some(b'x')))
    );
    assert_eq!(parse(b"\x00\x00!"), vec![Err(ProtocolParseError::UnknownEvent(None))]);
}

#[test]
fn noise_between_frames_is_skipped() {
    let mut input = b"\x00\x00xyz".to_vec();
    input.extend_from_slice(b"!B11:");
    input.extend_from_slice(b"\x00junk\x00");
    input.extend_from_slice(b"!B");
    input.extend_from_slice(b"!C");
    input.extend_from_slice(&frame(b"!C\x01\x02\x03"));
    let result = parse(&input);
    assert_eq!(result.len(), 4);
    assert_is_button_event(&result[0], Button::Button1, ButtonState::Pressed);
    assert!(result[1].is_err());
    assert!(result[2].is_err());
    assert_eq!(
        result[3],
        Ok(ControllerEvent::ColorEvent(ColorEvent {
            red: 1,
            green: 2,
            blue: 3
        }))
    );
}

#[test]
fn decoding_twice_gives_the_same_results() {
    let input = b"\x00!B11:!B10;\x00\x00!\x00\x00\x00\x00!B138";
    assert_eq!(parse(input), parse(input));
    let mut a = Scanner::new(input, EnabledEvents::all());
    let mut b = Scanner::new(input, EnabledEvents::all());
    loop {
        let (x, y) = (a.next_result(), b.next_result());
        assert_eq!(x, y);
        if x.is_none() {
            break;
        }
    }
}

#[test]
fn disabled_kind_is_reported_after_checksum() {
    let enabled = EnabledEvents {
        button: false,
        ..EnabledEvents::all()
    };
    assert_eq!(
        parse_with(b"!B11:", enabled, 8),
        vec![Err(ProtocolParseError::DisabledControllerDataPackageType(
            ControllerDataPackageType::ButtonCommand
        ))]
    );
    assert_eq!(
        parse_with(b"!B11;", enabled, 8),
        vec![Err(ProtocolParseError::InvalidCrc(b';', b':' as u16))]
    );
}

#[test]
fn result_count_is_bounded() {
    let input = b"!B11:!B10;!B11:";
    assert_eq!(parse_with(input, EnabledEvents::all(), 2).len(), 2);
    assert_eq!(parse_with(input, EnabledEvents::all(), 0).len(), 0);
    assert_eq!(parse(input).len(), 3);
}

#[test]
fn scanner_ends_for_good() {
    let mut s = Scanner::new(b"!B11:", EnabledEvents::all());
    assert!(s.next_result().is_some());
    assert!(s.next_result().is_none());
    assert!(s.next_result().is_none());
}

#[test]
fn data_lengths_per_kind() {
    assert_eq!(ControllerDataPackageType::ButtonCommand.data_len(), 2);
    assert_eq!(ControllerDataPackageType::Color.data_len(), 3);
    assert_eq!(ControllerDataPackageType::Quaternion.data_len(), 16);
    assert_eq!(ControllerDataPackageType::Location.data_len(), 12);
}

#[test]
fn lone_marker_does_not_hide_the_next_frame() {
    let result = parse(b"!!B11:");
    assert_eq!(result.len(), 2);
    assert_eq!(result[0], Err(ProtocolParseError::UnknownEvent(Some(b'!'))));
    assert_is_button_event(&result[1], Button::Button1, ButtonState::Pressed);
}

#[test]
fn frame_cut_off_near_the_end() {
    assert_eq!(parse(b"\x00!B"), vec![Err(ProtocolParseError::InvalidLength(5, 2))]);
    assert_eq!(parse(b"\x00!B1"), vec![Err(ProtocolParseError::InvalidLength(5, 3))]);
    assert_eq!(
        parse(b"\x00!B11"),
        vec![Err(ProtocolParseError::InvalidLength(5, 4))]
    );
}

#[test]
fn decoders_are_reached_through_try_from_and_try_into() {
    let input: &[u8] = b"11";
    let event: Result<ButtonEvent, ProtocolParseError> = input.try_into();
    assert_eq!(event, ButtonEvent::try_from(input));
    assert_eq!(
        ControllerDataPackageType::try_from(b'C'),
        Ok(ControllerDataPackageType::Color)
    );
}
