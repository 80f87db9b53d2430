use adafruit_bluefruit_protocol::{ColorEvent, ProtocolParseError};
use rgb::RGB8;

#[test]
fn test_parse_color_event() {
    let input: &[u8] = b"\xff-9";
    let expected = ColorEvent {
        red: 255,
        green: 45,
        blue: 57,
    };

    assert_eq!(ColorEvent::try_from(input), Ok(expected));
}

#[test]
fn test_into_rgb8() {
    let input = ColorEvent {
        red: 1,
        green: 2,
        blue: 3,
    };
    let expected = RGB8 { r: 1, g: 2, b: 3 };

    let result: RGB8 = input.into();
    assert_eq!(result, expected);
}

#[test]
fn color_accessors_return_components() {
    let input: &[u8] = b"\x01\x02\x03";
    let event = ColorEvent::try_from(input).unwrap();
    assert_eq!((event.red(), event.green(), event.blue()), (1, 2, 3));
}

#[test]
fn color_wrong_length_is_invalid_length() {
    let input: &[u8] = b"\x01\x02";
    assert_eq!(
        ColorEvent::try_from(input),
        Err(ProtocolParseError::InvalidLength(3, 2))
    );
}
