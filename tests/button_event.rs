use adafruit_bluefruit_protocol::{
    Button, ButtonEvent, ButtonParseError, ButtonState, ProtocolParseError,
};

fn assert_is_button_event(
    result: &Result<ButtonEvent, ProtocolParseError>,
    button: Button,
    button_state: ButtonState,
) {
    match result {
        Ok(event) => {
            assert_eq!(event.button(), &button);
            assert_eq!(event.state(), &button_state)
        }
        _ => assert!(false),
    }
}

#[test]
fn test_parse_button1_pressed_event() {
    let input: &[u8] = b"11";
    assert_is_button_event(
        &ButtonEvent::try_from(input),
        Button::Button1,
        ButtonState::Pressed,
    );
}

#[test]
fn test_parse_button1_released_event() {
    let input: &[u8] = b"11";
    assert_is_button_event(
        &ButtonEvent::try_from(input),
        Button::Button1,
        ButtonState::Pressed,
    );
}

#[test]
fn test_parse_button2_pressed_event() {
    let input: &[u8] = b"21";
    assert_is_button_event(
        &ButtonEvent::try_from(input),
        Button::Button2,
        ButtonState::Pressed,
    );
}

#[test]
fn test_parse_button3_pressed_event() {
    let input: &[u8] = b"31";
    assert_is_button_event(
        &ButtonEvent::try_from(input),
        Button::Button3,
        ButtonState::Pressed,
    );
}

#[test]
fn test_parse_button4_pressed_event() {
    let input: &[u8] = b"41";
    assert_is_button_event(
        &ButtonEvent::try_from(input),
        Button::Button4,
        ButtonState::Pressed,
    );
}

#[test]
fn test_parse_button_up_pressed_event() {
    let input: &[u8] = b"51";
    assert_is_button_event(
        &ButtonEvent::try_from(input),
        Button::Up,
        ButtonState::Pressed,
    );
}

#[test]
fn test_parse_button_down_pressed_event() {
    let input: &[u8] = b"61";
    assert_is_button_event(
        &ButtonEvent::try_from(input),
        Button::Down,
        ButtonState::Pressed,
    );
}

#[test]
fn test_parse_button_left_pressed_event() {
    let input: &[u8] = b"71";
    assert_is_button_event(
        &ButtonEvent::try_from(input),
        Button::Left,
        ButtonState::Pressed,
    );
}

#[test]
fn test_parse_button_right_pressed_event() {
    let input: &[u8] = b"81";
    assert_is_button_event(
        &ButtonEvent::try_from(input),
        Button::Right,
        ButtonState::Pressed,
    );
}

#[test]
fn button_released_state_decodes() {
    let input: &[u8] = b"40";
    assert_is_button_event(
        &ButtonEvent::try_from(input),
        Button::Button4,
        ButtonState::Released,
    );
}

#[test]
fn test_parse_invalid_button() {
    let input: &[u8] = b"01";
    assert_eq!(
        ButtonEvent::try_from(input),
        Err(ProtocolParseError::ButtonParseError(
            ButtonParseError::UnknownButton(b'0')
        ))
    );
}

#[test]
fn test_parse_invalid_button_state() {
    let input: &[u8] = b"13";
    assert_eq!(
        ButtonEvent::try_from(input),
        Err(ProtocolParseError::ButtonParseError(
            ButtonParseError::UnknownButtonState(b'3')
        ))
    );
}

#[test]
fn button_unknown_button_is_reported_before_state() {
    let input: &[u8] = b"9x";
    assert_eq!(
        ButtonEvent::try_from(input),
        Err(ProtocolParseError::ButtonParseError(
            ButtonParseError::UnknownButton(b'9')
        ))
    );
}

#[test]
fn button_wrong_length_is_invalid_length() {
    let input: &[u8] = b"111";
    assert_eq!(
        ButtonEvent::try_from(input),
        Err(ProtocolParseError::InvalidLength(2, 3))
    );
}

#[test]
fn button_ids_map_one_to_one() {
    assert_eq!(Button::from_id(&b'5'), Ok(Button::Up));
    assert_eq!(Button::from_id(&b'9'), Err(ButtonParseError::UnknownButton(b'9')));
    assert_eq!(ButtonState::from_id(&b'0'), Ok(ButtonState::Released));
    assert_eq!(
        ButtonState::from_id(&b'2'),
        Err(ButtonParseError::UnknownButtonState(b'2'))
    );
}
