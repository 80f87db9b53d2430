//! The button event and its decoding from the protocol.
use vstd::prelude::*;

use crate::ProtocolParseError;

verus! {

/// Errors which can be raised while decoding a button event.
#[derive(PartialEq, Eq, Structural, Debug, Hash, Clone, Copy)]
pub enum ButtonParseError {
    /// The message contained an unknown button. For the known buttons see [`Button`].
    UnknownButton(u8),
    /// The message contained an unknown button state. For the known states see [`ButtonState`].
    UnknownButtonState(u8),
}

/// The buttons of the controller.
#[derive(PartialEq, Eq, Structural, Debug, Copy, Clone, Hash)]
pub enum Button {
    Button1,
    Button2,
    Button3,
    Button4,
    Up,
    Down,
    Left,
    Right,
}

/// The button that a protocol id names: the ASCII digits `'1'` to `'8'`.
pub open spec fn button_of_id(id: u8) -> Option<Button> {
    if id == 0x31 {
        Some(Button::Button1)
    } else if id == 0x32 {
        Some(Button::Button2)
    } else if id == 0x33 {
        Some(Button::Button3)
    } else if id == 0x34 {
        Some(Button::Button4)
    } else if id == 0x35 {
        Some(Button::Up)
    } else if id == 0x36 {
        Some(Button::Down)
    } else if id == 0x37 {
        Some(Button::Left)
    } else if id == 0x38 {
        Some(Button::Right)
    } else {
        None
    }
}

/// The protocol id of a button.
pub open spec fn id_of_button(b: Button) -> u8 {
    match b {
        Button::Button1 => 0x31,
        Button::Button2 => 0x32,
        Button::Button3 => 0x33,
        Button::Button4 => 0x34,
        Button::Up => 0x35,
        Button::Down => 0x36,
        Button::Left => 0x37,
        Button::Right => 0x38,
    }
}

impl Button {
    /// Maps the id in the protocol to the [`Button`].
    pub fn from_id(input: &u8) -> (r: Result<Button, ButtonParseError>)
        ensures
            r == (match button_of_id(*input) {
                Some(b) => Ok(b),
                None => Err(ButtonParseError::UnknownButton(*input)),
            }),
    {
        match *input {
            0x31 => Ok(Button::Button1),
            0x32 => Ok(Button::Button2),
            0x33 => Ok(Button::Button3),
            0x34 => Ok(Button::Button4),
            0x35 => Ok(Button::Up),
            0x36 => Ok(Button::Down),
            0x37 => Ok(Button::Left),
            0x38 => Ok(Button::Right),
            _ => Err(ButtonParseError::UnknownButton(*input)),
        }
    }
}

/// The state of a button.
#[derive(PartialEq, Eq, Structural, Debug, Copy, Clone, Hash)]
pub enum ButtonState {
    Released,
    Pressed,
}

/// The button state that a protocol id names: `'0'` released, `'1'` pressed.
pub open spec fn state_of_id(id: u8) -> Option<ButtonState> {
    if id == 0x30 {
        Some(ButtonState::Released)
    } else if id == 0x31 {
        Some(ButtonState::Pressed)
    } else {
        None
    }
}

/// The protocol id of a button state.
pub open spec fn id_of_state(s: ButtonState) -> u8 {
    match s {
        ButtonState::Released => 0x30,
        ButtonState::Pressed => 0x31,
    }
}

impl ButtonState {
    /// Maps the id in the protocol to the [`ButtonState`].
    pub fn from_id(input: &u8) -> (r: Result<ButtonState, ButtonParseError>)
        ensures
            r == (match state_of_id(*input) {
                Some(s) => Ok(s),
                None => Err(ButtonParseError::UnknownButtonState(*input)),
            }),
    {
        match *input {
            0x30 => Ok(ButtonState::Released),
            0x31 => Ok(ButtonState::Pressed),
            _ => Err(ButtonParseError::UnknownButtonState(*input)),
        }
    }
}

/// A button event from the protocol.
#[derive(PartialEq, Eq, Structural, Debug, Copy, Clone, Hash)]
pub struct ButtonEvent {
    pub button: Button,
    pub state: ButtonState,
}

/// What decoding the two data bytes of a button command gives: the button is
/// checked before the state.
pub open spec fn decode_button(data: Seq<u8>) -> Result<ButtonEvent, ProtocolParseError> {
    if data.len() != 2 {
        Err(ProtocolParseError::InvalidLength(2, data.len() as usize))
    } else {
        match button_of_id(data[0]) {
            None => Err(ProtocolParseError::ButtonParseError(ButtonParseError::UnknownButton(data[0]))),
            Some(b) => match state_of_id(data[1]) {
                None => Err(
                    ProtocolParseError::ButtonParseError(ButtonParseError::UnknownButtonState(data[1])),
                ),
                Some(s) => Ok(ButtonEvent { button: b, state: s }),
            },
        }
    }
}

/// The two data bytes that encode a button event.
pub open spec fn encode_button(e: ButtonEvent) -> Seq<u8> {
    seq![id_of_button(e.button), id_of_state(e.state)]
}

impl<'a> TryFrom<&'a [u8]> for ButtonEvent {
    type Error = ProtocolParseError;

    /// Decodes the data section of a button command.
    ///
    /// Identifying the command as a button command and checking its checksum
    /// are the caller's part.
    fn try_from(input: &'a [u8]) -> (r: Result<ButtonEvent, ProtocolParseError>)
        ensures
            r == decode_button(input@),
    {
        let expected_len: usize = 2;
        if input.len() != expected_len {
            Err(ProtocolParseError::InvalidLength(expected_len, input.len()))
        } else {
            let button = match Button::from_id(&input[0]) {
                Ok(b) => b,
                Err(e) => {
                    return Err(ProtocolParseError::ButtonParseError(e));
                },
            };
            let state = match ButtonState::from_id(&input[1]) {
                Ok(s) => s,
                Err(e) => {
                    return Err(ProtocolParseError::ButtonParseError(e));
                },
            };
            Ok(ButtonEvent { button, state })
        }
    }
}

impl<'a> vstd::std_specs::convert::TryFromSpecImpl<&'a [u8]> for ButtonEvent {
    open spec fn obeys_try_from_spec() -> bool {
        true
    }

    open spec fn try_from_spec(input: &'a [u8]) -> Result<ButtonEvent, ProtocolParseError> {
        decode_button(input@)
    }
}

impl ButtonEvent {
    /// The button of the event.
    pub fn button(&self) -> (r: &Button)
        ensures
            *r == self.button,
    {
        &self.button
    }

    /// The state of the button.
    pub fn state(&self) -> (r: &ButtonState)
        ensures
            *r == self.state,
    {
        &self.state
    }
}

} // verus!
