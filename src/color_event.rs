//! The color event and its decoding from the protocol.
use vstd::prelude::*;

use crate::ProtocolParseError;

verus! {

/// A color event from the protocol.
#[derive(PartialEq, Eq, Structural, Debug, Copy, Clone, Hash)]
pub struct ColorEvent {
    pub red: u8,
    pub green: u8,
    pub blue: u8,
}

/// What decoding the three data bytes of a color command gives.
pub open spec fn decode_color(data: Seq<u8>) -> Result<ColorEvent, ProtocolParseError> {
    if data.len() != 3 {
        Err(ProtocolParseError::InvalidLength(3, data.len() as usize))
    } else {
        Ok(ColorEvent { red: data[0], green: data[1], blue: data[2] })
    }
}

/// The three data bytes that encode a color event.
pub open spec fn encode_color(e: ColorEvent) -> Seq<u8> {
    seq![e.red, e.green, e.blue]
}

impl<'a> TryFrom<&'a [u8]> for ColorEvent {
    type Error = ProtocolParseError;

    /// Decodes the data section of a color command.
    ///
    /// Identifying the command as a color command and checking its checksum
    /// are the caller's part.
    fn try_from(input: &'a [u8]) -> (r: Result<ColorEvent, ProtocolParseError>)
        ensures
            r == decode_color(input@),
    {
        let expected_len: usize = 3;
        if input.len() != expected_len {
            Err(ProtocolParseError::InvalidLength(expected_len, input.len()))
        } else {
            Ok(ColorEvent { red: input[0], green: input[1], blue: input[2] })
        }
    }
}

impl<'a> vstd::std_specs::convert::TryFromSpecImpl<&'a [u8]> for ColorEvent {
    open spec fn obeys_try_from_spec() -> bool {
        true
    }

    open spec fn try_from_spec(input: &'a [u8]) -> Result<ColorEvent, ProtocolParseError> {
        decode_color(input@)
    }
}

impl ColorEvent {
    /// The red component.
    pub fn red(&self) -> (r: u8)
        ensures
            r == self.red,
    {
        self.red
    }

    /// The green component.
    pub fn green(&self) -> (r: u8)
        ensures
            r == self.green,
    {
        self.green
    }

    /// The blue component.
    pub fn blue(&self) -> (r: u8)
        ensures
            r == self.blue,
    {
        self.blue
    }
}

/// Relies on `rgb::Rgb<T>` (`RGB8` is `Rgb<u8>`) being a plain struct of the
/// three public fields `r`, `g` and `b`, which the conversion below fills.
#[verifier::external_type_specification]
#[verifier::reject_recursive_types(T)]
pub struct ExRgb<T>(rgb::Rgb<T>);

impl From<ColorEvent> for rgb::RGB8 {
    fn from(c: ColorEvent) -> (r: rgb::RGB8) {
        rgb::RGB8 { r: c.red, g: c.green, b: c.blue }
    }
}

impl vstd::std_specs::convert::FromSpecImpl<ColorEvent> for rgb::RGB8 {
    open spec fn obeys_from_spec() -> bool {
        true
    }

    open spec fn from_spec(c: ColorEvent) -> rgb::RGB8 {
        rgb::RGB8 { r: c.red, g: c.green, b: c.blue }
    }
}

} // verus!
