//! The accelerometer event and its decoding from the protocol.
use vstd::prelude::*;
use vstd::slice::slice_subrange;

use crate::{f32_bits_at, le_bytes_of, try_f32_from_le_bytes, ProtocolParseError};

verus! {

/// An accelerometer event from the protocol. Each field is the bit pattern of
/// an IEEE-754 single-precision float.
#[derive(PartialEq, Eq, Structural, Debug, Copy, Clone, Hash)]
pub struct AccelerometerEvent {
    pub x: u32,
    pub y: u32,
    pub z: u32,
}

/// What decoding the twelve data bytes of an accelerometer command gives.
pub open spec fn decode_accelerometer(data: Seq<u8>) -> Result<AccelerometerEvent, ProtocolParseError> {
    if data.len() != 12 {
        Err(ProtocolParseError::InvalidLength(12, data.len() as usize))
    } else {
        Ok(AccelerometerEvent { x: f32_bits_at(data, 0), y: f32_bits_at(data, 4), z: f32_bits_at(data, 8) })
    }
}

/// The twelve data bytes that encode an accelerometer event.
pub open spec fn encode_accelerometer(e: AccelerometerEvent) -> Seq<u8> {
    le_bytes_of(e.x) + le_bytes_of(e.y) + le_bytes_of(e.z)
}

impl<'a> TryFrom<&'a [u8]> for AccelerometerEvent {
    type Error = ProtocolParseError;

    /// Decodes the data section of an accelerometer command.
    ///
    /// Identifying the command as an accelerometer command and checking
    /// its checksum are the caller's part.
    fn try_from(input: &'a [u8]) -> (r: Result<AccelerometerEvent, ProtocolParseError>)
        ensures
            r == decode_accelerometer(input@),
    {
        let expected_len: usize = 12;
        if input.len() != expected_len {
            return Err(ProtocolParseError::InvalidLength(expected_len, input.len()));
        }
        let x = match try_f32_from_le_bytes(slice_subrange(input, 0, 4)) {
            Ok(v) => v,
            Err(e) => {
                return Err(e);
            },
        };
        let y = match try_f32_from_le_bytes(slice_subrange(input, 4, 8)) {
            Ok(v) => v,
            Err(e) => {
                return Err(e);
            },
        };
        let z = match try_f32_from_le_bytes(slice_subrange(input, 8, 12)) {
            Ok(v) => v,
            Err(e) => {
                return Err(e);
            },
        };
        Ok(AccelerometerEvent { x, y, z })
    }
}

impl<'a> vstd::std_specs::convert::TryFromSpecImpl<&'a [u8]> for AccelerometerEvent {
    open spec fn obeys_try_from_spec() -> bool {
        true
    }

    open spec fn try_from_spec(input: &'a [u8]) -> Result<AccelerometerEvent, ProtocolParseError> {
        decode_accelerometer(input@)
    }
}

impl AccelerometerEvent {
    /// The bits of the x field.
    pub fn x(&self) -> (r: u32)
        ensures
            r == self.x,
    {
        self.x
    }

    /// The bits of the y field.
    pub fn y(&self) -> (r: u32)
        ensures
            r == self.y,
    {
        self.y
    }

    /// The bits of the z field.
    pub fn z(&self) -> (r: u32)
        ensures
            r == self.z,
    {
        self.z
    }
}

} // verus!
