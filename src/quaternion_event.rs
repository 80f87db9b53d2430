//! The quaternion event and its decoding from the protocol.
use vstd::prelude::*;
use vstd::slice::slice_subrange;

use crate::{f32_bits_at, le_bytes_of, try_f32_from_le_bytes, ProtocolParseError};

verus! {

/// A quaternion event from the protocol. Each component is the bit pattern
/// of an IEEE-754 single-precision float.
#[derive(PartialEq, Eq, Structural, Debug, Copy, Clone, Hash)]
pub struct QuaternionEvent {
    pub x: u32,
    pub y: u32,
    pub z: u32,
    pub w: u32,
}

/// What decoding the sixteen data bytes of a quaternion command gives.
pub open spec fn decode_quaternion(data: Seq<u8>) -> Result<QuaternionEvent, ProtocolParseError> {
    if data.len() != 16 {
        Err(ProtocolParseError::InvalidLength(16, data.len() as usize))
    } else {
        Ok(
            QuaternionEvent {
                x: f32_bits_at(data, 0),
                y: f32_bits_at(data, 4),
                z: f32_bits_at(data, 8),
                w: f32_bits_at(data, 12),
            },
        )
    }
}

/// The sixteen data bytes that encode a quaternion event.
pub open spec fn encode_quaternion(e: QuaternionEvent) -> Seq<u8> {
    le_bytes_of(e.x) + le_bytes_of(e.y) + le_bytes_of(e.z) + le_bytes_of(e.w)
}

impl<'a> TryFrom<&'a [u8]> for QuaternionEvent {
    type Error = ProtocolParseError;

    /// Decodes the data section of a quaternion command.
    ///
    /// Identifying the command as a quaternion command and checking its
    /// checksum are the caller's part.
    fn try_from(input: &'a [u8]) -> (r: Result<QuaternionEvent, ProtocolParseError>)
        ensures
            r == decode_quaternion(input@),
    {
        let expected_len: usize = 16;
        if input.len() != expected_len {
            return Err(ProtocolParseError::InvalidLength(expected_len, input.len()));
        }
        let x = match try_f32_from_le_bytes(slice_subrange(input, 0, 4)) {
            Ok(v) => v,
            Err(e) => {
                return Err(e);
            },
        };
        let y = match try_f32_from_le_bytes(slice_subrange(input, 4, 8)) {
            Ok(v) => v,
            Err(e) => {
                return Err(e);
            },
        };
        let z = match try_f32_from_le_bytes(slice_subrange(input, 8, 12)) {
            Ok(v) => v,
            Err(e) => {
                return Err(e);
            },
        };
        let w = match try_f32_from_le_bytes(slice_subrange(input, 12, 16)) {
            Ok(v) => v,
            Err(e) => {
                return Err(e);
            },
        };
        Ok(QuaternionEvent { x, y, z, w })
    }
}

impl<'a> vstd::std_specs::convert::TryFromSpecImpl<&'a [u8]> for QuaternionEvent {
    open spec fn obeys_try_from_spec() -> bool {
        true
    }

    open spec fn try_from_spec(input: &'a [u8]) -> Result<QuaternionEvent, ProtocolParseError> {
        decode_quaternion(input@)
    }
}

impl QuaternionEvent {
    /// The bits of the x component.
    pub fn x(&self) -> (r: u32)
        ensures
            r == self.x,
    {
        self.x
    }

    /// The bits of the y component.
    pub fn y(&self) -> (r: u32)
        ensures
            r == self.y,
    {
        self.y
    }

    /// The bits of the z component.
    pub fn z(&self) -> (r: u32)
        ensures
            r == self.z,
    {
        self.z
    }

    /// The bits of the w component.
    pub fn w(&self) -> (r: u32)
        ensures
            r == self.w,
    {
        self.w
    }
}

} // verus!
