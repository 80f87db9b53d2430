//! The location event and its decoding from the protocol.
use vstd::prelude::*;
use vstd::slice::slice_subrange;

use crate::{f32_bits_at, le_bytes_of, try_f32_from_le_bytes, ProtocolParseError};

verus! {

/// A location event from the protocol. Each field is the bit pattern of
/// an IEEE-754 single-precision float.
#[derive(PartialEq, Eq, Structural, Debug, Copy, Clone, Hash)]
pub struct LocationEvent {
    pub latitude: u32,
    pub longitude: u32,
    pub altitude: u32,
}

/// What decoding the twelve data bytes of a location command gives.
pub open spec fn decode_location(data: Seq<u8>) -> Result<LocationEvent, ProtocolParseError> {
    if data.len() != 12 {
        Err(ProtocolParseError::InvalidLength(12, data.len() as usize))
    } else {
        Ok(LocationEvent { latitude: f32_bits_at(data, 0), longitude: f32_bits_at(data, 4), altitude: f32_bits_at(data, 8) })
    }
}

/// The twelve data bytes that encode a location event.
pub open spec fn encode_location(e: LocationEvent) -> Seq<u8> {
    le_bytes_of(e.latitude) + le_bytes_of(e.longitude) + le_bytes_of(e.altitude)
}

impl<'a> TryFrom<&'a [u8]> for LocationEvent {
    type Error = ProtocolParseError;

    /// Decodes the data section of a location command.
    ///
    /// Identifying the command as a location command and checking
    /// its checksum are the caller's part.
    fn try_from(input: &'a [u8]) -> (r: Result<LocationEvent, ProtocolParseError>)
        ensures
            r == decode_location(input@),
    {
        let expected_len: usize = 12;
        if input.len() != expected_len {
            return Err(ProtocolParseError::InvalidLength(expected_len, input.len()));
        }
        let latitude = match try_f32_from_le_bytes(slice_subrange(input, 0, 4)) {
            Ok(v) => v,
            Err(e) => {
                return Err(e);
            },
        };
        let longitude = match try_f32_from_le_bytes(slice_subrange(input, 4, 8)) {
            Ok(v) => v,
            Err(e) => {
                return Err(e);
            },
        };
        let altitude = match try_f32_from_le_bytes(slice_subrange(input, 8, 12)) {
            Ok(v) => v,
            Err(e) => {
                return Err(e);
            },
        };
        Ok(LocationEvent { latitude, longitude, altitude })
    }
}

impl<'a> vstd::std_specs::convert::TryFromSpecImpl<&'a [u8]> for LocationEvent {
    open spec fn obeys_try_from_spec() -> bool {
        true
    }

    open spec fn try_from_spec(input: &'a [u8]) -> Result<LocationEvent, ProtocolParseError> {
        decode_location(input@)
    }
}

impl LocationEvent {
    /// The bits of the latitude field.
    pub fn latitude(&self) -> (r: u32)
        ensures
            r == self.latitude,
    {
        self.latitude
    }

    /// The bits of the longitude field.
    pub fn longitude(&self) -> (r: u32)
        ensures
            r == self.longitude,
    {
        self.longitude
    }

    /// The bits of the altitude field.
    pub fn altitude(&self) -> (r: u32)
        ensures
            r == self.altitude,
    {
        self.altitude
    }
}

} // verus!
