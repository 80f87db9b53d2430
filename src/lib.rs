//! A decoder for the Adafruit Bluefruit LE Connect controller protocol.
//!
//! The protocol is carried over a byte stream: each command is a frame of a
//! `'!'` marker, a command id, a payload whose length the id fixes, and a
//! checksum. [`parse`] scans a buffer for such frames and decodes each one
//! into a [`ControllerEvent`] or a [`ProtocolParseError`].
//!
//! Float fields are kept as the IEEE-754 bit patterns that the wire carries;
//! `f32::from_bits` turns them into values.
use vstd::prelude::*;
use vstd::arithmetic::div_mod::lemma_add_mod_noop;
use vstd::slice::slice_subrange;

pub mod accelerometer_event;
pub mod button_event;
pub mod color_event;
pub mod gyro_event;
pub mod location_event;
pub mod magnetometer_event;
pub mod quaternion_event;
pub mod theorems;

pub use accelerometer_event::AccelerometerEvent;
pub use button_event::{Button, ButtonEvent, ButtonParseError, ButtonState};
pub use color_event::ColorEvent;
pub use gyro_event::GyroEvent;
pub use location_event::LocationEvent;
pub use magnetometer_event::MagnetometerEvent;
pub use quaternion_event::QuaternionEvent;
use accelerometer_event::decode_accelerometer;
use button_event::decode_button;
use color_event::decode_color;
use gyro_event::decode_gyro;
use location_event::decode_location;
use magnetometer_event::decode_magnetometer;
use quaternion_event::decode_quaternion;

verus! {

/// The kinds of data package that the controller sends.
#[derive(PartialEq, Eq, Structural, Debug, Hash, Clone, Copy)]
pub enum ControllerDataPackageType {
    ButtonCommand,
    Color,
    Quaternion,
    Accelerometer,
    Gyro,
    Magnetometer,
    Location,
}

/// The byte that starts every frame: `'!'`.
pub const FRAME_MARKER: u8 = 0x21;

const BYTES_PER_FLOAT: usize = 4;

/// Maximum length of a controller message which must be tolerated by any caller.
pub const MAX_CONTROLLER_MESSAGE_LENGTH: usize = 32;

/// The kind that a command id names.
pub open spec fn kind_of_id(id: u8) -> Option<ControllerDataPackageType> {
    if id == 0x42 {
        Some(ControllerDataPackageType::ButtonCommand)
    } else if id == 0x43 {
        Some(ControllerDataPackageType::Color)
    } else if id == 0x51 {
        Some(ControllerDataPackageType::Quaternion)
    } else if id == 0x41 {
        Some(ControllerDataPackageType::Accelerometer)
    } else if id == 0x47 {
        Some(ControllerDataPackageType::Gyro)
    } else if id == 0x4d {
        Some(ControllerDataPackageType::Magnetometer)
    } else if id == 0x4c {
        Some(ControllerDataPackageType::Location)
    } else {
        None
    }
}

/// The command id of a kind: `'B'`, `'C'`, `'Q'`, `'A'`, `'G'`, `'M'`, `'L'`.
pub open spec fn id_of_kind(k: ControllerDataPackageType) -> u8 {
    match k {
        ControllerDataPackageType::ButtonCommand => 0x42,
        ControllerDataPackageType::Color => 0x43,
        ControllerDataPackageType::Quaternion => 0x51,
        ControllerDataPackageType::Accelerometer => 0x41,
        ControllerDataPackageType::Gyro => 0x47,
        ControllerDataPackageType::Magnetometer => 0x4d,
        ControllerDataPackageType::Location => 0x4c,
    }
}

/// The length of the data section of a kind.
pub open spec fn data_len_of(k: ControllerDataPackageType) -> usize {
    match k {
        ControllerDataPackageType::ButtonCommand => 2,
        ControllerDataPackageType::Color => 3,
        ControllerDataPackageType::Quaternion => 16,
        ControllerDataPackageType::Accelerometer => 12,
        ControllerDataPackageType::Gyro => 12,
        ControllerDataPackageType::Magnetometer => 12,
        ControllerDataPackageType::Location => 12,
    }
}

/// The length of a whole frame of a kind: marker, id, data and checksum.
pub open spec fn frame_len_of(k: ControllerDataPackageType) -> usize {
    (data_len_of(k) + 3) as usize
}

impl ControllerDataPackageType {
    /// Returns the length of the data section of the command.
    pub fn data_len(&self) -> (r: usize)
        ensures
            r == data_len_of(*self),
    {
        match self {
            ControllerDataPackageType::ButtonCommand => 2,
            ControllerDataPackageType::Color => 3,
            ControllerDataPackageType::Quaternion => 4 * BYTES_PER_FLOAT,
            ControllerDataPackageType::Accelerometer => 3 * BYTES_PER_FLOAT,
            ControllerDataPackageType::Gyro => 3 * BYTES_PER_FLOAT,
            ControllerDataPackageType::Magnetometer => 3 * BYTES_PER_FLOAT,
            ControllerDataPackageType::Location => 3 * BYTES_PER_FLOAT,
        }
    }
}

impl TryFrom<u8> for ControllerDataPackageType {
    type Error = ProtocolParseError;

    /// Maps a command id to its kind; an unknown id is an `UnknownEvent`.
    fn try_from(value: u8) -> (r: Result<ControllerDataPackageType, ProtocolParseError>)
        ensures
            r == (match kind_of_id(value) {
                Some(k) => Ok(k),
                None => Err(ProtocolParseError::UnknownEvent(Some(value))),
            }),
    {
        match value {
            0x42 => Ok(ControllerDataPackageType::ButtonCommand),
            0x43 => Ok(ControllerDataPackageType::Color),
            0x51 => Ok(ControllerDataPackageType::Quaternion),
            0x41 => Ok(ControllerDataPackageType::Accelerometer),
            0x47 => Ok(ControllerDataPackageType::Gyro),
            0x4d => Ok(ControllerDataPackageType::Magnetometer),
            0x4c => Ok(ControllerDataPackageType::Location),
            _ => Err(ProtocolParseError::UnknownEvent(Some(value))),
        }
    }
}

impl vstd::std_specs::convert::TryFromSpecImpl<u8> for ControllerDataPackageType {
    open spec fn obeys_try_from_spec() -> bool {
        true
    }

    open spec fn try_from_spec(value: u8) -> Result<ControllerDataPackageType, ProtocolParseError> {
        match kind_of_id(value) {
            Some(k) => Ok(k),
            None => Err(ProtocolParseError::UnknownEvent(Some(value))),
        }
    }
}

/// The event kinds that are decoded; a frame of another kind is answered with
/// `DisabledControllerDataPackageType` once its length and checksum are checked.
#[derive(PartialEq, Eq, Structural, Debug, Copy, Clone, Hash)]
pub struct EnabledEvents {
    pub button: bool,
    pub color: bool,
    pub quaternion: bool,
    pub accelerometer: bool,
    pub gyro: bool,
    pub magnetometer: bool,
    pub location: bool,
}

/// The selection with every kind enabled.
pub open spec fn all_enabled() -> EnabledEvents {
    EnabledEvents {
        button: true,
        color: true,
        quaternion: true,
        accelerometer: true,
        gyro: true,
        magnetometer: true,
        location: true,
    }
}

impl EnabledEvents {
    /// Whether events of kind `k` are decoded.
    pub open spec fn allows(self, k: ControllerDataPackageType) -> bool {
        match k {
            ControllerDataPackageType::ButtonCommand => self.button,
            ControllerDataPackageType::Color => self.color,
            ControllerDataPackageType::Quaternion => self.quaternion,
            ControllerDataPackageType::Accelerometer => self.accelerometer,
            ControllerDataPackageType::Gyro => self.gyro,
            ControllerDataPackageType::Magnetometer => self.magnetometer,
            ControllerDataPackageType::Location => self.location,
        }
    }

    /// Every kind enabled.
    pub fn all() -> (r: EnabledEvents)
        ensures
            r == all_enabled(),
            forall|k: ControllerDataPackageType| r.allows(k),
    {
        EnabledEvents {
            button: true,
            color: true,
            quaternion: true,
            accelerometer: true,
            gyro: true,
            magnetometer: true,
            location: true,
        }
    }

    /// Whether events of kind `k` are decoded.
    pub fn is_enabled(&self, k: ControllerDataPackageType) -> (r: bool)
        ensures
            r == self.allows(k),
    {
        match k {
            ControllerDataPackageType::ButtonCommand => self.button,
            ControllerDataPackageType::Color => self.color,
            ControllerDataPackageType::Quaternion => self.quaternion,
            ControllerDataPackageType::Accelerometer => self.accelerometer,
            ControllerDataPackageType::Gyro => self.gyro,
            ControllerDataPackageType::Magnetometer => self.magnetometer,
            ControllerDataPackageType::Location => self.location,
        }
    }
}

/// The errors that can occur while the protocol is decoded.
#[derive(PartialEq, Eq, Structural, Debug, Copy, Clone, Hash)]
pub enum ProtocolParseError {
    /// The message held an event id that is not known, or a marker with no id after it.
    UnknownEvent(Option<u8>),
    /// The message held an event of a kind that was not selected for decoding.
    DisabledControllerDataPackageType(ControllerDataPackageType),
    /// An error occurred while decoding a [`ButtonEvent`].
    ButtonParseError(ButtonParseError),
    /// The event did not have the expected length: the expected length, then the actual one.
    InvalidLength(usize, usize),
    /// The checksum did not match: the checksum received, then the one calculated.
    InvalidCrc(u8, u16),
    /// A float could not be read: the length of the input.
    InvalidFloatSize(usize),
}

/// The number that four bytes encode in little-endian order.
pub open spec fn le_u32(b0: u8, b1: u8, b2: u8, b3: u8) -> u32 {
    (b0 as u32) | ((b1 as u32) << 8u32) | ((b2 as u32) << 16u32) | ((b3 as u32) << 24u32)
}

/// The float bits that the four bytes of `s` from `i` on encode.
pub open spec fn f32_bits_at(s: Seq<u8>, i: int) -> u32 {
    le_u32(s[i], s[i + 1], s[i + 2], s[i + 3])
}

/// The four bytes of `x` in little-endian order.
pub open spec fn le_bytes_of(x: u32) -> Seq<u8> {
    seq![(x & 0xff) as u8, ((x >> 8u32) & 0xff) as u8, ((x >> 16u32) & 0xff) as u8, (x >> 24u32) as u8]
}

/// Reads the four little-endian bytes of an IEEE-754 single-precision float
/// and returns its bit pattern; any other length is refused.
pub fn try_f32_from_le_bytes(input: &[u8]) -> (r: Result<u32, ProtocolParseError>)
    ensures
        input.len() == 4 ==> r == Ok::<u32, ProtocolParseError>(f32_bits_at(input@, 0)),
        input.len() != 4 ==> r == Err::<u32, ProtocolParseError>(
            ProtocolParseError::InvalidFloatSize(input.len()),
        ),
{
    if input.len() != 4 {
        return Err(ProtocolParseError::InvalidFloatSize(input.len()));
    }
    Ok((input[0] as u32) | ((input[1] as u32) << 8u32) | ((input[2] as u32) << 16u32) | ((
    input[3] as u32) << 24u32))
}

/// The events that the controller sends, with their data.
#[derive(PartialEq, Eq, Structural, Debug, Copy, Clone, Hash)]
pub enum ControllerEvent {
    ButtonEvent(ButtonEvent),
    ColorEvent(ColorEvent),
    QuaternionEvent(QuaternionEvent),
    AccelerometerEvent(AccelerometerEvent),
    GyroEvent(GyroEvent),
    MagnetometerEvent(MagnetometerEvent),
    LocationEvent(LocationEvent),
}

/// The sum of the bytes of `s`.
pub open spec fn byte_sum(s: Seq<u8>) -> nat
    decreases s.len(),
{
    if s.len() == 0 {
        0
    } else {
        byte_sum(s.drop_last()) + s.last() as nat
    }
}

/// The checksum of `s`: the bytes summed in 16 bits with wraparound, then
/// the low 8 bits of the complement.
pub open spec fn crc_of(s: Seq<u8>) -> u16 {
    !((byte_sum(s) % 0x10000) as u16) & 0xff
}

/// Checks the checksum `crc` of the frame bytes `data` that precede it.
pub fn check_crc(data: &[u8], crc: &u8) -> (r: Result<(), ProtocolParseError>)
    ensures
        r == (if *crc as u16 == crc_of(data@) {
            Ok(())
        } else {
            Err(ProtocolParseError::InvalidCrc(*crc, crc_of(data@)))
        }),
{
    let mut sum: u16 = 0;
    let mut i: usize = 0;
    while i < data.len()
        invariant
            i <= data.len(),
            sum as nat == byte_sum(data@.take(i as int)) % 0x10000,
        decreases data.len() - i,
    {
        proof {
            assert(data@.take(i + 1).drop_last() =~= data@.take(i as int));
            lemma_add_mod_noop(byte_sum(data@.take(i as int)) as int, data@[i as int] as int, 0x10000);
        }
        sum = sum.wrapping_add(data[i] as u16);
        i = i + 1;
    }
    assert(data@.take(data.len() as int) =~= data@);
    let calculated_crc = !sum & 0xff;
    if *crc as u16 == calculated_crc {
        Ok(())
    } else {
        Err(ProtocolParseError::InvalidCrc(*crc, calculated_crc))
    }
}

/// What decoding the data section of a frame of kind `k` gives.
pub open spec fn decode_payload(k: ControllerDataPackageType, data: Seq<u8>) -> Result<
    ControllerEvent,
    ProtocolParseError,
> {
    match k {
        ControllerDataPackageType::ButtonCommand => match decode_button(data) {
            Ok(e) => Ok(ControllerEvent::ButtonEvent(e)),
            Err(e) => Err(e),
        },
        ControllerDataPackageType::Color => match decode_color(data) {
            Ok(e) => Ok(ControllerEvent::ColorEvent(e)),
            Err(e) => Err(e),
        },
        ControllerDataPackageType::Quaternion => match decode_quaternion(data) {
            Ok(e) => Ok(ControllerEvent::QuaternionEvent(e)),
            Err(e) => Err(e),
        },
        ControllerDataPackageType::Accelerometer => match decode_accelerometer(data) {
            Ok(e) => Ok(ControllerEvent::AccelerometerEvent(e)),
            Err(e) => Err(e),
        },
        ControllerDataPackageType::Gyro => match decode_gyro(data) {
            Ok(e) => Ok(ControllerEvent::GyroEvent(e)),
            Err(e) => Err(e),
        },
        ControllerDataPackageType::Magnetometer => match decode_magnetometer(data) {
            Ok(e) => Ok(ControllerEvent::MagnetometerEvent(e)),
            Err(e) => Err(e),
        },
        ControllerDataPackageType::Location => match decode_location(data) {
            Ok(e) => Ok(ControllerEvent::LocationEvent(e)),
            Err(e) => Err(e),
        },
    }
}

/// What decoding the frame `frame` of kind `k` gives: its length is checked
/// first, then its checksum, then whether the kind is enabled, and last its data.
pub open spec fn decode_command(k: ControllerDataPackageType, frame: Seq<u8>, enabled: EnabledEvents) -> Result<
    ControllerEvent,
    ProtocolParseError,
> {
    let len = frame.len();
    let body = frame.take(len - 1);
    if len != frame_len_of(k) {
        Err(ProtocolParseError::InvalidLength(frame_len_of(k), len as usize))
    } else if frame[len - 1] as u16 != crc_of(body) {
        Err(ProtocolParseError::InvalidCrc(frame[len - 1], crc_of(body)))
    } else if !enabled.allows(k) {
        Err(ProtocolParseError::DisabledControllerDataPackageType(k))
    } else {
        decode_payload(k, frame.subrange(2, len - 1))
    }
}

/// Decodes a frame of kind `command`: marker, command id, data and checksum.
pub fn parse_command(
    command: ControllerDataPackageType,
    command_input: &[u8],
    enabled: EnabledEvents,
) -> (r: Result<ControllerEvent, ProtocolParseError>)
    ensures
        r == decode_command(command, command_input@, enabled),
        command_input.len() != frame_len_of(command) ==> r == Err::<ControllerEvent, ProtocolParseError>(
            ProtocolParseError::InvalidLength(frame_len_of(command), command_input.len()),
        ),
{
    let len = command_input.len();
    let expected_len = command.data_len() + 3;
    if len != expected_len {
        return Err(ProtocolParseError::InvalidLength(expected_len, len));
    }
    let crc = command_input[len - 1];
    match check_crc(slice_subrange(command_input, 0, len - 1), &crc) {
        Ok(()) => {},
        Err(e) => {
            return Err(e);
        },
    }
    if !enabled.is_enabled(command) {
        return Err(ProtocolParseError::DisabledControllerDataPackageType(command));
    }
    let data = slice_subrange(command_input, 2, len - 1);
    match command {
        ControllerDataPackageType::ButtonCommand => match ButtonEvent::try_from(data) {
            Ok(e) => Ok(ControllerEvent::ButtonEvent(e)),
            Err(e) => Err(e),
        },
        ControllerDataPackageType::Color => match ColorEvent::try_from(data) {
            Ok(e) => Ok(ControllerEvent::ColorEvent(e)),
            Err(e) => Err(e),
        },
        ControllerDataPackageType::Quaternion => match QuaternionEvent::try_from(data) {
            Ok(e) => Ok(ControllerEvent::QuaternionEvent(e)),
            Err(e) => Err(e),
        },
        ControllerDataPackageType::Accelerometer => match AccelerometerEvent::try_from(data) {
            Ok(e) => Ok(ControllerEvent::AccelerometerEvent(e)),
            Err(e) => Err(e),
        },
        ControllerDataPackageType::Gyro => match GyroEvent::try_from(data) {
            Ok(e) => Ok(ControllerEvent::GyroEvent(e)),
            Err(e) => Err(e),
        },
        ControllerDataPackageType::Magnetometer => match MagnetometerEvent::try_from(data) {
            Ok(e) => Ok(ControllerEvent::MagnetometerEvent(e)),
            Err(e) => Err(e),
        },
        ControllerDataPackageType::Location => match LocationEvent::try_from(data) {
            Ok(e) => Ok(ControllerEvent::LocationEvent(e)),
            Err(e) => Err(e),
        },
    }
}

/// What decoding the frame at the start of `s`, which starts at a marker,
/// gives. The frame is as long as its command id asks, or reaches to the end
/// of `s`, whichever is shorter.
pub open spec fn decode_at_marker(s: Seq<u8>, enabled: EnabledEvents) -> Result<
    ControllerEvent,
    ProtocolParseError,
> {
    if s.len() < 2 {
        Err(ProtocolParseError::UnknownEvent(None))
    } else {
        match kind_of_id(s[1]) {
            None => Err(ProtocolParseError::UnknownEvent(Some(s[1]))),
            Some(k) => {
                let end = if frame_len_of(k) < s.len() {
                    frame_len_of(k) as int
                } else {
                    s.len() as int
                };
                decode_command(k, s.take(end), enabled)
            },
        }
    }
}

/// Extracts the frame at the start of `input`, which starts at a marker, and
/// decodes it.
pub fn extract_and_parse_command(input: &[u8], enabled: EnabledEvents) -> (r: Result<
    ControllerEvent,
    ProtocolParseError,
>)
    ensures
        r == decode_at_marker(input@, enabled),
{
    if input.len() < 2 {
        return Err(ProtocolParseError::UnknownEvent(None));
    }
    let command = match ControllerDataPackageType::try_from(input[1]) {
        Ok(k) => k,
        Err(e) => {
            return Err(e);
        },
    };
    let frame_len = command.data_len() + 3;
    let command_end = if frame_len < input.len() {
        frame_len
    } else {
        input.len()
    };
    parse_command(command, slice_subrange(input, 0, command_end), enabled)
}

/// The results that scanning `input` from `pos` on gives. Bytes other than
/// the marker are skipped; at a marker a frame is decoded, and the scan goes
/// on just past that marker, so that every marker is tried.
pub open spec fn scan(input: Seq<u8>, pos: nat, enabled: EnabledEvents) -> Seq<
    Result<ControllerEvent, ProtocolParseError>,
>
    decreases input.len() + 1 - pos,
{
    if pos >= input.len() {
        seq![]
    } else if input[pos as int] != FRAME_MARKER {
        scan(input, pos + 1, enabled)
    } else {
        seq![decode_at_marker(input.subrange(pos as int, input.len() as int), enabled)] + scan(
            input,
            pos + 1,
            enabled,
        )
    }
}

/// The first `n` elements of `s`, or all of them where there are fewer.
pub open spec fn first_n<T>(s: Seq<T>, n: nat) -> Seq<T> {
    if s.len() <= n {
        s
    } else {
        s.take(n as int)
    }
}

/// Scanning yields at most one result for each byte.
pub proof fn lemma_scan_len(input: Seq<u8>, pos: nat, enabled: EnabledEvents)
    ensures
        scan(input, pos, enabled).len() <= if pos <= input.len() {
            input.len() - pos
        } else {
            0
        },
    decreases input.len() + 1 - pos,
{
    if pos < input.len() {
        lemma_scan_len(input, pos + 1, enabled);
    }
}

/// A cursor over a borrowed buffer that yields the decoded frames one at a
/// time. It only moves forward; once the buffer is used up it yields nothing
/// more.
pub struct Scanner<'a> {
    input: &'a [u8],
    pos: usize,
    enabled: EnabledEvents,
}

impl<'a> Scanner<'a> {
    /// The results that the scanner has still to yield.
    pub closed spec fn remaining(&self) -> Seq<Result<ControllerEvent, ProtocolParseError>> {
        scan(self.input@, self.pos as nat, self.enabled)
    }

    /// A scanner at the start of `input`.
    pub fn new(input: &'a [u8], enabled: EnabledEvents) -> (r: Scanner<'a>)
        ensures
            r.remaining() == scan(input@, 0, enabled),
    {
        Scanner { input, pos: 0, enabled }
    }

    /// Yields the next result, or `None` once the buffer is used up.
    pub fn next_result(&mut self) -> (r: Option<Result<ControllerEvent, ProtocolParseError>>)
        ensures
            old(self).remaining().len() == 0 ==> r is None && final(self).remaining().len() == 0,
            old(self).remaining().len() > 0 ==> r == Some(old(self).remaining()[0])
                && final(self).remaining() == old(self).remaining().skip(1),
    {
        let len = self.input.len();
        let mut pos = self.pos;
        while pos < len && self.input[pos] != FRAME_MARKER
            invariant
                len == self.input@.len(),
                *self == *old(self),
                scan(self.input@, pos as nat, self.enabled) == old(self).remaining(),
            decreases len - pos,
        {
            pos = pos + 1;
        }
        if pos >= len {
            self.pos = pos;
            return None;
        }
        let r = extract_and_parse_command(slice_subrange(self.input, pos, len), self.enabled);
        self.pos = pos + 1;
        proof {
            assert(old(self).remaining() == seq![r] + self.remaining());
            assert(old(self).remaining().skip(1) =~= self.remaining());
        }
        Some(r)
    }
}

/// Decodes the frames in `input`, the kinds that `enabled` names, and stops
/// after `max_results` results.
pub fn parse_with(input: &[u8], enabled: EnabledEvents, max_results: usize) -> (r: Vec<
    Result<ControllerEvent, ProtocolParseError>,
>)
    ensures
        r@ == first_n(scan(input@, 0, enabled), max_results as nat),
{
    let mut scanner = Scanner::new(input, enabled);
    let mut results: Vec<Result<ControllerEvent, ProtocolParseError>> = Vec::new();
    loop
        invariant
            results@ + scanner.remaining() == scan(input@, 0, enabled),
            results.len() <= max_results,
        decreases scanner.remaining().len(),
    {
        if results.len() >= max_results {
            assert(results@ =~= scan(input@, 0, enabled).take(results.len() as int));
            return results;
        }
        match scanner.next_result() {
            None => {
                assert(results@ =~= scan(input@, 0, enabled));
                return results;
            },
            Some(r) => {
                results.push(r);
                assert(results@ + scanner.remaining() =~= scan(input@, 0, enabled));
            },
        }
    }
}

/// Decodes every frame in `input`. Bytes outside frames are skipped; a
/// malformed frame yields an error and the scan goes on.
pub fn parse(input: &[u8]) -> (r: Vec<Result<ControllerEvent, ProtocolParseError>>)
    ensures
        r@ == scan(input@, 0, all_enabled()),
{
    proof {
        lemma_scan_len(input@, 0, all_enabled());
    }
    parse_with(input, EnabledEvents::all(), input.len())
}

} // verus!
