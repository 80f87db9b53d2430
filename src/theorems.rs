//! Facts about the decoder as a whole: frames round-trip, the checksum
//! catches single-byte damage, and noise between frames is skipped.
use vstd::prelude::*;
use vstd::arithmetic::div_mod::lemma_mod_mod;

use crate::accelerometer_event::encode_accelerometer;
use crate::button_event::encode_button;
use crate::color_event::encode_color;
use crate::gyro_event::encode_gyro;
use crate::location_event::encode_location;
use crate::magnetometer_event::encode_magnetometer;
use crate::quaternion_event::encode_quaternion;
use crate::{
    byte_sum, crc_of, decode_at_marker, decode_command, f32_bits_at, frame_len_of, id_of_kind,
    le_bytes_of, le_u32, scan, decode_payload, kind_of_id, ControllerDataPackageType, ControllerEvent, EnabledEvents,
    ProtocolParseError,
    Scanner, FRAME_MARKER,
};

verus! {

/// The kind of an event.
pub open spec fn kind_of_event(e: ControllerEvent) -> ControllerDataPackageType {
    match e {
        ControllerEvent::ButtonEvent(_) => ControllerDataPackageType::ButtonCommand,
        ControllerEvent::ColorEvent(_) => ControllerDataPackageType::Color,
        ControllerEvent::QuaternionEvent(_) => ControllerDataPackageType::Quaternion,
        ControllerEvent::AccelerometerEvent(_) => ControllerDataPackageType::Accelerometer,
        ControllerEvent::GyroEvent(_) => ControllerDataPackageType::Gyro,
        ControllerEvent::MagnetometerEvent(_) => ControllerDataPackageType::Magnetometer,
        ControllerEvent::LocationEvent(_) => ControllerDataPackageType::Location,
    }
}

/// The data section that encodes an event.
pub open spec fn encode_payload(e: ControllerEvent) -> Seq<u8> {
    match e {
        ControllerEvent::ButtonEvent(b) => encode_button(b),
        ControllerEvent::ColorEvent(c) => encode_color(c),
        ControllerEvent::QuaternionEvent(q) => encode_quaternion(q),
        ControllerEvent::AccelerometerEvent(a) => encode_accelerometer(a),
        ControllerEvent::GyroEvent(g) => encode_gyro(g),
        ControllerEvent::MagnetometerEvent(m) => encode_magnetometer(m),
        ControllerEvent::LocationEvent(l) => encode_location(l),
    }
}

/// The whole frame that carries an event: marker, command id, data and the
/// checksum of what precedes it.
pub open spec fn encode_frame(e: ControllerEvent) -> Seq<u8> {
    let body = seq![FRAME_MARKER, id_of_kind(kind_of_event(e))] + encode_payload(e);
    body.push(crc_of(body) as u8)
}

/// Whether `s` holds no marker byte from index `from` on.
pub open spec fn marker_free_from(s: Seq<u8>, from: int) -> bool {
    forall|j: int| from <= j < s.len() ==> s[j] != FRAME_MARKER
}

/// Reading back the little-endian bytes of a word gives the word.
pub proof fn lemma_le_round_trip(x: u32)
    ensures
        le_u32(le_bytes_of(x)[0], le_bytes_of(x)[1], le_bytes_of(x)[2], le_bytes_of(x)[3]) == x,
{
    assert(((x & 0xff) as u8 as u32) | ((((x >> 8u32) & 0xff) as u8 as u32) << 8u32) | ((((x
        >> 16u32) & 0xff) as u8 as u32) << 16u32) | (((x >> 24u32) as u8 as u32) << 24u32) == x)
        by (bit_vector);
}

/// A checksum is a byte: 255 less the byte sum modulo 256.
pub proof fn lemma_crc_is_complement(s: Seq<u8>)
    ensures
        crc_of(s) == 255 - byte_sum(s) % 256,
        crc_of(s) < 256,
{
    let x = (byte_sum(s) % 0x10000) as u16;
    assert(!x & 0xff == 255 - x % 256) by (bit_vector);
    lemma_mod_mod(byte_sum(s) as int, 256, 256);
}

/// The data section of every event decodes to that event.
pub proof fn lemma_payload_round_trip(e: ControllerEvent)
    ensures
        decode_payload(kind_of_event(e), encode_payload(e)) == Ok::<ControllerEvent, ProtocolParseError>(e),
{
    let p = encode_payload(e);
    match e {
        ControllerEvent::QuaternionEvent(q) => {
            lemma_le_round_trip(q.x);
            lemma_le_round_trip(q.y);
            lemma_le_round_trip(q.z);
            lemma_le_round_trip(q.w);
            assert(f32_bits_at(p, 0) == q.x);
            assert(f32_bits_at(p, 4) == q.y);
            assert(f32_bits_at(p, 8) == q.z);
            assert(f32_bits_at(p, 12) == q.w);
        },
        ControllerEvent::AccelerometerEvent(a) => {
            lemma_le_round_trip(a.x);
            lemma_le_round_trip(a.y);
            lemma_le_round_trip(a.z);
            assert(f32_bits_at(p, 0) == a.x);
            assert(f32_bits_at(p, 4) == a.y);
            assert(f32_bits_at(p, 8) == a.z);
        },
        ControllerEvent::GyroEvent(g) => {
            lemma_le_round_trip(g.x);
            lemma_le_round_trip(g.y);
            lemma_le_round_trip(g.z);
            assert(f32_bits_at(p, 0) == g.x);
            assert(f32_bits_at(p, 4) == g.y);
            assert(f32_bits_at(p, 8) == g.z);
        },
        ControllerEvent::MagnetometerEvent(m) => {
            lemma_le_round_trip(m.x);
            lemma_le_round_trip(m.y);
            lemma_le_round_trip(m.z);
            assert(f32_bits_at(p, 0) == m.x);
            assert(f32_bits_at(p, 4) == m.y);
            assert(f32_bits_at(p, 8) == m.z);
        },
        ControllerEvent::LocationEvent(l) => {
            lemma_le_round_trip(l.latitude);
            lemma_le_round_trip(l.longitude);
            lemma_le_round_trip(l.altitude);
            assert(f32_bits_at(p, 0) == l.latitude);
            assert(f32_bits_at(p, 4) == l.longitude);
            assert(f32_bits_at(p, 8) == l.altitude);
        },
        _ => {},
    }
}

/// Every frame that encodes an event decodes to that event, field for field,
/// whenever its kind is enabled.
pub proof fn lemma_frame_round_trip(e: ControllerEvent, enabled: EnabledEvents)
    requires
        enabled.allows(kind_of_event(e)),
    ensures
        encode_frame(e).len() == frame_len_of(kind_of_event(e)),
        decode_command(kind_of_event(e), encode_frame(e), enabled) == Ok::<
            ControllerEvent,
            ProtocolParseError,
        >(e),
        decode_at_marker(encode_frame(e), enabled) == Ok::<ControllerEvent, ProtocolParseError>(e),
{
    let k = kind_of_event(e);
    let body = seq![FRAME_MARKER, id_of_kind(k)] + encode_payload(e);
    let f = encode_frame(e);
    lemma_crc_is_complement(body);
    lemma_payload_round_trip(e);
    assert(f.take(f.len() - 1) =~= body);
    assert(f.subrange(2, f.len() - 1) =~= encode_payload(e));
    assert(f.take(f.len() as int) =~= f);
}

/// Replacing one byte of `s` changes its sum by the difference of the bytes.
pub proof fn lemma_byte_sum_update(s: Seq<u8>, i: int, v: u8)
    requires
        0 <= i < s.len(),
    ensures
        byte_sum(s.update(i, v)) + s[i] == byte_sum(s) + v,
    decreases s.len(),
{
    let t = s.update(i, v);
    if i < s.len() - 1 {
        assert(t.drop_last() =~= s.drop_last().update(i, v));
        lemma_byte_sum_update(s.drop_last(), i, v);
    } else {
        assert(t.drop_last() =~= s.drop_last());
    }
}

/// Changing any one byte of the part of a frame that the checksum covers,
/// while the checksum byte stays, makes the checksum fail.
pub proof fn lemma_changed_byte_fails_checksum(
    k: ControllerDataPackageType,
    frame: Seq<u8>,
    i: int,
    v: u8,
    enabled: EnabledEvents,
)
    requires
        frame.len() == frame_len_of(k),
        frame.last() as u16 == crc_of(frame.drop_last()),
        0 <= i < frame.len() - 1,
        v != frame[i],
    ensures
        crc_of(frame.update(i, v).drop_last()) != frame.last() as u16,
        decode_command(k, frame.update(i, v), enabled) == Err::<ControllerEvent, ProtocolParseError>(
            ProtocolParseError::InvalidCrc(frame.last(), crc_of(frame.update(i, v).drop_last())),
        ),
{
    let body = frame.drop_last();
    let changed = frame.update(i, v);
    assert(changed.drop_last() =~= body.update(i, v));
    assert(changed.take(changed.len() - 1) =~= changed.drop_last());
    lemma_byte_sum_update(body, i, v);
    lemma_crc_is_complement(body);
    lemma_crc_is_complement(body.update(i, v));
    let a = byte_sum(body) as int;
    let c = byte_sum(body.update(i, v)) as int;
    assert(c - a == v - frame[i]);
    assert(a % 256 != c % 256) by {
        if a % 256 == c % 256 {
            assert((c - a) % 256 == 0) by (nonlinear_arith)
                requires
                    a % 256 == c % 256,
                    a >= 0,
                    c >= 0,
            ;
            assert(-256 < c - a < 256);
        }
    }
}

/// Flipping any one bit of a frame's data section, while the checksum byte
/// stays, makes the frame decode to `InvalidCrc`.
pub proof fn lemma_payload_bit_flip_fails_checksum(
    k: ControllerDataPackageType,
    frame: Seq<u8>,
    i: int,
    bit: u8,
    enabled: EnabledEvents,
)
    requires
        frame.len() == frame_len_of(k),
        frame.last() as u16 == crc_of(frame.drop_last()),
        2 <= i < frame.len() - 1,
        bit < 8,
    ensures
        decode_command(k, frame.update(i, frame[i] ^ (1u8 << bit)), enabled) == Err::<
            ControllerEvent,
            ProtocolParseError,
        >(
            ProtocolParseError::InvalidCrc(
                frame.last(),
                crc_of(frame.update(i, frame[i] ^ (1u8 << bit)).drop_last()),
            ),
        ),
{
    let b = frame[i];
    assert(b ^ (1u8 << bit) != b) by (bit_vector)
        requires
            bit < 8,
    ;
    lemma_changed_byte_fails_checksum(k, frame, i, b ^ (1u8 << bit), enabled);
}

/// Scanning a buffer behind a prefix `a` goes as scanning the buffer alone.
pub proof fn lemma_scan_behind_prefix(a: Seq<u8>, b: Seq<u8>, p: nat, enabled: EnabledEvents)
    ensures
        scan(a + b, a.len() + p, enabled) == scan(b, p, enabled),
    decreases b.len() + 1 - p,
{
    let s = a + b;
    if p < b.len() {
        assert(s[(a.len() + p) as int] == b[p as int]);
        if b[p as int] != FRAME_MARKER {
            lemma_scan_behind_prefix(a, b, p + 1, enabled);
        } else {
            assert(s.subrange((a.len() + p) as int, s.len() as int) =~= b.subrange(p as int, b.len() as int));
            lemma_scan_behind_prefix(a, b, p + 1, enabled);
        }
    }
}

/// Bytes other than the marker from `j` up to `m` yield nothing.
pub proof fn lemma_scan_skips_to(s: Seq<u8>, j: nat, m: nat, enabled: EnabledEvents)
    requires
        j <= m <= s.len(),
        forall|x: int| j <= x < m ==> s[x] != FRAME_MARKER,
    ensures
        scan(s, j, enabled) == scan(s, m, enabled),
    decreases m - j,
{
    if j < m {
        lemma_scan_skips_to(s, j + 1, m, enabled);
    }
}

/// Noise without a marker byte yields no result and leaves what follows it
/// to decode as it would alone.
pub proof fn lemma_noise_is_skipped(noise: Seq<u8>, rest: Seq<u8>, enabled: EnabledEvents)
    requires
        marker_free_from(noise, 0),
    ensures
        scan(noise + rest, 0, enabled) == scan(rest, 0, enabled),
{
    lemma_scan_skips_to(noise + rest, 0, noise.len(), enabled);
    lemma_scan_behind_prefix(noise, rest, 0, enabled);
}

/// A marker, then bytes without a marker, yield one result, for the frame
/// that starts at the marker; what follows them decodes as it would alone.
/// A cut-off frame is such a stretch.
pub proof fn lemma_frame_start_then_rest(c: u8, tail: Seq<u8>, rest: Seq<u8>, enabled: EnabledEvents)
    requires
        c != FRAME_MARKER,
        marker_free_from(tail, 0),
    ensures
        scan(seq![FRAME_MARKER, c] + tail + rest, 0, enabled) == seq![
            decode_at_marker(seq![FRAME_MARKER, c] + tail + rest, enabled),
        ] + scan(rest, 0, enabled),
{
    let head = seq![FRAME_MARKER, c] + tail;
    let s = head + rest;
    assert(s.subrange(0, s.len() as int) =~= s);
    lemma_scan_skips_to(s, 1, head.len(), enabled);
    lemma_scan_behind_prefix(head, rest, 0, enabled);
}

/// A marker, whatever follows it, yields one result for the frame that
/// starts there, and the scan then goes on just past it: a lone marker does
/// not hide the frame after it.
pub proof fn lemma_marker_then_rest(rest: Seq<u8>, enabled: EnabledEvents)
    ensures
        scan(seq![FRAME_MARKER] + rest, 0, enabled) == seq![
            decode_at_marker(seq![FRAME_MARKER] + rest, enabled),
        ] + scan(rest, 0, enabled),
{
    let s = seq![FRAME_MARKER] + rest;
    assert(s.subrange(0, s.len() as int) =~= s);
    lemma_scan_behind_prefix(seq![FRAME_MARKER], rest, 0, enabled);
}

/// A frame that encodes an event, with no marker byte after its command id,
/// yields that event; what follows it decodes as it would alone.
pub proof fn lemma_valid_frame_then_rest(e: ControllerEvent, rest: Seq<u8>, enabled: EnabledEvents)
    requires
        enabled.allows(kind_of_event(e)),
        marker_free_from(encode_frame(e), 2),
    ensures
        scan(encode_frame(e) + rest, 0, enabled) == seq![Ok::<ControllerEvent, ProtocolParseError>(e)]
            + scan(rest, 0, enabled),
{
    let f = encode_frame(e);
    let tail = f.subrange(2, f.len() as int);
    assert(f =~= seq![FRAME_MARKER, f[1]] + tail);
    lemma_frame_start_then_rest(f[1], tail, rest, enabled);
    lemma_frame_round_trip(e, enabled);
    assert((f + rest).take(f.len() as int) =~= f);
}

/// A marker followed by an unknown command id other than the marker yields
/// `UnknownEvent` with that id, and nothing for the id itself.
pub proof fn lemma_unknown_id(c: u8, rest: Seq<u8>, enabled: EnabledEvents)
    requires
        kind_of_id(c) is None,
        c != FRAME_MARKER,
    ensures
        scan(seq![FRAME_MARKER, c] + rest, 0, enabled) == seq![
            Err::<ControllerEvent, ProtocolParseError>(ProtocolParseError::UnknownEvent(Some(c))),
        ] + scan(rest, 0, enabled),
{
    assert(seq![FRAME_MARKER, c] + Seq::<u8>::empty() + rest =~= seq![FRAME_MARKER, c] + rest);
    lemma_frame_start_then_rest(c, Seq::<u8>::empty(), rest, enabled);
}

/// A marker at the very end of the buffer, with nothing after it, yields
/// `UnknownEvent(None)`.
pub proof fn lemma_marker_at_end(noise: Seq<u8>, enabled: EnabledEvents)
    requires
        marker_free_from(noise, 0),
    ensures
        scan(noise.push(FRAME_MARKER), 0, enabled) == seq![
            Err::<ControllerEvent, ProtocolParseError>(ProtocolParseError::UnknownEvent(None)),
        ],
{
    assert(noise.push(FRAME_MARKER) =~= noise + seq![FRAME_MARKER]);
    lemma_noise_is_skipped(noise, seq![FRAME_MARKER], enabled);
    let m = seq![FRAME_MARKER];
    assert(m.subrange(0, 1) =~= m);
    assert(scan(m, 1, enabled) =~= Seq::<Result<ControllerEvent, ProtocolParseError>>::empty());
    assert(scan(m, 0, enabled) =~= seq![
        Err::<ControllerEvent, ProtocolParseError>(ProtocolParseError::UnknownEvent(None)),
    ]);
}

/// A frame whose length differs from the one its kind fixes yields
/// `InvalidLength` with the kind's frame length, before anything else is
/// checked.
pub proof fn lemma_wrong_length(k: ControllerDataPackageType, frame: Seq<u8>, enabled: EnabledEvents)
    requires
        frame.len() != frame_len_of(k),
    ensures
        decode_command(k, frame, enabled) == Err::<ControllerEvent, ProtocolParseError>(
            ProtocolParseError::InvalidLength(frame_len_of(k), frame.len() as usize),
        ),
{
}

/// A frame cut off by the end of the buffer yields `InvalidLength` with the
/// kind's frame length and the length that was there.
pub proof fn lemma_cut_off_frame(k: ControllerDataPackageType, tail: Seq<u8>, enabled: EnabledEvents)
    requires
        2 + tail.len() < frame_len_of(k),
    ensures
        decode_at_marker(seq![FRAME_MARKER, id_of_kind(k)] + tail, enabled) == Err::<
            ControllerEvent,
            ProtocolParseError,
        >(ProtocolParseError::InvalidLength(frame_len_of(k), (2 + tail.len()) as usize)),
{
    let s = seq![FRAME_MARKER, id_of_kind(k)] + tail;
    assert(s.take(s.len() as int) =~= s);
}

/// Two scanners made over the same buffer yield the same results: what is
/// yielded depends on the buffer alone.
pub proof fn lemma_scanners_agree(a: &Scanner, b: &Scanner, input: Seq<u8>, enabled: EnabledEvents)
    requires
        a.remaining() == scan(input, 0, enabled),
        b.remaining() == scan(input, 0, enabled),
    ensures
        a.remaining() == b.remaining(),
{
}

} // verus!
