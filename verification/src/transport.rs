//! Command and acknowledgment models and the frame codec.
//!
//! Every outbound frame is: sync marker 0x55 0x66, ack-request flag 0x01, a
//! two-byte little-endian payload-length field fixed per command kind, the
//! caller's sequence byte, a reserved zero byte, a one-byte command
//! identifier, the command's parameters, and the little-endian checksum of
//! every byte before it. Inbound acknowledgment frames share the layout and
//! are validated against it before being parsed.

use vstd::prelude::*;
use crate::buffer::{packet_as_slice, packet_bytes, packet_new, packet_push};
use crate::checksum::crc16_spec;
use crate::checksum::crc16_cal;
use vstd::slice::{slice_index_get, slice_subrange};

verus! {

/// A decimal zoom level: an integer part in 1..=30 and one fractional
/// decimal digit in 0..=9. Immutable once constructed.
#[derive(Debug, Clone, Copy, PartialEq, Eq, Structural)]
pub struct ZoomFactor {
    pub int_part: u8,
    pub fract: u8,
}

#[derive(Debug, Clone, Copy, PartialEq, Eq, Structural)]
pub enum ZoomMode {
    ZoomIn,
    StopZoom,
    ZoomOut,
}

#[derive(Debug, Clone, Copy, PartialEq, Eq, Structural)]
pub enum CenterPos {
    Default,
    Pos0,
}

#[derive(Debug, Clone, Copy, PartialEq, Eq, Structural)]
pub enum GimbalMode {
    LockMode,
    FollowMode,
    FPVMode,
}

/// An outbound command, one case per supported operation. Angles are signed
/// tenths of a degree.
#[derive(Debug, Clone, Copy, PartialEq, Eq, Structural)]
pub enum SiyiCommand {
    ControlAngle(i16, i16),
    AbsZoom(ZoomFactor),
    AutoZoom(ZoomMode),
    WorkingMode(GimbalMode),
    Center(CenterPos),
}

#[derive(Debug, Clone, Copy, PartialEq, Eq, Structural)]
pub enum AckResult {
    Success,
    Error,
}

/// The device's reported orientation, in signed tenths of a degree.
#[derive(Debug, Clone, Copy, PartialEq, Eq, Structural)]
pub struct ControlAngles {
    pub yaw: i16,
    pub pitch: i16,
    pub roll: i16,
}

/// An inbound acknowledgment, selected by the identifier byte of the reply.
#[derive(Debug, Clone, Copy, PartialEq, Eq, Structural)]
pub enum SiyiAck {
    Center(AckResult),
    ControlAngle(ControlAngles),
}

/// The known acknowledgment identifiers: Center replies carry 0x08,
/// ControlAngle replies carry 0x0E.
#[derive(Debug, Clone, Copy, PartialEq, Eq, Structural)]
pub enum SiyiAckId {
    Center,
    ControlAngle,
}

/// `v` saturated into `lo..=hi`.
pub open spec fn clamp_i16(v: i16, lo: i16, hi: i16) -> i16 {
    if v < lo {
        lo
    } else if v > hi {
        hi
    } else {
        v
    }
}

/// `v` saturated into `lo..=hi`.
pub open spec fn clamp_u8(v: u8, lo: u8, hi: u8) -> u8 {
    if v < lo {
        lo
    } else if v > hi {
        hi
    } else {
        v
    }
}

/// The two's-complement 16-bit image of a signed value.
pub open spec fn u16_of_i16(v: i16) -> u16 {
    if v >= 0 {
        v as u16
    } else {
        (v + 0x10000) as u16
    }
}

/// The two little-endian bytes of a signed 16-bit value.
pub open spec fn le16(v: i16) -> Seq<u8> {
    seq![(u16_of_i16(v) % 256) as u8, (u16_of_i16(v) / 256) as u8]
}

/// The unsigned 16-bit value with the given low and high bytes.
pub open spec fn u16_of(lo: u8, hi: u8) -> u16 {
    (lo + 256 * (hi as int)) as u16
}

/// The signed 16-bit value with the given low and high bytes.
pub open spec fn i16_of(lo: u8, hi: u8) -> i16 {
    let u = lo + 256 * (hi as int);
    if u < 0x8000 {
        u as i16
    } else {
        (u - 0x10000) as i16
    }
}

/// The wire byte of a zoom direction: +1, 0 or -1 as a signed byte.
pub open spec fn zoom_mode_byte(m: ZoomMode) -> u8 {
    match m {
        ZoomMode::ZoomIn => 1,
        ZoomMode::StopZoom => 0,
        ZoomMode::ZoomOut => 0xff,
    }
}

/// The wire byte of a working mode.
pub open spec fn gimbal_mode_byte(m: GimbalMode) -> u8 {
    match m {
        GimbalMode::LockMode => 0,
        GimbalMode::FollowMode => 1,
        GimbalMode::FPVMode => 2,
    }
}

/// The wire byte of a centering position.
pub open spec fn center_pos_byte(p: CenterPos) -> u8 {
    match p {
        CenterPos::Default => 0,
        CenterPos::Pos0 => 1,
    }
}

/// The eight header bytes of every frame: sync marker, ack-request flag,
/// little-endian length field (always below 256, so its high byte is zero),
/// sequence byte, reserved byte, and the command identifier.
pub open spec fn spec_header(len_field: u8, seq: u8, cmd_id: u8) -> Seq<u8> {
    seq![0x55u8, 0x66u8, 0x01u8, len_field, 0x00u8, seq, 0x00u8, cmd_id]
}

/// A whole frame: header, payload, and the little-endian checksum of every
/// byte before it.
pub open spec fn spec_frame(len_field: u8, seq: u8, cmd_id: u8, payload: Seq<u8>) -> Seq<u8> {
    let body = spec_header(len_field, seq, cmd_id) + payload;
    body + seq![(crc16_spec(body) % 256) as u8, (crc16_spec(body) / 256) as u8]
}

/// The byte sequence that encoding a command with a given sequence byte
/// produces. The length field is a fixed literal per command kind.
pub open spec fn spec_encode(cmd: SiyiCommand, seq: u8) -> Seq<u8> {
    match cmd {
        SiyiCommand::ControlAngle(yaw, pitch) => spec_frame(
            0x04,
            seq,
            0x0e,
            le16(clamp_i16(yaw, -1350i16, 1350)) + le16(clamp_i16(pitch, -900i16, 250)),
        ),
        SiyiCommand::AbsZoom(zoom) => spec_frame(0x02, seq, 0x0f, seq![zoom.int_part, zoom.fract]),
        SiyiCommand::AutoZoom(m) => spec_frame(0x01, seq, 0x05, seq![zoom_mode_byte(m)]),
        SiyiCommand::WorkingMode(m) => spec_frame(0x01, seq, 0x19, seq![gimbal_mode_byte(m)]),
        SiyiCommand::Center(p) => spec_frame(0x01, seq, 0x08, seq![center_pos_byte(p)]),
    }
}

/// What decoding a received byte slice yields: a value exactly when the sync
/// marker, the length field, the trailing checksum and the identifier byte
/// all check out and the payload is long enough for the identified variant;
/// nothing otherwise.
pub open spec fn spec_decode(s: Seq<u8>) -> Option<SiyiAck> {
    if s.len() < 2 || s[0] != 0x55 || s[1] != 0x66 {
        None
    } else if s.len() < 8 {
        None
    } else if 10 + i16_of(s[3], s[4]) != s.len() {
        None
    } else if crc16_spec(s.take(s.len() - 2)) != u16_of(s[s.len() - 2], s[s.len() - 1]) {
        None
    } else if s[7] == 0x08 {
        if s.len() >= 9 {
            Some(
                SiyiAck::Center(
                    if s[8] != 0 {
                        AckResult::Success
                    } else {
                        AckResult::Error
                    },
                ),
            )
        } else {
            None
        }
    } else if s[7] == 0x0e {
        if s.len() >= 14 {
            Some(
                SiyiAck::ControlAngle(
                    ControlAngles {
                        pitch: i16_of(s[9], s[8]),
                        yaw: i16_of(s[11], s[10]),
                        roll: i16_of(s[13], s[12]),
                    },
                ),
            )
        } else {
            None
        }
    } else {
        None
    }
}

impl ZoomFactor {
    /// Builds a zoom factor from a raw integer part and a raw tenths digit,
    /// saturating each into its valid range rather than failing.
    pub fn new(int_part: u8, fract: u8) -> (r: ZoomFactor)
        ensures
            r.int_part == clamp_u8(int_part, 1, 30),
            r.fract == clamp_u8(fract, 0, 9),
            1 <= r.int_part <= 30,
            r.fract <= 9,
    {
        ZoomFactor {
            int_part: if int_part < 1 {
                1
            } else if int_part > 30 {
                30
            } else {
                int_part
            },
            fract: if fract > 9 {
                9
            } else {
                fract
            },
        }
    }
}

fn begin_frame(len_field: u8, seq: u8, cmd_id: u8) -> (buf: heapless::Vec<u8, 255>)
    ensures
        packet_bytes(buf) == spec_header(len_field, seq, cmd_id),
{
    let mut buf = packet_new();
    packet_push(&mut buf, 0x55);
    packet_push(&mut buf, 0x66);
    packet_push(&mut buf, 0x01);
    packet_push(&mut buf, len_field);
    packet_push(&mut buf, 0x00);
    packet_push(&mut buf, seq);
    packet_push(&mut buf, 0x00);
    packet_push(&mut buf, cmd_id);
    proof {
        assert(packet_bytes(buf) =~= spec_header(len_field, seq, cmd_id));
    }
    buf
}

fn push_le_i16(buf: &mut heapless::Vec<u8, 255>, v: i16)
    requires
        packet_bytes(*old(buf)).len() + 2 <= 255,
    ensures
        packet_bytes(*final(buf)) == packet_bytes(*old(buf)) + le16(v),
{
    let u: u16 = if v >= 0 {
        v as u16
    } else {
        ((v as i32) + 0x10000) as u16
    };
    proof {
        assert(u == u16_of_i16(v));
        assert(u / 256 < 256);
    }
    packet_push(buf, (u % 256) as u8);
    packet_push(buf, (u / 256) as u8);
    proof {
        assert(packet_bytes(*buf) =~= packet_bytes(*old(buf)) + le16(v));
    }
}

/// Appends the little-endian checksum of everything pushed so far, closing
/// the frame.
fn finish_frame(buf: &mut heapless::Vec<u8, 255>)
    requires
        packet_bytes(*old(buf)).len() + 2 <= 255,
    ensures
        packet_bytes(*final(buf)) == packet_bytes(*old(buf)) + seq![
            (crc16_spec(packet_bytes(*old(buf))) % 256) as u8,
            (crc16_spec(packet_bytes(*old(buf))) / 256) as u8,
        ],
{
    let crc: u16 = crc16_cal(packet_as_slice(buf));
    proof {
        assert(crc / 256 < 256);
    }
    packet_push(buf, (crc % 256) as u8);
    packet_push(buf, (crc / 256) as u8);
    proof {
        assert(packet_bytes(*buf) =~= packet_bytes(*old(buf)) + seq![
            (crc16_spec(packet_bytes(*old(buf))) % 256) as u8,
            (crc16_spec(packet_bytes(*old(buf))) / 256) as u8,
        ]);
    }
}

impl SiyiCommand {
    /// Encodes the command with sequence byte zero.
    pub fn to_bytes(self) -> (r: heapless::Vec<u8, 255>)
        ensures
            packet_bytes(r) == spec_encode(self, 0),
    {
        self.to_bytes_with_seq(0)
    }

    /// Serializes the command into a complete wire frame carrying the given
    /// sequence byte. Out-of-range angles are saturated, never rejected, so
    /// encoding always succeeds.
    pub fn to_bytes_with_seq(self, seq: u8) -> (r: heapless::Vec<u8, 255>)
        ensures
            packet_bytes(r) == spec_encode(self, seq),
    {
        match self {
            SiyiCommand::ControlAngle(yaw, pitch) => {
                let mut buf = begin_frame(0x04, seq, 0x0e);
                let yaw_c: i16 = if yaw < -1350 {
                    -1350
                } else if yaw > 1350 {
                    1350
                } else {
                    yaw
                };
                let pitch_c: i16 = if pitch < -900 {
                    -900
                } else if pitch > 250 {
                    250
                } else {
                    pitch
                };
                push_le_i16(&mut buf, yaw_c);
                push_le_i16(&mut buf, pitch_c);
                proof {
                    assert(packet_bytes(buf) =~= spec_header(0x04, seq, 0x0e) + (le16(yaw_c)
                        + le16(pitch_c)));
                }
                finish_frame(&mut buf);
                proof {
                    assert(packet_bytes(buf) =~= spec_frame(0x04, seq, 0x0e, le16(yaw_c) + le16(
                        pitch_c,
                    )));
                }
                buf
            },
            SiyiCommand::AbsZoom(zoom) => {
                let mut buf = begin_frame(0x02, seq, 0x0f);
                packet_push(&mut buf, zoom.int_part);
                packet_push(&mut buf, zoom.fract);
                proof {
                    assert(packet_bytes(buf) =~= spec_header(0x02, seq, 0x0f) + seq![
                        zoom.int_part,
                        zoom.fract,
                    ]);
                }
                finish_frame(&mut buf);
                proof {
                    assert(packet_bytes(buf) =~= spec_frame(0x02, seq, 0x0f, seq![
                        zoom.int_part,
                        zoom.fract,
                    ]));
                }
                buf
            },
            SiyiCommand::AutoZoom(zoom) => {
                let mut buf = begin_frame(0x01, seq, 0x05);
                let b: u8 = match zoom {
                    ZoomMode::ZoomIn => 1,
                    ZoomMode::StopZoom => 0,
                    ZoomMode::ZoomOut => 0xff,
                };
                packet_push(&mut buf, b);
                proof {
                    assert(packet_bytes(buf) =~= spec_header(0x01, seq, 0x05) + seq![b]);
                }
                finish_frame(&mut buf);
                proof {
                    assert(packet_bytes(buf) =~= spec_encode(self, seq));
                }
                buf
            },
            SiyiCommand::WorkingMode(mode) => {
                let mut buf = begin_frame(0x01, seq, 0x19);
                let b: u8 = match mode {
                    GimbalMode::LockMode => 0,
                    GimbalMode::FollowMode => 1,
                    GimbalMode::FPVMode => 2,
                };
                packet_push(&mut buf, b);
                proof {
                    assert(packet_bytes(buf) =~= spec_header(0x01, seq, 0x19) + seq![b]);
                }
                finish_frame(&mut buf);
                proof {
                    assert(packet_bytes(buf) =~= spec_encode(self, seq));
                }
                buf
            },
            SiyiCommand::Center(center_pos) => {
                let mut buf = begin_frame(0x01, seq, 0x08);
                let b: u8 = match center_pos {
                    CenterPos::Default => 0,
                    CenterPos::Pos0 => 1,
                };
                packet_push(&mut buf, b);
                proof {
                    assert(packet_bytes(buf) =~= spec_header(0x01, seq, 0x08) + seq![b]);
                }
                finish_frame(&mut buf);
                proof {
                    assert(packet_bytes(buf) =~= spec_encode(self, seq));
                }
                buf
            },
        }
    }
}

impl SiyiAckId {
    /// The identifier for a reply byte: 0x08 and 0x0E are the two known
    /// values, anything else is an unrecognized reply.
    pub fn try_from(value: u8) -> (r: Result<SiyiAckId, ()>)
        ensures
            r == (if value == 0x08 {
                Ok::<SiyiAckId, ()>(SiyiAckId::Center)
            } else if value == 0x0e {
                Ok::<SiyiAckId, ()>(SiyiAckId::ControlAngle)
            } else {
                Err::<SiyiAckId, ()>(())
            }),
    {
        match value {
            0x08 => Ok(SiyiAckId::Center),
            0x0e => Ok(SiyiAckId::ControlAngle),
            _ => Err(()),
        }
    }
}

/// A slice shorter than the eight fixed header bytes is always rejected by
/// the decoder, whatever its content.
pub proof fn lemma_short_input_rejected(s: Seq<u8>)
    requires
        s.len() < 8,
    ensures
        spec_decode(s) is None,
{
}

/// Encoding an angle command whose parameters are in range yields a frame
/// that the decoder's structural and checksum validation accepts: decoding
/// it produces a value rather than a rejection.
pub proof fn lemma_control_angle_roundtrip(yaw: i16, pitch: i16, seq: u8)
    requires
        -1350 <= yaw <= 1350,
        -900 <= pitch <= 250,
    ensures
        spec_decode(spec_encode(SiyiCommand::ControlAngle(yaw, pitch), seq)) is Some,
{
    let payload = le16(clamp_i16(yaw, -1350i16, 1350)) + le16(clamp_i16(pitch, -900i16, 250));
    let body = spec_header(0x04, seq, 0x0e) + payload;
    let crc = crc16_spec(body);
    let s = spec_encode(SiyiCommand::ControlAngle(yaw, pitch), seq);
    assert(s == body + seq![(crc % 256) as u8, (crc / 256) as u8]);
    assert(s.len() == 14);
    assert(s[0] == 0x55 && s[1] == 0x66);
    assert(s[3] == 0x04 && s[4] == 0x00);
    assert(i16_of(0x04, 0x00) == 4);
    assert(s.take(s.len() - 2) =~= body);
    assert(s[s.len() - 2] == (crc % 256) as u8 && s[s.len() - 1] == (crc / 256) as u8);
    assert(crc == 256 * (crc / 256) + crc % 256);
    assert(u16_of((crc % 256) as u8, (crc / 256) as u8) == crc);
    assert(s[7] == 0x0e);
}

fn i16_from_le(lo: u8, hi: u8) -> (r: i16)
    ensures
        r == i16_of(lo, hi),
{
    let u: u32 = (lo as u32) + 256 * (hi as u32);
    if u < 0x8000 {
        u as i16
    } else {
        ((u as i32) - 0x10000) as i16
    }
}

fn u16_from_le(lo: u8, hi: u8) -> (r: u16)
    ensures
        r == u16_of(lo, hi),
{
    (lo as u16) + 256 * (hi as u16)
}

impl SiyiAck {
    /// Validates and parses a received byte slice. A value comes back exactly
    /// when the slice starts with the sync marker, is at least eight bytes
    /// long, has a length field consistent with its actual length, carries
    /// the checksum of its body in its trailing two bytes, and names a known
    /// acknowledgment identifier; any violation yields None.
    pub fn from_bytes(bytes: &[u8]) -> (r: Option<SiyiAck>)
        ensures
            r == spec_decode(bytes@),
    {
        let n = bytes.len();
        if n < 2 || *slice_index_get(bytes, 0) != 0x55 || *slice_index_get(bytes, 1) != 0x66 {
            return None;
        }
        if n < 8 {
            return None;
        }
        let declared: i16 = i16_from_le(*slice_index_get(bytes, 3), *slice_index_get(bytes, 4));
        if n > 32777 {
            proof {
                assert(10 + i16_of(bytes@[3], bytes@[4]) < bytes@.len());
            }
            return None;
        }
        if 10 + (declared as i32) != (n as i32) {
            return None;
        }
        let stored: u16 = u16_from_le(*slice_index_get(bytes, n - 2), *slice_index_get(bytes, n - 1));
        let computed: u16 = crc16_cal(slice_subrange(bytes, 0, n - 2));
        proof {
            assert(bytes@.subrange(0, n - 2) =~= bytes@.take(bytes@.len() - 2));
        }
        if computed != stored {
            return None;
        }
        let id = match SiyiAckId::try_from(*slice_index_get(bytes, 7)) {
            Ok(id) => id,
            Err(_) => {
                return None;
            },
        };
        match id {
            SiyiAckId::Center => {
                if n < 9 {
                    return None;
                }
                Some(
                    SiyiAck::Center(
                        if *slice_index_get(bytes, 8) != 0 {
                            AckResult::Success
                        } else {
                            AckResult::Error
                        },
                    ),
                )
            },
            SiyiAckId::ControlAngle => {
                if n < 14 {
                    return None;
                }
                Some(
                    SiyiAck::ControlAngle(
                        ControlAngles {
                            pitch: i16_from_le(
                                *slice_index_get(bytes, 9),
                                *slice_index_get(bytes, 8),
                            ),
                            yaw: i16_from_le(
                                *slice_index_get(bytes, 11),
                                *slice_index_get(bytes, 10),
                            ),
                            roll: i16_from_le(
                                *slice_index_get(bytes, 13),
                                *slice_index_get(bytes, 12),
                            ),
                        },
                    ),
                )
            },
        }
    }
}

} // verus!
