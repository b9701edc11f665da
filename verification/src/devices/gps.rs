//! The GPS receiver's telemetry: time, position and velocity. Each
//! floating-point quantity is held as the IEEE-754 bit pattern of its `f32`.

use vstd::prelude::*;
use crate::protocol::bytes::{
    be_bytes, be_bytes32, be_value, be_value32, lemma_be32_roundtrip, lemma_be_roundtrip,
    u16_from_be_bytes, u16_to_be_bytes, u32_from_be_bytes, u32_to_be_bytes,
};
use crate::protocol::message::{
    bytes_words, lemma_bytes_words_roundtrip, words_bytes, words_from_bytes, words_to_bytes,
};
use crate::protocol::DataWord;

verus! {

/// GPS time: week number and seconds into the week.
#[derive(Debug, Clone, Copy, PartialEq, Eq, Structural)]
pub struct GpsTime {
    pub week: u16,
    pub seconds_of_week_bits: u32,
}

/// Position in metres along three axes.
#[derive(Debug, Clone, Copy, PartialEq, Eq, Structural)]
pub struct Position {
    pub x_bits: u32,
    pub y_bits: u32,
    pub z_bits: u32,
}

/// Velocity in metres per second along three axes.
#[derive(Debug, Clone, Copy, PartialEq, Eq, Structural)]
pub struct Velocity {
    pub x_bits: u32,
    pub y_bits: u32,
    pub z_bits: u32,
}

/// A full GPS report.
#[derive(Debug, Clone, Copy, PartialEq, Eq, Structural)]
pub struct GpsTelemetry {
    pub time: GpsTime,
    pub position: Position,
    pub velocity: Velocity,
}

/// The six bytes of a GPS time: week, then seconds, big-endian.
pub open spec fn gps_time_bytes(t: GpsTime) -> Seq<u8> {
    be_bytes(t.week) + be_bytes32(t.seconds_of_week_bits)
}

/// The twelve bytes of three coordinates, x then y then z, big-endian.
pub open spec fn triple_bytes(x: u32, y: u32, z: u32) -> Seq<u8> {
    be_bytes32(x) + be_bytes32(y) + be_bytes32(z)
}

/// The thirty bytes of a GPS report: time, position, velocity.
pub open spec fn gps_bytes(g: GpsTelemetry) -> Seq<u8> {
    gps_time_bytes(g.time) + triple_bytes(g.position.x_bits, g.position.y_bits, g.position.z_bits)
        + triple_bytes(g.velocity.x_bits, g.velocity.y_bits, g.velocity.z_bits)
}

/// The 32-bit big-endian value at offset `i` of `b`.
pub open spec fn u32_at(b: Seq<u8>, i: int) -> u32 {
    be_value32(b[i], b[i + 1], b[i + 2], b[i + 3])
}

/// The report read from the first thirty bytes of `b` (later bytes are not read).
pub open spec fn gps_from_bytes(b: Seq<u8>) -> GpsTelemetry {
    GpsTelemetry {
        time: GpsTime { week: be_value(b[0], b[1]), seconds_of_week_bits: u32_at(b, 2) },
        position: Position { x_bits: u32_at(b, 6), y_bits: u32_at(b, 10), z_bits: u32_at(b, 14) },
        velocity: Velocity { x_bits: u32_at(b, 18), y_bits: u32_at(b, 22), z_bits: u32_at(b, 26) },
    }
}

fn push_u32(out: &mut Vec<u8>, x: u32)
    ensures
        final(out)@ == old(out)@ + be_bytes32(x),
{
    let b = u32_to_be_bytes(x);
    out.push(b[0]);
    out.push(b[1]);
    out.push(b[2]);
    out.push(b[3]);
    assert(out@ =~= old(out)@ + be_bytes32(x));
}

fn read_u32(b: &[u8], i: usize) -> (r: u32)
    requires
        i + 4 <= b@.len(),
    ensures
        r == u32_at(b@, i as int),
{
    u32_from_be_bytes(b[i], b[i + 1], b[i + 2], b[i + 3])
}

impl GpsTime {
    pub const GPS_TIME_SIZE: usize = 6;

    /// The six bytes of this time.
    pub fn to_be_bytes(&self) -> (r: Vec<u8>)
        ensures
            r@ == gps_time_bytes(*self),
    {
        let mut out: Vec<u8> = Vec::new();
        let w = u16_to_be_bytes(self.week);
        out.push(w[0]);
        out.push(w[1]);
        assert(out@ =~= be_bytes(self.week));
        push_u32(&mut out, self.seconds_of_week_bits);
        out
    }

    /// Reads a time from the first six bytes of `bytes`.
    pub fn from_be_bytes(bytes: &[u8]) -> (r: Self)
        requires
            bytes@.len() >= 6,
        ensures
            r == (GpsTime {
                week: be_value(bytes@[0], bytes@[1]),
                seconds_of_week_bits: u32_at(bytes@, 2),
            }),
    {
        GpsTime {
            week: u16_from_be_bytes([bytes[0], bytes[1]]),
            seconds_of_week_bits: read_u32(bytes, 2),
        }
    }
}

impl Position {
    pub const POSITION_SIZE: usize = 12;

    /// The twelve bytes of this position.
    pub fn to_be_bytes(&self) -> (r: Vec<u8>)
        ensures
            r@ == triple_bytes(self.x_bits, self.y_bits, self.z_bits),
    {
        let mut out: Vec<u8> = Vec::new();
        push_u32(&mut out, self.x_bits);
        push_u32(&mut out, self.y_bits);
        push_u32(&mut out, self.z_bits);
        assert(out@ =~= triple_bytes(self.x_bits, self.y_bits, self.z_bits));
        out
    }

    /// Reads a position from the first twelve bytes of `bytes`.
    pub fn from_be_bytes(bytes: &[u8]) -> (r: Self)
        requires
            bytes@.len() >= 12,
        ensures
            r == (Position {
                x_bits: u32_at(bytes@, 0),
                y_bits: u32_at(bytes@, 4),
                z_bits: u32_at(bytes@, 8),
            }),
    {
        Position { x_bits: read_u32(bytes, 0), y_bits: read_u32(bytes, 4), z_bits: read_u32(bytes, 8) }
    }
}

impl Velocity {
    pub const VELOCITY_SIZE: usize = 12;

    /// The twelve bytes of this velocity.
    pub fn to_be_bytes(&self) -> (r: Vec<u8>)
        ensures
            r@ == triple_bytes(self.x_bits, self.y_bits, self.z_bits),
    {
        let mut out: Vec<u8> = Vec::new();
        push_u32(&mut out, self.x_bits);
        push_u32(&mut out, self.y_bits);
        push_u32(&mut out, self.z_bits);
        assert(out@ =~= triple_bytes(self.x_bits, self.y_bits, self.z_bits));
        out
    }

    /// Reads a velocity from the first twelve bytes of `bytes`.
    pub fn from_be_bytes(bytes: &[u8]) -> (r: Self)
        requires
            bytes@.len() >= 12,
        ensures
            r == (Velocity {
                x_bits: u32_at(bytes@, 0),
                y_bits: u32_at(bytes@, 4),
                z_bits: u32_at(bytes@, 8),
            }),
    {
        Velocity { x_bits: read_u32(bytes, 0), y_bits: read_u32(bytes, 4), z_bits: read_u32(bytes, 8) }
    }
}

impl GpsTelemetry {
    /// The thirty bytes of this report.
    pub fn to_be_bytes(&self) -> (r: Vec<u8>)
        ensures
            r@ == gps_bytes(*self),
    {
        let mut out = self.time.to_be_bytes();
        let mut p = self.position.to_be_bytes();
        let mut v = self.velocity.to_be_bytes();
        out.append(&mut p);
        out.append(&mut v);
        out
    }

    /// This report as the fifteen data words that carry its bytes.
    pub fn to_data_words(&self) -> (r: Vec<DataWord>)
        ensures
            r@ == bytes_words(gps_bytes(*self)),
            words_bytes(r@) == gps_bytes(*self),
    {
        let bytes = self.to_be_bytes();
        proof {
            lemma_bytes_words_roundtrip(gps_bytes(*self));
        }
        words_from_bytes(bytes.as_slice())
    }

    /// Reads a report from the first thirty bytes of `bytes`: six of time,
    /// twelve of position, then velocity.
    pub fn from_be_bytes(bytes: &[u8]) -> (r: Self)
        requires
            bytes@.len() >= 30,
        ensures
            r == gps_from_bytes(bytes@),
    {
        let time = GpsTime::from_be_bytes(bytes);
        let position = Position {
            x_bits: read_u32(bytes, 6),
            y_bits: read_u32(bytes, 10),
            z_bits: read_u32(bytes, 14),
        };
        let velocity = Velocity {
            x_bits: read_u32(bytes, 18),
            y_bits: read_u32(bytes, 22),
            z_bits: read_u32(bytes, 26),
        };
        GpsTelemetry { time, position, velocity }
    }

    /// Reads a report from the bytes of the given data words; at least
    /// fifteen words are needed, and words after the fifteenth are not read.
    pub fn from_data_words(words: &[DataWord]) -> (r: Self)
        requires
            words@.len() >= 15,
            2 * words@.len() <= usize::MAX,
        ensures
            r == gps_from_bytes(words_bytes(words@)),
    {
        let bytes = words_to_bytes(words);
        Self::from_be_bytes(bytes.as_slice())
    }
}

/// Reading back the bytes of a GPS report gives the report.
pub proof fn lemma_gps_bytes_roundtrip(g: GpsTelemetry)
    ensures
        gps_from_bytes(gps_bytes(g)) == g,
{
    let b = gps_bytes(g);
    lemma_be_roundtrip(g.time.week, 0, 0);
    lemma_be32_roundtrip(g.time.seconds_of_week_bits, 0, 0, 0, 0);
    lemma_be32_roundtrip(g.position.x_bits, 0, 0, 0, 0);
    lemma_be32_roundtrip(g.position.y_bits, 0, 0, 0, 0);
    lemma_be32_roundtrip(g.position.z_bits, 0, 0, 0, 0);
    lemma_be32_roundtrip(g.velocity.x_bits, 0, 0, 0, 0);
    lemma_be32_roundtrip(g.velocity.y_bits, 0, 0, 0, 0);
    lemma_be32_roundtrip(g.velocity.z_bits, 0, 0, 0, 0);
    assert(b.subrange(0, 2) =~= be_bytes(g.time.week));
    assert(b.subrange(2, 6) =~= be_bytes32(g.time.seconds_of_week_bits));
    assert(b.subrange(6, 10) =~= be_bytes32(g.position.x_bits));
    assert(b.subrange(10, 14) =~= be_bytes32(g.position.y_bits));
    assert(b.subrange(14, 18) =~= be_bytes32(g.position.z_bits));
    assert(b.subrange(18, 22) =~= be_bytes32(g.velocity.x_bits));
    assert(b.subrange(22, 26) =~= be_bytes32(g.velocity.y_bits));
    assert(b.subrange(26, 30) =~= be_bytes32(g.velocity.z_bits));
}

/// Reading back the data words that carry a GPS report gives the report.
pub proof fn lemma_gps_words_roundtrip(g: GpsTelemetry)
    ensures
        gps_from_bytes(words_bytes(bytes_words(gps_bytes(g)))) == g,
{
    lemma_bytes_words_roundtrip(gps_bytes(g));
    lemma_gps_bytes_roundtrip(g);
}

} // verus!
