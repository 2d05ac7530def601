//! Decoder for the vendor's binary advertisement payload, data format 5.
//!
//! A reading is kept in the integers that the payload carries; each field's doc
//! comment gives the divisor that turns it into the physical quantity.

use vstd::prelude::*;

verus! {

/// First byte of every payload in data format 5.
pub const FORMAT_TAG: u8 = 5;

/// Shortest payload that holds every field of a reading.
pub const MIN_PAYLOAD_LEN: usize = 15;

/// Temperature in degrees Celsius is `temperature / TEMPERATURE_DIVISOR`.
pub const TEMPERATURE_DIVISOR: u16 = 200;

/// Relative humidity in percent is `humidity / HUMIDITY_DIVISOR`.
pub const HUMIDITY_DIVISOR: u16 = 400;

/// Pressure in hectopascal is `pressure / PRESSURE_DIVISOR`.
pub const PRESSURE_DIVISOR: u16 = 100;

/// Battery voltage in volt is `battery / BATTERY_DIVISOR`.
pub const BATTERY_DIVISOR: u16 = 1000;

/// Pressure, in pascal, that a raw pressure of zero stands for.
pub const PRESSURE_OFFSET: u32 = 50000;

/// Battery voltage, in millivolt, that a raw offset of zero stands for.
pub const BATTERY_OFFSET: u16 = 1600;

/// One set of measurements taken from a payload. All four fields are always filled.
#[derive(Clone, Copy, Debug, PartialEq, Eq, Structural)]
pub struct DecodedReading {
    /// Temperature in units of 0.005 degrees Celsius.
    pub temperature: i16,
    /// Relative humidity in units of 0.0025 percent.
    pub humidity: u16,
    /// Pressure in pascal.
    pub pressure: u32,
    /// Battery voltage in millivolt.
    pub battery: u16,
}

/// The unsigned number that two bytes spell, most significant first.
pub open spec fn be_u16(hi: u8, lo: u8) -> int {
    hi as int * 256 + lo as int
}

/// The two's-complement number that two bytes spell, most significant first.
pub open spec fn be_i16(hi: u8, lo: u8) -> int {
    if hi >= 128 {
        be_u16(hi, lo) - 65536
    } else {
        be_u16(hi, lo)
    }
}

/// A payload can be decoded iff it has the format tag and reaches past the power field.
pub open spec fn decodable(data: Seq<u8>) -> bool {
    data.len() >= MIN_PAYLOAD_LEN && data[0] == FORMAT_TAG
}

/// What a payload decodes to. Temperature is the signed number in bytes 1 and 2,
/// humidity the unsigned one in bytes 3 and 4, pressure the unsigned one in bytes 5
/// and 6 above the offset, and the battery voltage the low eleven bits of the
/// unsigned number in bytes 13 and 14 above the offset.
pub open spec fn decoded(data: Seq<u8>) -> Option<DecodedReading> {
    if decodable(data) {
        Some(
            DecodedReading {
                temperature: be_i16(data[1], data[2]) as i16,
                humidity: be_u16(data[3], data[4]) as u16,
                pressure: (be_u16(data[5], data[6]) + PRESSURE_OFFSET) as u32,
                battery: (BATTERY_OFFSET + be_u16(data[13], data[14]) % 2048) as u16,
            },
        )
    } else {
        None
    }
}

impl DecodedReading {
    /// The bounds that the payload format puts on each field.
    pub open spec fn in_range(self) -> bool {
        &&& -32768 <= self.temperature <= 32767
        &&& 0 <= self.humidity <= 65535
        &&& 50000 <= self.pressure <= 115535
        &&& 1600 <= self.battery <= 3647
    }

    /// A shortest payload that carries this reading; bytes that hold no field are zero.
    pub open spec fn encoded(self) -> Seq<u8> {
        let t = if self.temperature < 0 {
            self.temperature + 65536
        } else {
            self.temperature as int
        };
        let p = self.pressure - PRESSURE_OFFSET;
        let b = self.battery - BATTERY_OFFSET;
        seq![
            FORMAT_TAG,
            (t / 256) as u8,
            (t % 256) as u8,
            (self.humidity / 256) as u8,
            (self.humidity % 256) as u8,
            (p / 256) as u8,
            (p % 256) as u8,
            0u8,
            0u8,
            0u8,
            0u8,
            0u8,
            0u8,
            (b / 256) as u8,
            (b % 256) as u8,
        ]
    }
}

fn read_be_u16(hi: u8, lo: u8) -> (v: u16)
    ensures
        v == be_u16(hi, lo),
{
    (hi as u16) * 256 + (lo as u16)
}

fn read_be_i16(hi: u8, lo: u8) -> (v: i16)
    ensures
        v == be_i16(hi, lo),
{
    let u: i32 = (hi as i32) * 256 + (lo as i32);
    if hi >= 128 {
        (u - 65536) as i16
    } else {
        u as i16
    }
}

/// Decodes one payload.
///
/// A payload without the format tag, or too short to hold the power field, gives
/// `None`; every other payload gives its reading.
pub fn decode_ruuvi_raw5(data: &[u8]) -> (r: Option<DecodedReading>)
    ensures
        r == decoded(data@),
        r is Some <==> decodable(data@),
        data@.len() < 7 || data@[0] != FORMAT_TAG ==> r is None,
        r matches Some(reading) ==> reading.in_range(),
{
    if data.len() < MIN_PAYLOAD_LEN || data[0] != FORMAT_TAG {
        return None;
    }
    let temperature = read_be_i16(data[1], data[2]);
    let humidity = read_be_u16(data[3], data[4]);
    let pressure_raw = read_be_u16(data[5], data[6]);
    let power_raw = read_be_u16(data[13], data[14]);
    let battery_raw: u16 = power_raw & 0x07FF;
    assert(battery_raw == power_raw % 2048) by (bit_vector)
        requires
            battery_raw == power_raw & 0x07FF,
    ;
    Some(
        DecodedReading {
            temperature,
            humidity,
            pressure: pressure_raw as u32 + PRESSURE_OFFSET,
            battery: BATTERY_OFFSET + battery_raw,
        },
    )
}

/// Every reading that comes out of a payload lies within the format's bounds.
pub proof fn lemma_decoded_in_range(data: Seq<u8>)
    ensures
        decoded(data) matches Some(reading) ==> reading.in_range(),
{
}

/// Encoding a reading within bounds and decoding the payload gives the reading back.
pub proof fn lemma_encode_decode_roundtrip(reading: DecodedReading)
    requires
        reading.in_range(),
    ensures
        reading.encoded().len() == MIN_PAYLOAD_LEN,
        decoded(reading.encoded()) == Some(reading),
{
}

/// A reading depends on the eight field bytes alone: payloads that can be decoded
/// and agree in those bytes decode alike, whatever their other bytes and lengths.
pub proof fn lemma_decoded_reads_field_bytes(a: Seq<u8>, b: Seq<u8>)
    requires
        decodable(a),
        decodable(b),
        forall|i: int| 1 <= i <= 6 ==> a[i] == b[i],
        a[13] == b[13],
        a[14] == b[14],
    ensures
        decoded(a) == decoded(b),
{
}

} // verus!
