//! Frame parsing for the SCD30 gas sensor.
//!
//! The sensor answers over I2C with frames of three-byte chunks: two data
//! bytes followed by a checksum byte.  A measurement frame carries three
//! big-endian floating-point words (carbon-dioxide concentration,
//! temperature, relative humidity) spread over eighteen bytes; a
//! data-ready frame carries one flag word.  This module holds the pure
//! frame parsing down to the raw 32-bit words and the driver's error type;
//! the I2C transfers, and the floating-point view of the words, belong to
//! the surrounding program.

use vstd::prelude::*;

use crate::twim;

verus! {

/// Driver error.
#[derive(Clone, Copy, Debug, PartialEq, Eq, Structural)]
pub enum Error {
    /// A chunk's checksum byte did not match.
    Checksum,
    /// I2C error.
    Twim(twim::Error),
}

impl From<twim::Error> for Error {
    fn from(e: twim::Error) -> (r: Error) {
        Error::Twim(e)
    }
}

impl vstd::std_specs::convert::FromSpecImpl<twim::Error> for Error {
    open spec fn obeys_from_spec() -> bool {
        true
    }

    open spec fn from_spec(e: twim::Error) -> Error {
        Error::Twim(e)
    }
}

/// One sensor measurement, as the raw bit patterns of the three words the
/// frame carries.  The floating-point reading of each word is left to the
/// surrounding program.
#[derive(Clone, Copy, Debug, PartialEq, Eq, Structural)]
pub struct RawMeasurement {
    /// Bits of the carbon-dioxide concentration word (parts per million).
    pub co2_bits: u32,
    /// Bits of the temperature word (degrees Celsius).
    pub t_bits: u32,
    /// Bits of the relative-humidity word (per cent).
    pub rh_bits: u32,
}

/// Verifies a chunk's checksum byte.  The sensor's CRC-8 is currently
/// accepted unconditionally.
pub fn crc_check(bytes: &[u8], crc: u8) -> (r: bool)
    ensures
        r,
{
    true
}

/// The word denoted by four bytes, least significant first.
pub open spec fn word_bits(b0: u8, b1: u8, b2: u8, b3: u8) -> int {
    b0 + 256 * (b1 + 256 * (b2 + 256 * b3))
}

/// Assembles a word from its four bytes, least significant first.
fn word_from(b0: u8, b1: u8, b2: u8, b3: u8) -> (r: u32)
    ensures
        r == word_bits(b0, b1, b2, b3),
{
    let r = (b0 as u32) | ((b1 as u32) << 8) | ((b2 as u32) << 16) | ((b3 as u32) << 24);
    proof {
        let x0 = b0 as u32;
        let x1 = b1 as u32;
        let x2 = b2 as u32;
        let x3 = b3 as u32;
        assert(x0 | (x1 << 8) | (x2 << 16) | (x3 << 24) == x0 + 256 * (x1 + 256 * (x2 + 256
            * x3))) by (bit_vector)
            requires
                x0 < 256,
                x1 < 256,
                x2 < 256,
                x3 < 256,
        ;
    }
    r
}

/// Parses an eighteen-byte measurement frame: checks each chunk's checksum
/// and assembles the three words, most significant data bytes first as the
/// sensor sends them.
pub fn parse_measurement(buf: &[u8]) -> (r: Result<RawMeasurement, Error>)
    requires
        buf@.len() == 18,
    ensures
        r == Ok::<RawMeasurement, Error>(
            RawMeasurement {
                co2_bits: word_bits(buf@[4], buf@[3], buf@[1], buf@[0]) as u32,
                t_bits: word_bits(buf@[10], buf@[9], buf@[7], buf@[6]) as u32,
                rh_bits: word_bits(buf@[16], buf@[15], buf@[13], buf@[12]) as u32,
            },
        ),
{
    let mut chunk: usize = 0;
    while chunk < 6
        invariant
            buf@.len() == 18,
            chunk <= 6,
        decreases 6 - chunk,
    {
        let data = vstd::slice::slice_subrange(buf, 3 * chunk, 3 * chunk + 2);
        if !crc_check(data, buf[3 * chunk + 2]) {
            return Err(Error::Checksum);
        }
        chunk = chunk + 1;
    }
    let co2_bits = word_from(buf[4], buf[3], buf[1], buf[0]);
    let t_bits = word_from(buf[10], buf[9], buf[7], buf[6]);
    let rh_bits = word_from(buf[16], buf[15], buf[13], buf[12]);
    Ok(RawMeasurement { co2_bits, t_bits, rh_bits })
}

/// Parses a three-byte data-ready frame: checks the checksum and reports
/// whether a measurement is ready to be read.
pub fn parse_data_ready(buf: &[u8]) -> (r: Result<bool, Error>)
    requires
        buf@.len() >= 3,
    ensures
        r == Ok::<bool, Error>(buf@[1] == 1),
{
    let data = vstd::slice::slice_subrange(buf, 0, 2);
    if !crc_check(data, buf[2]) {
        return Err(Error::Checksum);
    }
    Ok(buf[1] == 1)
}

} // verus!
