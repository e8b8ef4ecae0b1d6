//! Register codecs for the DS3231 real-time clock.
//!
//! The clock keeps time in binary-coded-decimal registers: seconds, minutes
//! and hours at one address, day, month and year at another, with the
//! century carried in the month register's top bit and a 12-hour mode
//! signalled in the hour register.  This module holds the pure codec
//! between those registers and plain dates and times, and the driver's
//! error type; the I2C transfers that move the registers are performed by
//! the surrounding program.

use vstd::prelude::*;

use vstd::arithmetic::div_mod::lemma_fundamental_div_mod;
use vstd::arithmetic::div_mod::lemma_fundamental_div_mod_converse_div;
use vstd::arithmetic::div_mod::lemma_fundamental_div_mod_converse_mod;

use crate::twim;

verus! {

/// Hour-register bit selecting 12-hour (AM/PM) mode.
pub const HOUR12: u8 = 0x40;

/// Hour-register bit carrying the PM half in 12-hour mode.
pub const PM: u8 = 0x20;

/// Month-register bit carrying the century (2100..=2199).
pub const CENTURY: u8 = 0x80;

/// Driver error.
#[derive(Clone, Copy, Debug, PartialEq, Eq, Structural)]
pub enum Error {
    /// The clock cannot hold this date.
    InvalidDate,
    /// I2C error.
    Twim(twim::Error),
}

impl From<twim::Error> for Error {
    fn from(e: twim::Error) -> (r: Error) {
        Error::Twim(e)
    }
}

impl vstd::std_specs::convert::FromSpecImpl<twim::Error> for Error {
    open spec fn obeys_from_spec() -> bool {
        true
    }

    open spec fn from_spec(e: twim::Error) -> Error {
        Error::Twim(e)
    }
}

/// A time of day.
#[derive(Clone, Copy, Debug, PartialEq, Eq, Structural)]
pub struct Time {
    /// Hour, `0..24`.
    pub hour: u8,
    /// Minute, `0..60`.
    pub minute: u8,
    /// Second, `0..60`.
    pub second: u8,
}

/// A calendar date.
#[derive(Clone, Copy, Debug, PartialEq, Eq, Structural)]
pub struct Date {
    /// Year of the common era.
    pub year: i32,
    /// Month, `1..=12`.
    pub month: u8,
    /// Day of the month, `1..=31`.
    pub day: u8,
}

/// The number a binary-coded-decimal byte denotes.
pub open spec fn from_bcd_spec(b: int) -> int {
    10 * (b / 16) + b % 16
}

/// The binary-coded-decimal byte denoting `x` (for `x` below 100).
pub open spec fn to_bcd_spec(x: int) -> int {
    16 * (x / 10) + x % 10
}

/// Decodes a binary-coded-decimal byte.
pub fn from_bcd(bcd: u8) -> (r: u8)
    ensures
        r == from_bcd_spec(bcd as int),
{
    let units = bcd & 0b1111;
    let tens = bcd >> 4;
    proof {
        assert(bcd & 0b1111 == bcd % 16) by (bit_vector);
        assert(bcd >> 4 == bcd / 16) by (bit_vector);
        assert(bcd / 16 <= 15) by (bit_vector);
    }
    10 * tens + units
}

/// Encodes a number below 100 as binary-coded decimal.
pub fn to_bcd(x: u8) -> (r: u8)
    requires
        x < 100,
    ensures
        r == to_bcd_spec(x as int),
{
    let units = x % 10;
    let tens = x / 10;
    proof {
        assert(x / 10 <= 9 && x % 10 <= 9) by (bit_vector)
            requires
                x < 100,
        ;
        let t = x / 10;
        let u = x % 10;
        assert(t << 4 == t * 16 && (t << 4) | u == (t << 4) + u) by (bit_vector)
            requires
                t <= 9,
                u <= 9,
        ;
    }
    tens << 4 | units
}

/// Law (codec round trip): decoding the encoding of any number below 100
/// gives the number back.
pub proof fn lemma_bcd_roundtrip(x: int)
    requires
        0 <= x < 100,
    ensures
        from_bcd_spec(to_bcd_spec(x)) == x,
{
    lemma_fundamental_div_mod(x, 10);
    let t = x / 10;
    let u = x % 10;
    lemma_fundamental_div_mod_converse_div(16 * t + u, 16, t, u);
    lemma_fundamental_div_mod_converse_mod(16 * t + u, 16, t, u);
}

/// A well-formed time of day.
pub open spec fn valid_time(t: Time) -> bool {
    t.hour < 24 && t.minute < 60 && t.second < 60
}

/// A leap year of the Gregorian calendar.
pub open spec fn is_leap_year(y: int) -> bool {
    (y % 4 == 0 && y % 100 != 0) || y % 400 == 0
}

/// Days in month `m` of year `y` (for `m` in `1..=12`).
pub open spec fn days_in_month_spec(y: int, m: int) -> int {
    if m == 2 {
        if is_leap_year(y) {
            29
        } else {
            28
        }
    } else if m == 4 || m == 6 || m == 9 || m == 11 {
        30
    } else {
        31
    }
}

/// A date the Gregorian calendar has.
pub open spec fn valid_date(d: Date) -> bool {
    &&& 1 <= d.month <= 12
    &&& 1 <= d.day <= days_in_month_spec(d.year as int, d.month as int)
}

/// Whether year `y` is a leap year.
pub fn is_leap(y: i32) -> (r: bool)
    requires
        y >= 0,
    ensures
        r == is_leap_year(y as int),
{
    (y % 4 == 0 && y % 100 != 0) || y % 400 == 0
}

/// Days in month `m` of year `y`.
pub fn days_in_month(y: i32, m: u8) -> (r: u8)
    requires
        y >= 0,
        1 <= m <= 12,
    ensures
        r == days_in_month_spec(y as int, m as int),
{
    if m == 2 {
        if is_leap(y) {
            29
        } else {
            28
        }
    } else if m == 4 || m == 6 || m == 9 || m == 11 {
        30
    } else {
        31
    }
}

/// The hour denoted by the hour register, honouring 12-hour mode.
pub open spec fn hour_from_reg(r2: u8) -> int {
    if r2 & HOUR12 != 0 {
        if r2 & PM != 0 {
            from_bcd_spec((r2 & !PM) as int + 12)
        } else {
            from_bcd_spec(r2 as int)
        }
    } else {
        from_bcd_spec(r2 as int)
    }
}

/// The time denoted by the three time registers (seconds, minutes, hours).
pub open spec fn time_from_regs_spec(r0: u8, r1: u8, r2: u8) -> Time {
    Time {
        hour: hour_from_reg(r2) as u8,
        minute: from_bcd_spec(r1 as int) as u8,
        second: from_bcd_spec(r0 as int) as u8,
    }
}

/// Decodes the three time registers read from the clock.  The registers
/// must denote a time of day; the clock, once set, only produces such
/// registers.
pub fn time_from_regs(regs: &[u8]) -> (t: Time)
    requires
        regs@.len() >= 3,
        valid_time(time_from_regs_spec(regs@[0], regs@[1], regs@[2])),
    ensures
        t == time_from_regs_spec(regs@[0], regs@[1], regs@[2]),
{
    let sec = from_bcd(regs[0]);
    let min = from_bcd(regs[1]);
    let r2 = regs[2];
    let hour = if r2 & HOUR12 != 0 {
        if r2 & PM != 0 {
            proof {
                assert(r2 & !0x20u8 <= 0xdf) by (bit_vector);
            }
            from_bcd(12 + (r2 & !PM))
        } else {
            from_bcd(r2)
        }
    } else {
        from_bcd(r2)
    };
    Time { hour, minute: min, second: sec }
}

/// The date denoted by the three date registers (day, month, year), with
/// the century bit of the month register.
pub open spec fn date_from_regs_spec(r0: u8, r1: u8, r2: u8) -> Date {
    Date {
        year: (from_bcd_spec(r2 as int) + if r1 & CENTURY != 0 {
            2100int
        } else {
            2000int
        }) as i32,
        month: from_bcd_spec((r1 & !CENTURY) as int) as u8,
        day: from_bcd_spec(r0 as int) as u8,
    }
}

/// Decodes the three date registers read from the clock.  Registers that do
/// not denote a calendar date are rejected with [`Error::InvalidDate`].
pub fn date_from_regs(regs: &[u8]) -> (r: Result<Date, Error>)
    requires
        regs@.len() >= 3,
    ensures
        ({
            let d = date_from_regs_spec(regs@[0], regs@[1], regs@[2]);
            if valid_date(d) {
                r == Ok::<Date, Error>(d)
            } else {
                r == Err::<Date, Error>(Error::InvalidDate)
            }
        }),
{
    let r1 = regs[1];
    let day = from_bcd(regs[0]);
    let month = from_bcd(r1 & !CENTURY);
    let year: i32 = from_bcd(regs[2]) as i32 + if r1 & CENTURY != 0 {
        2100
    } else {
        2000
    };
    let d = Date { year, month, day };
    if 1 <= month && month <= 12 && 1 <= day && day <= days_in_month(year, month) {
        Ok(d)
    } else {
        Err(Error::InvalidDate)
    }
}

/// Encodes a date for the clock's three date registers.  Years outside
/// `2000..=2199` cannot be held and are rejected with
/// [`Error::InvalidDate`].
pub fn date_to_regs(d: Date) -> (r: Result<(u8, u8, u8), Error>)
    requires
        valid_date(d),
    ensures
        if d.year < 2000 || d.year > 2199 {
            r == Err::<(u8, u8, u8), Error>(Error::InvalidDate)
        } else {
            ({
                let century = d.year >= 2100;
                let base = if century {
                    2100int
                } else {
                    2000int
                };
                r == Ok::<(u8, u8, u8), Error>(
                    (
                        to_bcd_spec(d.day as int) as u8,
                        (to_bcd_spec(d.month as int) + if century {
                            128int
                        } else {
                            0int
                        }) as u8,
                        to_bcd_spec(d.year as int - base) as u8,
                    ),
                )
            })
        },
{
    let day = to_bcd(d.day);
    let mut month = to_bcd(d.month);
    let mut year = d.year;
    if year < 2000 || year > 2199 {
        return Err(Error::InvalidDate);
    }
    year = year - 2000;
    if year >= 100 {
        proof {
            let m = month;
            assert(m | 0x80u8 == m + 0x80) by (bit_vector)
                requires
                    m < 0x80,
            ;
        }
        month = month | CENTURY;
        year = year - 100;
    }
    let year = to_bcd(year as u8);
    Ok((day, month, year))
}

/// Encodes a time of day for the clock's three time registers.
pub fn time_to_regs(t: Time) -> (r: (u8, u8, u8))
    requires
        valid_time(t),
    ensures
        r.0 == to_bcd_spec(t.second as int),
        r.1 == to_bcd_spec(t.minute as int),
        r.2 == to_bcd_spec(t.hour as int),
{
    (to_bcd(t.second), to_bcd(t.minute), to_bcd(t.hour))
}

} // verus!
