//! Unit tests of the driver codecs and singleton accounting.

use async_embedded::ds3231::{
    date_from_regs, date_to_regs, from_bcd, time_from_regs, time_to_regs, to_bcd, Date, Time,
};
use async_embedded::scd30::{crc_check, parse_data_ready, parse_measurement, RawMeasurement};
use async_embedded::ds3231;
use async_embedded::scd30;
use async_embedded::serial;
use async_embedded::timer::{ticks_for, Timer};
use async_embedded::twim::{Error as TwimError, Twim};
use async_embedded::{slice_in_ram, RAM_START};

#[test]
fn bcd_codec() {
    assert_eq!(from_bcd(0x59), 59);
    assert_eq!(from_bcd(0x00), 0);
    assert_eq!(to_bcd(59), 0x59);
    assert_eq!(to_bcd(7), 0x07);
    // Round trip over the whole encodable range.
    for x in 0..100u8 {
        assert_eq!(from_bcd(to_bcd(x)), x);
    }
}

#[test]
fn time_codec() {
    let t = time_from_regs(&[0x30, 0x59, 0x23]);
    assert_eq!(t, Time { hour: 23, minute: 59, second: 30 });
    assert_eq!(time_to_regs(t), (0x30, 0x59, 0x23));
}

#[test]
fn date_codec_leap_years() {
    // 2020 is a leap year: February 29 exists...
    let d = date_from_regs(&[0x29, 0x02, 0x20]).unwrap();
    assert_eq!(d, Date { year: 2020, month: 2, day: 29 });
    // ...2021 is not...
    assert_eq!(
        date_from_regs(&[0x29, 0x02, 0x21]),
        Err(ds3231::Error::InvalidDate)
    );
    // ...and neither is 2100, the century bit notwithstanding.
    assert_eq!(
        date_from_regs(&[0x29, 0x82, 0x00]),
        Err(ds3231::Error::InvalidDate)
    );
    let d2 = date_from_regs(&[0x01, 0x82, 0x00]).unwrap();
    assert_eq!(d2, Date { year: 2100, month: 2, day: 1 });
}

#[test]
fn date_encoding() {
    assert_eq!(
        date_to_regs(Date { year: 2020, month: 2, day: 29 }),
        Ok((0x29, 0x02, 0x20))
    );
    // Years of the second century carry the century bit.
    assert_eq!(
        date_to_regs(Date { year: 2100, month: 2, day: 1 }),
        Ok((0x01, 0x82, 0x00))
    );
    assert_eq!(
        date_to_regs(Date { year: 2199, month: 12, day: 31 }),
        Ok((0x31, 0x92, 0x99))
    );
    // The clock cannot hold years outside 2000..=2199.
    assert_eq!(
        date_to_regs(Date { year: 1999, month: 1, day: 1 }),
        Err(ds3231::Error::InvalidDate)
    );
    assert_eq!(
        date_to_regs(Date { year: 2200, month: 1, day: 1 }),
        Err(ds3231::Error::InvalidDate)
    );
}

#[test]
fn error_from_twim() {
    assert_eq!(
        ds3231::Error::from(TwimError::Src(3)),
        ds3231::Error::Twim(TwimError::Src(3))
    );
    assert_eq!(
        scd30::Error::from(TwimError::ShortRead(2)),
        scd30::Error::Twim(TwimError::ShortRead(2))
    );
}

#[test]
fn measurement_frame() {
    // 1.0f32 is 0x3f80_0000: big-endian data bytes 3f 80 / 00 00 per chunk.
    let buf: [u8; 18] = [
        0x3f, 0x80, 0xaa, 0x00, 0x00, 0xbb, // carbon dioxide: 1.0
        0x41, 0xc8, 0xcc, 0x00, 0x00, 0xdd, // temperature: 25.0
        0x42, 0x20, 0xee, 0x00, 0x00, 0xff, // relative humidity: 40.0
    ];
    assert_eq!(
        parse_measurement(&buf),
        Ok(RawMeasurement {
            co2_bits: 0x3f80_0000,
            t_bits: 0x41c8_0000,
            rh_bits: 0x4220_0000,
        })
    );
    assert!(crc_check(&buf[..2], 0xaa));
}

#[test]
fn data_ready_frame() {
    assert_eq!(parse_data_ready(&[0x00, 0x01, 0xb0]), Ok(true));
    assert_eq!(parse_data_ready(&[0x00, 0x00, 0x81]), Ok(false));
}

#[test]
fn ram_bounds() {
    assert!(slice_in_ram(RAM_START, 100));
    assert!(slice_in_ram(0x2001_0000, 0x2000));
    // Below the region, and running past its end.
    assert!(!slice_in_ram(0x1000_0000, 4));
    assert!(!slice_in_ram(0x2001_fff0, 0x10));
}

#[test]
fn timer_ticks() {
    assert_eq!(ticks_for(1, 0), 32768);
    assert_eq!(ticks_for(0, 500_000_000), 16384);
    // The longest waitable duration fills the 24-bit counter exactly.
    assert_eq!(ticks_for(511, 999_999_999), 0x00ff_ffff);
}

#[test]
fn singletons_take_once() {
    let mut twim_taken = false;
    let _twim: Twim = Twim::take(&mut twim_taken);
    assert!(twim_taken);
    let mut timer_taken = false;
    let _timer: Timer = Timer::take(&mut timer_taken);
    assert!(timer_taken);
    let mut serial_taken = false;
    let (_tx, _rx) = serial::take(&mut serial_taken);
    assert!(serial_taken);
}
