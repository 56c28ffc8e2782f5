use vstd::prelude::*;

verus! {

/// Default 7-bit bus address of the chip.
pub const AS7331_I2CADDR_DEFAULT: u8 = 0x74;

// Configuration-state registers.
/// Operating-state register.
pub const AS7331_OSR: u8 = 0x00;
/// API generation register, which holds the chip identifier.
pub const AS7331_AGEN: u8 = 0x02;
/// Gain and integration time.
pub const AS7331_CREG1: u8 = 0x06;
pub const AS7331_CREG2: u8 = 0x07;
/// Measurement mode, sync break and conversion clock.
pub const AS7331_CREG3: u8 = 0x08;
/// Break time between measurements.
pub const AS7331_BREAK: u8 = 0x09;
pub const AS7331_EDGES: u8 = 0x0a;
pub const AS7331_OPTREG: u8 = 0x0b;

// Measurement-state registers.
pub const AS7331_STATUS: u8 = 0x00;
pub const AS7331_TEMP: u8 = 0x01;
pub const AS7331_MRES1: u8 = 0x02;
pub const AS7331_MRES2: u8 = 0x03;
pub const AS7331_MRES3: u8 = 0x04;
pub const AS7331_OUTCONV_L: u8 = 0x05;
pub const AS7331_OUTCONV_H: u8 = 0x06;

pub const AS7331_CREG1_GAIN_2048: u8 = 0x0;
pub const AS7331_CREG1_GAIN_1024: u8 = 0x1;
pub const AS7331_CREG1_GAIN_512: u8 = 0x2;
pub const AS7331_CREG1_GAIN_256: u8 = 0x3;
pub const AS7331_CREG1_GAIN_128: u8 = 0x4;
pub const AS7331_CREG1_GAIN_64: u8 = 0x5;
pub const AS7331_CREG1_GAIN_32: u8 = 0x6;
pub const AS7331_CREG1_GAIN_16: u8 = 0x7;
pub const AS7331_CREG1_GAIN_8: u8 = 0x8;
pub const AS7331_CREG1_GAIN_4: u8 = 0x9;
pub const AS7331_CREG1_GAIN_2: u8 = 0xa;
pub const AS7331_CREG1_GAIN_1: u8 = 0xb;

pub const AS7331_CREG1_TIME_1: u8 = 0;
pub const AS7331_CREG1_TIME_2: u8 = 1;
pub const AS7331_CREG1_TIME_4: u8 = 2;
pub const AS7331_CREG1_TIME_8: u8 = 3;
pub const AS7331_CREG1_TIME_16: u8 = 4;
pub const AS7331_CREG1_TIME_32: u8 = 5;
pub const AS7331_CREG1_TIME_64: u8 = 6;
pub const AS7331_CREG1_TIME_128: u8 = 7;
pub const AS7331_CREG1_TIME_256: u8 = 8;
pub const AS7331_CREG1_TIME_512: u8 = 9;
pub const AS7331_CREG1_TIME_1024: u8 = 10;
pub const AS7331_CREG1_TIME_2048: u8 = 11;
pub const AS7331_CREG1_TIME_4096: u8 = 12;
pub const AS7331_CREG1_TIME_8192: u8 = 13;
pub const AS7331_CREG1_TIME_16384: u8 = 14;

pub const AS7331_CREG3_MMODE_CONT: u8 = 0;
pub const AS7331_CREG3_MMODE_CMD: u8 = 1;
pub const AS7331_CREG3_MMODE_SYNS: u8 = 2;
pub const AS7331_CREG3_MMODE_SYND: u8 = 3;

pub const AS7331_CREG3_SB_OFF: u8 = 0;
pub const AS7331_CREG3_SB_ON: u8 = 1;

pub const AS7331_CREG3_RDYOD_PUSHPULL: u8 = 0;
pub const AS7331_CREG3_RDYOD_OPENDRAIN: u8 = 1;

pub const AS7331_CREG3_CCLK_1024: u8 = 0;
pub const AS7331_CREG3_CCLK_2048: u8 = 1;
pub const AS7331_CREG3_CCLK_4096: u8 = 2;
pub const AS7331_CREG3_CCLK_8192: u8 = 3;

pub const AS7331_OSR_SS_NO_MEASUREMENT: u8 = 0;
pub const AS7331_OSR_SS_MEASUREMENT: u8 = 1;

pub const AS7331_OSR_PD_OFF: u8 = 0;
pub const AS7331_OSR_PD_ON: u8 = 1;

pub const AS7331_OSR_SW_RES_OFF: u8 = 0;
pub const AS7331_OSR_SW_RES_ON: u8 = 1;

pub const AS7331_OSR_DOS_NOP: u8 = 0;
pub const AS7331_OSR_DOS_CONFIGURATION: u8 = 2;
pub const AS7331_OSR_DOS_MEASUREMENT: u8 = 3;

/// Value written to the operating-state register to enter measurement state:
/// bits 0, 1 and 7 set, every other bit clear.
pub const AS7331_OSR_ENTER_MEASUREMENT: u8 = 0x83;

} // verus!
