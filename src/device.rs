use vstd::prelude::*;
use crate::codec::gain_time_value;
use crate::exchange::{is_start, Command, Exchange, Transfer};
use crate::registers::{
    AS7331_AGEN, AS7331_CREG1, AS7331_MRES1, AS7331_MRES2,
    AS7331_MRES3, AS7331_OSR, AS7331_STATUS, AS7331_TEMP,
};
use crate::state::StateEdit;

verus! {

/// The device handle: the bus handle it owns exclusively, and the chip's 7-bit address.
///
/// Each operation returns an [`Exchange`] and its first [`Transfer`]; the caller runs the
/// transfers on `i2c` and feeds the outcomes back with [`Exchange::advance`].
pub struct As7331<B> {
    pub i2c: B,
    pub addr: u8,
}

impl<B> As7331<B> {
    /// Takes ownership of the bus handle for the chip at `addr`.
    pub fn new(i2c: B, addr: u8) -> (r: Self)
        ensures
            r.i2c == i2c,
            r.addr == addr,
    {
        As7331 { i2c, addr }
    }

    /// Gives the bus handle back.
    pub fn destroy(self) -> (r: B)
        ensures
            r == self.i2c,
    {
        self.i2c
    }

    /// Writes the configuration: the gain/time register (`gain << 4 | time`), then the mode
    /// register (`mmode << 6 | sb << 4 | cclk`), then the break-time register. The device is
    /// expected to be in configuration state; that is not checked.
    pub fn init(&self, mmode: u8, cclk: u8, sb: u8, break_time: u8, gain: u8, time: u8) -> (r: (
        Exchange,
        Transfer,
    ))
        ensures
            is_start(r.0@, self.addr, Command::Init { mmode, cclk, sb, break_time, gain, time }),
            r.1 == (Transfer::Write { addr: self.addr, reg: AS7331_CREG1, value: gain_time_value(gain, time) }),
    {
        Exchange::new(self.addr, Command::Init { mmode, cclk, sb, break_time, gain, time })
    }

    /// Reads the chip identifier register (one byte). The value is not checked.
    pub fn get_chip_id(&self) -> (r: (Exchange, Transfer))
        ensures
            is_start(r.0@, self.addr, Command::ChipId),
            r.1 == (Transfer::WriteRead { addr: self.addr, reg: AS7331_AGEN, len: 1 }),
    {
        Exchange::new(self.addr, Command::ChipId)
    }

    /// Starts one measurement: reads the operating-state register, then writes it back with the start bit (bit 7) set.
    pub fn one_shot(&self) -> (r: (Exchange, Transfer))
        ensures
            is_start(r.0@, self.addr, Command::Edit(StateEdit::StartMeasurement)),
            r.1 == (Transfer::WriteRead { addr: self.addr, reg: AS7331_OSR, len: 1 }),
    {
        Exchange::new(self.addr, Command::Edit(StateEdit::StartMeasurement))
    }

    /// Reads the two bytes from the status address and decodes the second into eight flags.
    pub fn get_status(&self) -> (r: (Exchange, Transfer))
        ensures
            is_start(r.0@, self.addr, Command::Status),
            r.1 == (Transfer::WriteRead { addr: self.addr, reg: AS7331_STATUS, len: 2 }),
    {
        Exchange::new(self.addr, Command::Status)
    }

    /// Reads the 16-bit temperature result.
    pub fn read_temp_data(&self) -> (r: (Exchange, Transfer))
        ensures
            is_start(r.0@, self.addr, Command::Temperature),
            r.1 == (Transfer::WriteRead { addr: self.addr, reg: AS7331_TEMP, len: 2 }),
    {
        Exchange::new(self.addr, Command::Temperature)
    }

    /// Reads the 16-bit UV-A result.
    pub fn read_uv_a_data(&self) -> (r: (Exchange, Transfer))
        ensures
            is_start(r.0@, self.addr, Command::UvA),
            r.1 == (Transfer::WriteRead { addr: self.addr, reg: AS7331_MRES1, len: 2 }),
    {
        Exchange::new(self.addr, Command::UvA)
    }

    /// Reads the 16-bit UV-B result.
    pub fn read_uv_b_data(&self) -> (r: (Exchange, Transfer))
        ensures
            is_start(r.0@, self.addr, Command::UvB),
            r.1 == (Transfer::WriteRead { addr: self.addr, reg: AS7331_MRES2, len: 2 }),
    {
        Exchange::new(self.addr, Command::UvB)
    }

    /// Reads the 16-bit UV-C result.
    pub fn read_uv_c_data(&self) -> (r: (Exchange, Transfer))
        ensures
            is_start(r.0@, self.addr, Command::UvC),
            r.1 == (Transfer::WriteRead { addr: self.addr, reg: AS7331_MRES3, len: 2 }),
    {
        Exchange::new(self.addr, Command::UvC)
    }

    /// Reads temperature, UV-A, UV-B and UV-C in one eight-byte burst.
    pub fn read_all_data(&self) -> (r: (Exchange, Transfer))
        ensures
            is_start(r.0@, self.addr, Command::AllData),
            r.1 == (Transfer::WriteRead { addr: self.addr, reg: AS7331_TEMP, len: 8 }),
    {
        Exchange::new(self.addr, Command::AllData)
    }

    /// Sets the power bit (bit 6) of the operating-state register by read-modify-write.
    pub fn power_up(&self) -> (r: (Exchange, Transfer))
        ensures
            is_start(r.0@, self.addr, Command::Edit(StateEdit::PowerUp)),
            r.1 == (Transfer::WriteRead { addr: self.addr, reg: AS7331_OSR, len: 1 }),
    {
        Exchange::new(self.addr, Command::Edit(StateEdit::PowerUp))
    }

    /// Clears the power bit (bit 6) of the operating-state register by read-modify-write.
    pub fn power_down(&self) -> (r: (Exchange, Transfer))
        ensures
            is_start(r.0@, self.addr, Command::Edit(StateEdit::PowerDown)),
            r.1 == (Transfer::WriteRead { addr: self.addr, reg: AS7331_OSR, len: 1 }),
    {
        Exchange::new(self.addr, Command::Edit(StateEdit::PowerDown))
    }

    /// Sets the software-reset bit (bit 3) by read-modify-write. The caller waits for the chip to settle.
    pub fn reset(&self) -> (r: (Exchange, Transfer))
        ensures
            is_start(r.0@, self.addr, Command::Edit(StateEdit::SoftwareReset)),
            r.1 == (Transfer::WriteRead { addr: self.addr, reg: AS7331_OSR, len: 1 }),
    {
        Exchange::new(self.addr, Command::Edit(StateEdit::SoftwareReset))
    }

    /// Sets the enter-configuration-state bit (bit 1) by read-modify-write.
    pub fn set_configuration_mode(&self) -> (r: (Exchange, Transfer))
        ensures
            is_start(r.0@, self.addr, Command::Edit(StateEdit::ConfigurationState)),
            r.1 == (Transfer::WriteRead { addr: self.addr, reg: AS7331_OSR, len: 1 }),
    {
        Exchange::new(self.addr, Command::Edit(StateEdit::ConfigurationState))
    }

    /// Reads the operating-state register (two bytes, the first used) and decodes device state, start flag, power flag and reset flag.
    pub fn get_mode(&self) -> (r: (Exchange, Transfer))
        ensures
            is_start(r.0@, self.addr, Command::Mode),
            r.1 == (Transfer::WriteRead { addr: self.addr, reg: AS7331_OSR, len: 2 }),
    {
        Exchange::new(self.addr, Command::Mode)
    }

    /// Enters measurement state with a single write of `0x83` to the operating-state register.
    /// Unlike the other state changes this does not read first: every other bit of the
    /// register is cleared. This is the chip's established behaviour and is kept as such.
    pub fn set_measurement_mode(&self) -> (r: (Exchange, Transfer))
        ensures
            is_start(r.0@, self.addr, Command::MeasurementMode),
            r.1 == (Transfer::Write { addr: self.addr, reg: AS7331_OSR, value: 0x83 }),
    {
        Exchange::new(self.addr, Command::MeasurementMode)
    }
}

} // verus!
