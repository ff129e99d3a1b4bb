//! Registers of the environmental sensor.
use crate::types::{copy_bytes, ReadRegister, Register, WriteRegister};
use vstd::prelude::*;

verus! {

/// Bus address of the environmental sensor.
pub const ENV_ADDR: u8 = 0x76;

/// The identity that an environmental sensor reports.
pub const ENV_CHIP_ID: u8 = 0x61;

/// Register addresses of the environmental sensor.
#[allow(non_camel_case_types)]
#[derive(Clone, Copy, Debug, PartialEq, Eq, Structural)]
pub enum BME680 {
    ID,
    CONFIG,
    CTRL_MEAS,
    CTRL_HUM,
    CTRL_GAS1,
    CTRL_GAS0,
    TEMPERATURE,
    PRESSURE,
    HUMIDITY,
    COEFFS,
}

impl BME680 {
    /// The address that the name stands for.
    pub open spec fn address(self) -> u8 {
        match self {
            BME680::ID => 0xd0,
            BME680::CONFIG => 0x75,
            BME680::CTRL_MEAS => 0x74,
            BME680::CTRL_HUM => 0x72,
            BME680::CTRL_GAS1 => 0x71,
            BME680::CTRL_GAS0 => 0x70,
            BME680::TEMPERATURE => 0x22,
            BME680::PRESSURE => 0x1f,
            BME680::HUMIDITY => 0x25,
            BME680::COEFFS => 0x8a,
        }
    }

    pub fn into(self) -> (address: u8)
        ensures
            address == self.address(),
    {
        match self {
            BME680::ID => 0xd0,
            BME680::CONFIG => 0x75,
            BME680::CTRL_MEAS => 0x74,
            BME680::CTRL_HUM => 0x72,
            BME680::CTRL_GAS1 => 0x71,
            BME680::CTRL_GAS0 => 0x70,
            BME680::TEMPERATURE => 0x22,
            BME680::PRESSURE => 0x1f,
            BME680::HUMIDITY => 0x25,
            BME680::COEFFS => 0x8a,
        }
    }
}

/// How many samples the sensor averages for one reading.
#[derive(Clone, Copy, Debug, PartialEq, Eq, Structural)]
pub enum Oversample {
    /// The measurement is left out.
    Skipped,
    OS1,
    OS2,
    OS4,
    OS8,
    OS16,
}

impl Oversample {
    /// The three bits that select the setting.
    pub open spec fn bits(self) -> u8 {
        match self {
            Oversample::Skipped => 0,
            Oversample::OS1 => 1,
            Oversample::OS2 => 2,
            Oversample::OS4 => 3,
            Oversample::OS8 => 4,
            Oversample::OS16 => 5,
        }
    }

    pub fn to_bits(self) -> (bits: u8)
        ensures
            bits == self.bits(),
    {
        match self {
            Oversample::Skipped => 0,
            Oversample::OS1 => 1,
            Oversample::OS2 => 2,
            Oversample::OS4 => 3,
            Oversample::OS8 => 4,
            Oversample::OS16 => 5,
        }
    }
}

/// Coefficient of the sensor's low-pass filter.
#[derive(Clone, Copy, Debug, PartialEq, Eq, Structural)]
pub enum Filter {
    /// No filtering.
    Off,
    F1,
    F3,
    F7,
    F15,
    F31,
    F63,
    F127,
}

impl Filter {
    /// The three bits that select the coefficient.
    pub open spec fn bits(self) -> u8 {
        match self {
            Filter::Off => 0,
            Filter::F1 => 1,
            Filter::F3 => 2,
            Filter::F7 => 3,
            Filter::F15 => 4,
            Filter::F31 => 5,
            Filter::F63 => 6,
            Filter::F127 => 7,
        }
    }

    pub fn to_bits(self) -> (bits: u8)
        ensures
            bits == self.bits(),
    {
        match self {
            Filter::Off => 0,
            Filter::F1 => 1,
            Filter::F3 => 2,
            Filter::F7 => 3,
            Filter::F15 => 4,
            Filter::F31 => 5,
            Filter::F63 => 6,
            Filter::F127 => 7,
        }
    }
}

/// Calibration registers of the environmental sensor.
pub struct Coeffs {
    pub data: [u8; 23],
}

impl Default for Coeffs {
    fn default() -> (reg: Self)
        ensures
            reg.raw_data() == Seq::new(23, |i: int| 0u8),
    {
        let reg = Self { data: [0;23] };
        assert(reg.data@ =~= Seq::new(23, |i: int| 0u8));
        reg
    }
}

impl Register for Coeffs {
    const DEVICE: u8 = 0x76;

    const REGISTER: u8 = 0x8a;

    const SIZE: u8 = 23;

    open spec fn raw_data(&self) -> Seq<u8> {
        self.data@
    }
}

impl ReadRegister for Coeffs {
    open spec fn loaded(data: Seq<u8>) -> Seq<u8> {
        data
    }

    fn set_raw_data(&mut self, data: &[u8]) {
        copy_bytes(&mut self.data, data);
    }
}

/// Identity register of the environmental sensor.
pub struct Id {
    data: u8,
}

impl Default for Id {
    fn default() -> (reg: Self)
        ensures
            reg.raw_data() == seq![0u8],
    {
        Self { data: 0 }
    }
}

impl Register for Id {
    const DEVICE: u8 = 0x76;

    const REGISTER: u8 = 0xd0;

    const SIZE: u8 = 1;

    closed spec fn raw_data(&self) -> Seq<u8> {
        seq![self.data]
    }
}

impl ReadRegister for Id {
    open spec fn loaded(data: Seq<u8>) -> Seq<u8> {
        seq![data[0]]
    }

    fn set_raw_data(&mut self, data: &[u8]) {
        self.data = data[0];
    }
}

impl Id {
    /// Whether the byte read is the identity of an environmental sensor.
    pub fn is_id_correct(&self) -> (correct: bool)
        ensures
            correct == (self.raw_data()[0] == ENV_CHIP_ID),
    {
        self.data == 0x61
    }
}

/// Measurement control register: temperature and pressure oversampling, and the mode.
pub struct CtrlMeas {
    data: u8,
}

impl Default for CtrlMeas {
    fn default() -> (reg: Self)
        ensures
            reg.raw_data() == seq![0u8],
    {
        Self { data: 0 }
    }
}

impl Register for CtrlMeas {
    const DEVICE: u8 = 0x76;

    const REGISTER: u8 = 0x74;

    const SIZE: u8 = 1;

    closed spec fn raw_data(&self) -> Seq<u8> {
        seq![self.data]
    }
}

impl ReadRegister for CtrlMeas {
    open spec fn loaded(data: Seq<u8>) -> Seq<u8> {
        seq![data[0]]
    }

    fn set_raw_data(&mut self, data: &[u8]) {
        self.data = data[0];
    }
}

impl WriteRegister for CtrlMeas {
    fn get_raw_data(&self) -> u8 {
        self.data
    }
}

impl CtrlMeas {
    /// Sets the temperature oversampling, bits 5 to 7, and keeps the rest.
    pub fn set_temperature_oversample(&mut self, sampling: Oversample)
        ensures
            final(self).raw_data() == seq![
                ((old(self).raw_data()[0] & 0x1f) + sampling.bits() * 32) as u8,
            ],
            (old(self).raw_data()[0] & 0x1f) + sampling.bits() * 32 <= 191,
    {
        let before: u8 = self.data;
        let kept: u8 = before & 0x1f;
        assert(kept <= 31) by (bit_vector)
            requires
                kept == before & 0x1f,
        ;
        self.data = kept + sampling.to_bits() * 32;
    }

    /// Sets the pressure oversampling, bits 2 to 4, and keeps the rest.
    pub fn set_pressure_oversample(&mut self, sampling: Oversample)
        ensures
            final(self).raw_data() == seq![
                ((old(self).raw_data()[0] & 0xe3) + sampling.bits() * 4) as u8,
            ],
            (old(self).raw_data()[0] & 0xe3) + sampling.bits() * 4 <= 247,
    {
        let before: u8 = self.data;
        let kept: u8 = before & 0xe3;
        assert(kept <= 227) by (bit_vector)
            requires
                kept == before & 0xe3,
        ;
        self.data = kept + sampling.to_bits() * 4;
    }

    /// Clears the mode bits, and sets forced mode where `start` is true,
    /// which makes the sensor take one sample.
    pub fn start_sample(&mut self, start: bool)
        ensures
            final(self).raw_data() == seq![
                ((old(self).raw_data()[0] & 0xfc) + if start { 1int } else { 0int }) as u8,
            ],
            (old(self).raw_data()[0] & 0xfc) <= 252,
    {
        let before: u8 = self.data;
        let kept: u8 = before & 0xfc;
        assert(kept <= 252) by (bit_vector)
            requires
                kept == before & 0xfc,
        ;
        self.data = kept;
        if start {
            self.data = self.data + 1;
        }
    }
}

/// Configuration register: the filter for temperature and pressure.
pub struct Config {
    data: u8,
}

impl Default for Config {
    fn default() -> (reg: Self)
        ensures
            reg.raw_data() == seq![0u8],
    {
        Self { data: 0 }
    }
}

impl Register for Config {
    const DEVICE: u8 = 0x76;

    const REGISTER: u8 = 0x75;

    const SIZE: u8 = 1;

    closed spec fn raw_data(&self) -> Seq<u8> {
        seq![self.data]
    }
}

impl WriteRegister for Config {
    fn get_raw_data(&self) -> u8 {
        self.data
    }
}

impl Config {
    /// Selects the filter, bits 2 to 4, and clears the rest.
    pub fn set_filter(&mut self, filter_num: Filter)
        ensures
            final(self).raw_data() == seq![(filter_num.bits() * 4) as u8],
    {
        self.data = filter_num.to_bits() * 4;
    }
}

/// Humidity control register.
pub struct CtrlHumid {
    data: u8,
}

impl Default for CtrlHumid {
    fn default() -> (reg: Self)
        ensures
            reg.raw_data() == seq![0u8],
    {
        Self { data: 0 }
    }
}

impl Register for CtrlHumid {
    const DEVICE: u8 = 0x76;

    const REGISTER: u8 = 0x72;

    const SIZE: u8 = 1;

    closed spec fn raw_data(&self) -> Seq<u8> {
        seq![self.data]
    }
}

impl ReadRegister for CtrlHumid {
    open spec fn loaded(data: Seq<u8>) -> Seq<u8> {
        seq![data[0]]
    }

    fn set_raw_data(&mut self, data: &[u8]) {
        self.data = data[0];
    }
}

impl WriteRegister for CtrlHumid {
    fn get_raw_data(&self) -> u8 {
        self.data
    }
}

impl CtrlHumid {
    /// Sets the humidity oversampling; the register holds nothing else.
    pub fn set_humidity_oversample(&mut self, sampling: Oversample)
        ensures
            final(self).raw_data() == seq![sampling.bits()],
    {
        self.data = sampling.to_bits();
    }
}

/// First gas control register. The gas sensor is not used, so the register only ever switches its heater off.
pub struct CtrlGas0 {
    data: u8,
}

impl Default for CtrlGas0 {
    fn default() -> (reg: Self)
        ensures
            reg.raw_data() == seq![0u8],
    {
        Self { data: 0 }
    }
}

impl Register for CtrlGas0 {
    const DEVICE: u8 = 0x76;

    const REGISTER: u8 = 0x70;

    const SIZE: u8 = 1;

    closed spec fn raw_data(&self) -> Seq<u8> {
        seq![self.data]
    }
}

impl ReadRegister for CtrlGas0 {
    /// Whatever was read, the register is set to switch the heater off.
    open spec fn loaded(data: Seq<u8>) -> Seq<u8> {
        seq![8u8]
    }

    fn set_raw_data(&mut self, _data: &[u8]) {
        self.data = 8;
    }
}

impl WriteRegister for CtrlGas0 {
    fn get_raw_data(&self) -> u8 {
        self.data
    }
}

/// Temperature registers of the environmental sensor: twenty bits, the
/// highest byte first, the lowest four in the upper half of the third byte.
pub struct Temperature {
    data: [u8; 3],
}

impl Default for Temperature {
    fn default() -> (reg: Self)
        ensures
            reg.raw_data() == Seq::new(3, |i: int| 0u8),
    {
        let reg = Self { data: [0;3] };
        assert(reg.data@ =~= Seq::new(3, |i: int| 0u8));
        reg
    }
}

impl Register for Temperature {
    const DEVICE: u8 = 0x76;

    const REGISTER: u8 = 0x22;

    const SIZE: u8 = 3;

    closed spec fn raw_data(&self) -> Seq<u8> {
        self.data@
    }
}

impl ReadRegister for Temperature {
    open spec fn loaded(data: Seq<u8>) -> Seq<u8> {
        data
    }

    fn set_raw_data(&mut self, data: &[u8]) {
        copy_bytes(&mut self.data, data);
    }
}

impl Temperature {
    /// The raw temperature, a value of twenty bits.
    pub fn get_raw_temperature(&self) -> (raw: u32)
        ensures
            raw == self.raw_data()[0] * 4096 + self.raw_data()[1] * 16 + self.raw_data()[2] / 16,
            raw < 0x10_0000,
    {
        (self.data[0] as u32) * 4096 + (self.data[1] as u32) * 16 + (self.data[2] as u32) / 16
    }
}

/// The bus map: the device, the address and the width of every register
/// of this module.
pub proof fn lemma_register_map()
    ensures
        Coeffs::DEVICE == 0x76,
        Coeffs::REGISTER == 0x8a,
        Coeffs::SIZE == 23,
        Id::DEVICE == 0x76,
        Id::REGISTER == 0xd0,
        Id::SIZE == 1,
        CtrlMeas::DEVICE == 0x76,
        CtrlMeas::REGISTER == 0x74,
        CtrlMeas::SIZE == 1,
        Config::DEVICE == 0x76,
        Config::REGISTER == 0x75,
        Config::SIZE == 1,
        CtrlHumid::DEVICE == 0x76,
        CtrlHumid::REGISTER == 0x72,
        CtrlHumid::SIZE == 1,
        CtrlGas0::DEVICE == 0x76,
        CtrlGas0::REGISTER == 0x70,
        CtrlGas0::SIZE == 1,
        Temperature::DEVICE == 0x76,
        Temperature::REGISTER == 0x22,
        Temperature::SIZE == 3,
{
}

} // verus!
