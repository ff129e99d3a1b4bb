//! Identity, power and control registers of the four sensors of the board.
use crate::types::{ReadRegister, Register, WriteRegister};
use vstd::prelude::*;

verus! {

/// Bus address of the accelerometer.
pub const ACCEL_ADDR: u8 = 0x18;

/// Bus address of the gyroscope.
pub const GYRO_ADDR: u8 = 0x68;

/// Bus address of the magnetometer.
pub const MAG_ADDR: u8 = 0x10;

/// Register addresses of the environmental sensor.
#[allow(non_camel_case_types)]
#[derive(Clone, Copy, Debug, PartialEq, Eq, Structural)]
pub enum BME680 {
    ID,
    CTRL_MEAS,
    CTRL_HUM,
    CTRL_GAS1,
    CTRL_GAS0,
}

impl BME680 {
    /// The address that the name stands for.
    pub open spec fn address(self) -> u8 {
        match self {
            BME680::ID => 0xd0,
            BME680::CTRL_MEAS => 0x74,
            BME680::CTRL_HUM => 0x72,
            BME680::CTRL_GAS1 => 0x71,
            BME680::CTRL_GAS0 => 0x70,
        }
    }

    pub fn into(self) -> (address: u8)
        ensures
            address == self.address(),
    {
        match self {
            BME680::ID => 0xd0,
            BME680::CTRL_MEAS => 0x74,
            BME680::CTRL_HUM => 0x72,
            BME680::CTRL_GAS1 => 0x71,
            BME680::CTRL_GAS0 => 0x70,
        }
    }
}

/// Register addresses of the accelerometer.
#[allow(non_camel_case_types)]
#[derive(Clone, Copy, Debug, PartialEq, Eq, Structural)]
pub enum BMI088_ACCEL {
    ID,
}

impl BMI088_ACCEL {
    /// The address that the name stands for.
    pub open spec fn address(self) -> u8 {
        match self {
            BMI088_ACCEL::ID => 0x00,
        }
    }

    pub fn into(self) -> (address: u8)
        ensures
            address == self.address(),
    {
        match self {
            BMI088_ACCEL::ID => 0x00,
        }
    }
}

/// Register addresses of the gyroscope.
#[allow(non_camel_case_types)]
#[derive(Clone, Copy, Debug, PartialEq, Eq, Structural)]
pub enum BMI088_GYRO {
    ID,
}

impl BMI088_GYRO {
    /// The address that the name stands for.
    pub open spec fn address(self) -> u8 {
        match self {
            BMI088_GYRO::ID => 0x00,
        }
    }

    pub fn into(self) -> (address: u8)
        ensures
            address == self.address(),
    {
        match self {
            BMI088_GYRO::ID => 0x00,
        }
    }
}

/// Register addresses of the magnetometer.
#[allow(non_camel_case_types)]
#[derive(Clone, Copy, Debug, PartialEq, Eq, Structural)]
pub enum BMM150 {
    ID,
    POWER,
}

impl BMM150 {
    /// The address that the name stands for.
    pub open spec fn address(self) -> u8 {
        match self {
            BMM150::ID => 0x40,
            BMM150::POWER => 0x4b,
        }
    }

    pub fn into(self) -> (address: u8)
        ensures
            address == self.address(),
    {
        match self {
            BMM150::ID => 0x40,
            BMM150::POWER => 0x4b,
        }
    }
}

/// How many samples the sensor averages for one reading.
#[derive(Clone, Copy, Debug, PartialEq, Eq, Structural)]
pub enum EnvOversample {
    /// The measurement is left out.
    Skipped,
    OS1,
    OS2,
    OS4,
    OS8,
    OS16,
}

impl EnvOversample {
    /// The three bits that select the setting.
    pub open spec fn bits(self) -> u8 {
        match self {
            EnvOversample::Skipped => 0,
            EnvOversample::OS1 => 1,
            EnvOversample::OS2 => 2,
            EnvOversample::OS4 => 3,
            EnvOversample::OS8 => 4,
            EnvOversample::OS16 => 5,
        }
    }

    pub fn to_bits(self) -> (bits: u8)
        ensures
            bits == self.bits(),
    {
        match self {
            EnvOversample::Skipped => 0,
            EnvOversample::OS1 => 1,
            EnvOversample::OS2 => 2,
            EnvOversample::OS4 => 3,
            EnvOversample::OS8 => 4,
            EnvOversample::OS16 => 5,
        }
    }
}

/// Identity register of the environmental sensor.
pub struct EnvId {
    data: u8,
}

impl Default for EnvId {
    fn default() -> (reg: Self)
        ensures
            reg.raw_data() == seq![0u8],
    {
        Self { data: 0 }
    }
}

impl Register for EnvId {
    const DEVICE: u8 = 0x76;

    const REGISTER: u8 = 0xd0;

    const SIZE: u8 = 1;

    closed spec fn raw_data(&self) -> Seq<u8> {
        seq![self.data]
    }
}

impl ReadRegister for EnvId {
    open spec fn loaded(data: Seq<u8>) -> Seq<u8> {
        seq![data[0]]
    }

    fn set_raw_data(&mut self, data: &[u8]) {
        self.data = data[0];
    }
}

impl EnvId {
    /// Whether the byte read is the identity of an environmental sensor.
    pub fn is_id_correct(&self) -> (correct: bool)
        ensures
            correct == (self.raw_data()[0] == 0x61),
    {
        self.data == 0x61
    }
}

/// Measurement control register: temperature and pressure oversampling, and the mode.
pub struct EnvCtrlMeas {
    data: u8,
}

impl Default for EnvCtrlMeas {
    fn default() -> (reg: Self)
        ensures
            reg.raw_data() == seq![0u8],
    {
        Self { data: 0 }
    }
}

impl Register for EnvCtrlMeas {
    const DEVICE: u8 = 0x76;

    const REGISTER: u8 = 0x74;

    const SIZE: u8 = 1;

    closed spec fn raw_data(&self) -> Seq<u8> {
        seq![self.data]
    }
}

impl ReadRegister for EnvCtrlMeas {
    open spec fn loaded(data: Seq<u8>) -> Seq<u8> {
        seq![data[0]]
    }

    fn set_raw_data(&mut self, data: &[u8]) {
        self.data = data[0];
    }
}

impl WriteRegister for EnvCtrlMeas {
    fn get_raw_data(&self) -> u8 {
        self.data
    }
}

impl EnvCtrlMeas {
    /// Sets the temperature oversampling, bits 5 to 7, and keeps the rest.
    pub fn set_temperature_oversample(&mut self, sampling: EnvOversample)
        ensures
            final(self).raw_data() == seq![
                ((old(self).raw_data()[0] & 0x1f) + sampling.bits() * 32) as u8,
            ],
            (old(self).raw_data()[0] & 0x1f) + sampling.bits() * 32 <= 191,
    {
        let before: u8 = self.data;
        let kept: u8 = before & 0x1f;
        assert(kept <= 31) by (bit_vector)
            requires
                kept == before & 0x1f,
        ;
        self.data = kept + sampling.to_bits() * 32;
    }

    /// Sets the pressure oversampling, bits 2 to 4, and keeps the rest.
    pub fn set_pressure_oversample(&mut self, sampling: EnvOversample)
        ensures
            final(self).raw_data() == seq![
                ((old(self).raw_data()[0] & 0xe3) + sampling.bits() * 4) as u8,
            ],
            (old(self).raw_data()[0] & 0xe3) + sampling.bits() * 4 <= 247,
    {
        let before: u8 = self.data;
        let kept: u8 = before & 0xe3;
        assert(kept <= 227) by (bit_vector)
            requires
                kept == before & 0xe3,
        ;
        self.data = kept + sampling.to_bits() * 4;
    }

    /// Clears the mode bits, and sets forced mode where `start` is true,
    /// which makes the sensor take one sample.
    pub fn start_sample(&mut self, start: bool)
        ensures
            final(self).raw_data() == seq![
                ((old(self).raw_data()[0] & 0xfc) + if start { 1int } else { 0int }) as u8,
            ],
            (old(self).raw_data()[0] & 0xfc) <= 252,
    {
        let before: u8 = self.data;
        let kept: u8 = before & 0xfc;
        assert(kept <= 252) by (bit_vector)
            requires
                kept == before & 0xfc,
        ;
        self.data = kept;
        if start {
            self.data = self.data + 1;
        }
    }
}

/// Humidity control register.
pub struct EnvCtrlHumid {
    data: u8,
}

impl Default for EnvCtrlHumid {
    fn default() -> (reg: Self)
        ensures
            reg.raw_data() == seq![0u8],
    {
        Self { data: 0 }
    }
}

impl Register for EnvCtrlHumid {
    const DEVICE: u8 = 0x76;

    const REGISTER: u8 = 0x72;

    const SIZE: u8 = 1;

    closed spec fn raw_data(&self) -> Seq<u8> {
        seq![self.data]
    }
}

impl ReadRegister for EnvCtrlHumid {
    open spec fn loaded(data: Seq<u8>) -> Seq<u8> {
        seq![data[0]]
    }

    fn set_raw_data(&mut self, data: &[u8]) {
        self.data = data[0];
    }
}

impl WriteRegister for EnvCtrlHumid {
    fn get_raw_data(&self) -> u8 {
        self.data
    }
}

impl EnvCtrlHumid {
    /// Sets the humidity oversampling; the register holds nothing else.
    pub fn set_humidity_oversample(&mut self, sampling: EnvOversample)
        ensures
            final(self).raw_data() == seq![sampling.bits()],
    {
        self.data = sampling.to_bits();
    }
}

/// First gas control register. The gas sensor is not used, so the register only ever switches its heater off.
pub struct EnvCtrlGas0 {
    data: u8,
}

impl Default for EnvCtrlGas0 {
    fn default() -> (reg: Self)
        ensures
            reg.raw_data() == seq![0u8],
    {
        Self { data: 0 }
    }
}

impl Register for EnvCtrlGas0 {
    const DEVICE: u8 = 0x76;

    const REGISTER: u8 = 0x70;

    const SIZE: u8 = 1;

    closed spec fn raw_data(&self) -> Seq<u8> {
        seq![self.data]
    }
}

impl ReadRegister for EnvCtrlGas0 {
    /// Whatever was read, the register is set to switch the heater off.
    open spec fn loaded(data: Seq<u8>) -> Seq<u8> {
        seq![8u8]
    }

    fn set_raw_data(&mut self, _data: &[u8]) {
        self.data = 8;
    }
}

impl WriteRegister for EnvCtrlGas0 {
    fn get_raw_data(&self) -> u8 {
        self.data
    }
}

/// Identity register of the accelerometer.
pub struct AccId {
    data: u8,
}

impl Default for AccId {
    fn default() -> (reg: Self)
        ensures
            reg.raw_data() == seq![0u8],
    {
        Self { data: 0 }
    }
}

impl Register for AccId {
    const DEVICE: u8 = 0x18;

    const REGISTER: u8 = 0x00;

    const SIZE: u8 = 1;

    closed spec fn raw_data(&self) -> Seq<u8> {
        seq![self.data]
    }
}

impl ReadRegister for AccId {
    open spec fn loaded(data: Seq<u8>) -> Seq<u8> {
        seq![data[0]]
    }

    fn set_raw_data(&mut self, data: &[u8]) {
        self.data = data[0];
    }
}

impl AccId {
    /// Whether the byte read is the identity of an accelerometer.
    pub fn is_id_correct(&self) -> (correct: bool)
        ensures
            correct == (self.raw_data()[0] == 0x1e),
    {
        self.data == 0x1e
    }
}

/// Identity register of the gyroscope.
pub struct GyroId {
    data: u8,
}

impl Default for GyroId {
    fn default() -> (reg: Self)
        ensures
            reg.raw_data() == seq![0u8],
    {
        Self { data: 0 }
    }
}

impl Register for GyroId {
    const DEVICE: u8 = 0x68;

    const REGISTER: u8 = 0x00;

    const SIZE: u8 = 1;

    closed spec fn raw_data(&self) -> Seq<u8> {
        seq![self.data]
    }
}

impl ReadRegister for GyroId {
    open spec fn loaded(data: Seq<u8>) -> Seq<u8> {
        seq![data[0]]
    }

    fn set_raw_data(&mut self, data: &[u8]) {
        self.data = data[0];
    }
}

impl GyroId {
    /// Whether the byte read is the identity of a gyroscope.
    pub fn is_id_correct(&self) -> (correct: bool)
        ensures
            correct == (self.raw_data()[0] == 0x0f),
    {
        self.data == 0x0f
    }
}

/// Identity register of the magnetometer.
pub struct MagId {
    data: u8,
}

impl Default for MagId {
    fn default() -> (reg: Self)
        ensures
            reg.raw_data() == seq![0u8],
    {
        Self { data: 0 }
    }
}

impl Register for MagId {
    const DEVICE: u8 = 0x10;

    const REGISTER: u8 = 0x40;

    const SIZE: u8 = 1;

    closed spec fn raw_data(&self) -> Seq<u8> {
        seq![self.data]
    }
}

impl ReadRegister for MagId {
    open spec fn loaded(data: Seq<u8>) -> Seq<u8> {
        seq![data[0]]
    }

    fn set_raw_data(&mut self, data: &[u8]) {
        self.data = data[0];
    }
}

impl MagId {
    /// Whether the byte read is the identity of a magnetometer.
    pub fn is_id_correct(&self) -> (correct: bool)
        ensures
            correct == (self.raw_data()[0] == 0x32),
    {
        self.data == 0x32
    }
}

/// Power register of the magnetometer. Its one value switches the sensor on.
pub struct MagPower {
    data: u8,
}

impl Default for MagPower {
    fn default() -> (reg: Self)
        ensures
            reg.raw_data() == seq![1u8],
    {
        Self { data: 1 }
    }
}

impl Register for MagPower {
    const DEVICE: u8 = 0x10;

    const REGISTER: u8 = 0x4b;

    const SIZE: u8 = 1;

    closed spec fn raw_data(&self) -> Seq<u8> {
        seq![self.data]
    }
}

impl WriteRegister for MagPower {
    fn get_raw_data(&self) -> u8 {
        self.data
    }
}

/// The bus map: the device, the address and the width of every register
/// of this module.
pub proof fn lemma_register_map()
    ensures
        EnvId::DEVICE == 0x76,
        EnvId::REGISTER == 0xd0,
        EnvId::SIZE == 1,
        EnvCtrlMeas::DEVICE == 0x76,
        EnvCtrlMeas::REGISTER == 0x74,
        EnvCtrlMeas::SIZE == 1,
        EnvCtrlHumid::DEVICE == 0x76,
        EnvCtrlHumid::REGISTER == 0x72,
        EnvCtrlHumid::SIZE == 1,
        EnvCtrlGas0::DEVICE == 0x76,
        EnvCtrlGas0::REGISTER == 0x70,
        EnvCtrlGas0::SIZE == 1,
        AccId::DEVICE == 0x18,
        AccId::REGISTER == 0x00,
        AccId::SIZE == 1,
        GyroId::DEVICE == 0x68,
        GyroId::REGISTER == 0x00,
        GyroId::SIZE == 1,
        MagId::DEVICE == 0x10,
        MagId::REGISTER == 0x40,
        MagId::SIZE == 1,
        MagPower::DEVICE == 0x10,
        MagPower::REGISTER == 0x4b,
        MagPower::SIZE == 1,
{
}

} // verus!
