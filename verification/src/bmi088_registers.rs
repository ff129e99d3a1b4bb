//! Registers of the accelerometer and of the gyroscope.
use crate::types::{copy_bytes, i16_from_le, le_i16, ReadRegister, Register, WriteRegister};
use vstd::prelude::*;

verus! {

/// Bus address of the accelerometer.
pub const ACCEL_ADDR: u8 = 0x18;

/// Bus address of the gyroscope.
pub const GYRO_ADDR: u8 = 0x68;

/// The identity that an accelerometer reports.
pub const ACCEL_CHIP_ID: u8 = 0x1e;

/// The identity that a gyroscope reports.
pub const GYRO_CHIP_ID: u8 = 0x0f;

/// How many units of `AccData::get_data` make one g.
pub const ACCEL_UNITS_PER_G: i32 = 8192;

/// How many units of `GyroData::read_gyro_data` make one degree a second.
pub const GYRO_UNITS_PER_DPS: i32 = 2048;

/// Register addresses of the accelerometer.
#[allow(non_camel_case_types)]
#[derive(Clone, Copy, Debug, PartialEq, Eq, Structural)]
pub enum BMI088_ACCEL {
    ID,
    CONF,
    CTRL,
    DATA,
}

impl BMI088_ACCEL {
    /// The address that the name stands for.
    pub open spec fn address(self) -> u8 {
        match self {
            BMI088_ACCEL::ID => 0x00,
            BMI088_ACCEL::CONF => 0x7c,
            BMI088_ACCEL::CTRL => 0x7d,
            BMI088_ACCEL::DATA => 0x12,
        }
    }

    pub fn into(self) -> (address: u8)
        ensures
            address == self.address(),
    {
        match self {
            BMI088_ACCEL::ID => 0x00,
            BMI088_ACCEL::CONF => 0x7c,
            BMI088_ACCEL::CTRL => 0x7d,
            BMI088_ACCEL::DATA => 0x12,
        }
    }
}

/// Identity register of the accelerometer.
pub struct AccId {
    data: u8,
}

impl Default for AccId {
    fn default() -> (reg: Self)
        ensures
            reg.raw_data() == seq![0u8],
    {
        Self { data: 0 }
    }
}

impl Register for AccId {
    const DEVICE: u8 = 0x18;

    const REGISTER: u8 = 0x00;

    const SIZE: u8 = 1;

    closed spec fn raw_data(&self) -> Seq<u8> {
        seq![self.data]
    }
}

impl ReadRegister for AccId {
    open spec fn loaded(data: Seq<u8>) -> Seq<u8> {
        seq![data[0]]
    }

    fn set_raw_data(&mut self, data: &[u8]) {
        self.data = data[0];
    }
}

impl AccId {
    /// Whether the byte read is the identity of an accelerometer.
    pub fn is_id_correct(&self) -> (correct: bool)
        ensures
            correct == (self.raw_data()[0] == ACCEL_CHIP_ID),
    {
        self.data == 0x1e
    }
}

/// Power mode register of the accelerometer. Its one value selects active mode.
pub struct AccPowerConf {
    data: u8,
}

impl Default for AccPowerConf {
    fn default() -> (reg: Self)
        ensures
            reg.raw_data() == seq![0u8],
    {
        Self { data: 0 }
    }
}

impl Register for AccPowerConf {
    const DEVICE: u8 = 0x18;

    const REGISTER: u8 = 0x7c;

    const SIZE: u8 = 1;

    closed spec fn raw_data(&self) -> Seq<u8> {
        seq![self.data]
    }
}

impl WriteRegister for AccPowerConf {
    fn get_raw_data(&self) -> u8 {
        self.data
    }
}

/// Power control register of the accelerometer. Its one value switches the sensor on.
pub struct AccPowerCtrl {
    data: u8,
}

impl Default for AccPowerCtrl {
    fn default() -> (reg: Self)
        ensures
            reg.raw_data() == seq![4u8],
    {
        Self { data: 4 }
    }
}

impl Register for AccPowerCtrl {
    const DEVICE: u8 = 0x18;

    const REGISTER: u8 = 0x7d;

    const SIZE: u8 = 1;

    closed spec fn raw_data(&self) -> Seq<u8> {
        seq![self.data]
    }
}

impl WriteRegister for AccPowerCtrl {
    fn get_raw_data(&self) -> u8 {
        self.data
    }
}

/// Sample registers of the accelerometer: X, Y and Z, two bytes each, low byte first.
pub struct AccData {
    data: [u8; 6],
}

impl Default for AccData {
    fn default() -> (reg: Self)
        ensures
            reg.raw_data() == Seq::new(6, |i: int| 0u8),
    {
        let reg = Self { data: [0;6] };
        assert(reg.data@ =~= Seq::new(6, |i: int| 0u8));
        reg
    }
}

impl Register for AccData {
    const DEVICE: u8 = 0x18;

    const REGISTER: u8 = 0x12;

    const SIZE: u8 = 6;

    closed spec fn raw_data(&self) -> Seq<u8> {
        self.data@
    }
}

impl ReadRegister for AccData {
    open spec fn loaded(data: Seq<u8>) -> Seq<u8> {
        data
    }

    fn set_raw_data(&mut self, data: &[u8]) {
        copy_bytes(&mut self.data, data);
    }
}

impl AccData {
    /// The three raw readings, X, Y and Z, each a signed 16-bit value.
    pub fn get_raw(&self) -> (raw: (i16, i16, i16))
        ensures
            raw.0 == le_i16(self.raw_data()[0], self.raw_data()[1]),
            raw.1 == le_i16(self.raw_data()[2], self.raw_data()[3]),
            raw.2 == le_i16(self.raw_data()[4], self.raw_data()[5]),
    {
        (
            i16_from_le(self.data[0], self.data[1]),
            i16_from_le(self.data[2], self.data[3]),
            i16_from_le(self.data[4], self.data[5]),
        )
    }

    /// The acceleration on X, Y and Z in units of `1 / ACCEL_UNITS_PER_G` g,
    /// for the sensor's range of six g: a raw reading of `r` stands for
    /// `r / 32768 * 15 * 4` g, which is `r * 15` of these units.
    pub fn get_data(&self) -> (data: (i32, i32, i32))
        ensures
            data.0 == le_i16(self.raw_data()[0], self.raw_data()[1]) * 15,
            data.1 == le_i16(self.raw_data()[2], self.raw_data()[3]) * 15,
            data.2 == le_i16(self.raw_data()[4], self.raw_data()[5]) * 15,
    {
        let raw = self.get_raw();
        ((raw.0 as i32) * 15, (raw.1 as i32) * 15, (raw.2 as i32) * 15)
    }
}

/// Register addresses of the gyroscope.
#[allow(non_camel_case_types)]
#[derive(Clone, Copy, Debug, PartialEq, Eq, Structural)]
pub enum BMI088_GYRO {
    ID,
    DATA,
}

impl BMI088_GYRO {
    /// The address that the name stands for.
    pub open spec fn address(self) -> u8 {
        match self {
            BMI088_GYRO::ID => 0x00,
            BMI088_GYRO::DATA => 0x02,
        }
    }

    pub fn into(self) -> (address: u8)
        ensures
            address == self.address(),
    {
        match self {
            BMI088_GYRO::ID => 0x00,
            BMI088_GYRO::DATA => 0x02,
        }
    }
}

/// Identity register of the gyroscope.
pub struct GyroId {
    data: u8,
}

impl Default for GyroId {
    fn default() -> (reg: Self)
        ensures
            reg.raw_data() == seq![0u8],
    {
        Self { data: 0 }
    }
}

impl Register for GyroId {
    const DEVICE: u8 = 0x68;

    const REGISTER: u8 = 0x00;

    const SIZE: u8 = 1;

    closed spec fn raw_data(&self) -> Seq<u8> {
        seq![self.data]
    }
}

impl ReadRegister for GyroId {
    open spec fn loaded(data: Seq<u8>) -> Seq<u8> {
        seq![data[0]]
    }

    fn set_raw_data(&mut self, data: &[u8]) {
        self.data = data[0];
    }
}

impl GyroId {
    /// Whether the byte read is the identity of a gyroscope.
    pub fn is_id_correct(&self) -> (correct: bool)
        ensures
            correct == (self.raw_data()[0] == GYRO_CHIP_ID),
    {
        self.data == 0x0f
    }
}

/// Sample registers of the gyroscope: X, Y and Z, two bytes each, low byte first.
pub struct GyroData {
    data: [u8; 6],
}

impl Default for GyroData {
    fn default() -> (reg: Self)
        ensures
            reg.raw_data() == Seq::new(6, |i: int| 0u8),
    {
        let reg = Self { data: [0;6] };
        assert(reg.data@ =~= Seq::new(6, |i: int| 0u8));
        reg
    }
}

impl Register for GyroData {
    const DEVICE: u8 = 0x68;

    const REGISTER: u8 = 0x02;

    const SIZE: u8 = 6;

    closed spec fn raw_data(&self) -> Seq<u8> {
        self.data@
    }
}

impl ReadRegister for GyroData {
    open spec fn loaded(data: Seq<u8>) -> Seq<u8> {
        data
    }

    fn set_raw_data(&mut self, data: &[u8]) {
        copy_bytes(&mut self.data, data);
    }
}

impl GyroData {
    /// The three raw readings, X, Y and Z, each a signed 16-bit value.
    pub fn get_raw(&self) -> (raw: (i16, i16, i16))
        ensures
            raw.0 == le_i16(self.raw_data()[0], self.raw_data()[1]),
            raw.1 == le_i16(self.raw_data()[2], self.raw_data()[3]),
            raw.2 == le_i16(self.raw_data()[4], self.raw_data()[5]),
    {
        (
            i16_from_le(self.data[0], self.data[1]),
            i16_from_le(self.data[2], self.data[3]),
            i16_from_le(self.data[4], self.data[5]),
        )
    }

    /// The rate of turn about X, Y and Z in units of `1 / GYRO_UNITS_PER_DPS`
    /// degrees a second, for the sensor's full scale: a raw reading of `r`
    /// stands for `r * 4000 / 65536` degrees a second, which is `r * 125` of
    /// these units.
    pub fn read_gyro_data(&self) -> (data: (i32, i32, i32))
        ensures
            data.0 == le_i16(self.raw_data()[0], self.raw_data()[1]) * 125,
            data.1 == le_i16(self.raw_data()[2], self.raw_data()[3]) * 125,
            data.2 == le_i16(self.raw_data()[4], self.raw_data()[5]) * 125,
    {
        let raw = self.get_raw();
        ((raw.0 as i32) * 125, (raw.1 as i32) * 125, (raw.2 as i32) * 125)
    }
}

/// The bus map: the device, the address and the width of every register
/// of this module.
pub proof fn lemma_register_map()
    ensures
        AccId::DEVICE == 0x18,
        AccId::REGISTER == 0x00,
        AccId::SIZE == 1,
        AccPowerConf::DEVICE == 0x18,
        AccPowerConf::REGISTER == 0x7c,
        AccPowerConf::SIZE == 1,
        AccPowerCtrl::DEVICE == 0x18,
        AccPowerCtrl::REGISTER == 0x7d,
        AccPowerCtrl::SIZE == 1,
        AccData::DEVICE == 0x18,
        AccData::REGISTER == 0x12,
        AccData::SIZE == 6,
        GyroId::DEVICE == 0x68,
        GyroId::REGISTER == 0x00,
        GyroId::SIZE == 1,
        GyroData::DEVICE == 0x68,
        GyroData::REGISTER == 0x02,
        GyroData::SIZE == 6,
{
}

} // verus!
