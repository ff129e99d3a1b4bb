//! Registers of the magnetometer.
use crate::types::{
    copy_bytes, i16_from_le, le_i16, le_u16, shift_right_i16, u16_from_le, ReadRegister, Register,
    WriteRegister,
};
use vstd::prelude::*;

verus! {

/// Bus address of the magnetometer.
pub const MAG_ADDR: u8 = 0x10;

/// Register addresses of the magnetometer.
#[allow(non_camel_case_types)]
#[derive(Clone, Copy, Debug, PartialEq, Eq, Structural)]
pub enum BMM150 {
    ID,
    POWER,
    /// Eight bytes of sample data start here.
    DATA,
    CONTROL,
    DIGX1,
    DIGZ4,
    DIGZ2,
}

impl BMM150 {
    /// The address that the name stands for.
    pub open spec fn address(self) -> u8 {
        match self {
            BMM150::ID => 0x40,
            BMM150::POWER => 0x4b,
            BMM150::DATA => 0x42,
            BMM150::CONTROL => 0x4c,
            BMM150::DIGX1 => 0x5d,
            BMM150::DIGZ4 => 0x62,
            BMM150::DIGZ2 => 0x68,
        }
    }

    pub fn into(self) -> (address: u8)
        ensures
            address == self.address(),
    {
        match self {
            BMM150::ID => 0x40,
            BMM150::POWER => 0x4b,
            BMM150::DATA => 0x42,
            BMM150::CONTROL => 0x4c,
            BMM150::DIGX1 => 0x5d,
            BMM150::DIGZ4 => 0x62,
            BMM150::DIGZ2 => 0x68,
        }
    }
}

/// The identity that a magnetometer reports.
pub const MAG_CHIP_ID: u8 = 0x32;

/// Identity register of the magnetometer.
pub struct Id {
    data: u8,
}

impl Default for Id {
    fn default() -> (reg: Self)
        ensures
            reg.raw_data() == seq![0u8],
    {
        Self { data: 0 }
    }
}

impl Register for Id {
    const DEVICE: u8 = 0x10;

    const REGISTER: u8 = 0x40;

    const SIZE: u8 = 1;

    closed spec fn raw_data(&self) -> Seq<u8> {
        seq![self.data]
    }
}

impl ReadRegister for Id {
    open spec fn loaded(data: Seq<u8>) -> Seq<u8> {
        seq![data[0]]
    }

    fn set_raw_data(&mut self, data: &[u8]) {
        self.data = data[0];
    }
}

impl Id {
    /// Whether the byte read is the identity of a magnetometer.
    pub fn is_id_correct(&self) -> (correct: bool)
        ensures
            correct == (self.raw_data()[0] == MAG_CHIP_ID),
    {
        self.data == 0x32
    }
}

/// Power register of the magnetometer. Its one value switches the sensor on.
pub struct Power {
    data: u8,
}

impl Default for Power {
    fn default() -> (reg: Self)
        ensures
            reg.raw_data() == seq![1u8],
    {
        Self { data: 1 }
    }
}

impl Register for Power {
    const DEVICE: u8 = 0x10;

    const REGISTER: u8 = 0x4b;

    const SIZE: u8 = 1;

    closed spec fn raw_data(&self) -> Seq<u8> {
        seq![self.data]
    }
}

impl WriteRegister for Power {
    fn get_raw_data(&self) -> u8 {
        self.data
    }
}

/// Sample registers of the magnetometer: the three axes and the hall
/// resistance, two bytes each, low byte first.
pub struct Data {
    data: [u8; 8],
}

impl Default for Data {
    fn default() -> (reg: Self)
        ensures
            reg.raw_data() == Seq::new(8, |i: int| 0u8),
    {
        let reg = Self { data: [0;8] };
        assert(reg.data@ =~= Seq::new(8, |i: int| 0u8));
        reg
    }
}

impl Register for Data {
    const DEVICE: u8 = 0x10;

    const REGISTER: u8 = 0x42;

    const SIZE: u8 = 8;

    closed spec fn raw_data(&self) -> Seq<u8> {
        self.data@
    }
}

impl ReadRegister for Data {
    open spec fn loaded(data: Seq<u8>) -> Seq<u8> {
        data
    }

    fn set_raw_data(&mut self, data: &[u8]) {
        copy_bytes(&mut self.data, data);
    }
}

impl Data {
    /// The register always holds its eight bytes.
    pub proof fn lemma_width(&self)
        ensures
            self.raw_data().len() == 8,
    {
    }

    /// Raw reading of the X axis: the upper 13 bits of the first word.
    pub fn get_x(&self) -> (x: i16)
        ensures
            x == le_i16(self.raw_data()[0], self.raw_data()[1]) / 8,
    {
        shift_right_i16(i16_from_le(self.data[0], self.data[1]), 3)
    }

    /// Raw reading of the Y axis: the upper 13 bits of the second word.
    pub fn get_y(&self) -> (y: i16)
        ensures
            y == le_i16(self.raw_data()[2], self.raw_data()[3]) / 8,
    {
        shift_right_i16(i16_from_le(self.data[2], self.data[3]), 3)
    }

    /// Raw reading of the Z axis: the upper 15 bits of the third word.
    pub fn get_z(&self) -> (z: i16)
        ensures
            z == le_i16(self.raw_data()[4], self.raw_data()[5]) / 2,
    {
        shift_right_i16(i16_from_le(self.data[4], self.data[5]), 1)
    }

    /// Raw hall resistance: the upper 14 bits of the fourth word.
    pub fn get_rhall(&self) -> (rhall: i16)
        ensures
            rhall == le_i16(self.raw_data()[6], self.raw_data()[7]) / 4,
    {
        shift_right_i16(i16_from_le(self.data[6], self.data[7]), 2)
    }
}

/// Control register of the magnetometer. Its zero value keeps the sensor's
/// own defaults: normal mode at ten samples a second.
pub struct Control {
    data: u8,
}

impl Default for Control {
    fn default() -> (reg: Self)
        ensures
            reg.raw_data() == seq![0u8],
    {
        Self { data: 0 }
    }
}

impl Register for Control {
    const DEVICE: u8 = 0x10;

    const REGISTER: u8 = 0x4c;

    const SIZE: u8 = 1;

    closed spec fn raw_data(&self) -> Seq<u8> {
        seq![self.data]
    }
}

impl WriteRegister for Control {
    fn get_raw_data(&self) -> u8 {
        self.data
    }
}

/// First block of trim registers.
pub struct DigX1 {
    data: [u8; 2],
}

impl Default for DigX1 {
    fn default() -> (reg: Self)
        ensures
            reg.raw_data() == Seq::new(2, |i: int| 0u8),
    {
        let reg = Self { data: [0;2] };
        assert(reg.data@ =~= Seq::new(2, |i: int| 0u8));
        reg
    }
}

impl Register for DigX1 {
    const DEVICE: u8 = 0x10;

    const REGISTER: u8 = 0x5d;

    const SIZE: u8 = 2;

    closed spec fn raw_data(&self) -> Seq<u8> {
        self.data@
    }
}

impl ReadRegister for DigX1 {
    open spec fn loaded(data: Seq<u8>) -> Seq<u8> {
        data
    }

    fn set_raw_data(&mut self, data: &[u8]) {
        copy_bytes(&mut self.data, data);
    }
}

impl DigX1 {
    /// The register always holds its two bytes.
    pub proof fn lemma_width(&self)
        ensures
            self.raw_data().len() == 2,
    {
    }

    pub fn get_x1(&self) -> (x1: u8)
        ensures
            x1 == self.raw_data()[0],
    {
        self.data[0]
    }

    pub fn get_y1(&self) -> (y1: u8)
        ensures
            y1 == self.raw_data()[1],
    {
        self.data[1]
    }
}

/// Second block of trim registers.
pub struct DigZ4 {
    data: [u8; 4],
}

impl Default for DigZ4 {
    fn default() -> (reg: Self)
        ensures
            reg.raw_data() == Seq::new(4, |i: int| 0u8),
    {
        let reg = Self { data: [0;4] };
        assert(reg.data@ =~= Seq::new(4, |i: int| 0u8));
        reg
    }
}

impl Register for DigZ4 {
    const DEVICE: u8 = 0x10;

    const REGISTER: u8 = 0x62;

    const SIZE: u8 = 4;

    closed spec fn raw_data(&self) -> Seq<u8> {
        self.data@
    }
}

impl ReadRegister for DigZ4 {
    open spec fn loaded(data: Seq<u8>) -> Seq<u8> {
        data
    }

    fn set_raw_data(&mut self, data: &[u8]) {
        copy_bytes(&mut self.data, data);
    }
}

impl DigZ4 {
    /// The register always holds its four bytes.
    pub proof fn lemma_width(&self)
        ensures
            self.raw_data().len() == 4,
    {
    }

    pub fn get_x2(&self) -> (x2: u8)
        ensures
            x2 == self.raw_data()[2],
    {
        self.data[2]
    }

    pub fn get_y2(&self) -> (y2: u8)
        ensures
            y2 == self.raw_data()[3],
    {
        self.data[3]
    }

    pub fn get_z4(&self) -> (z4: u16)
        ensures
            z4 == le_u16(self.raw_data()[0], self.raw_data()[1]),
    {
        u16_from_le(self.data[0], self.data[1])
    }
}

/// Third block of trim registers.
pub struct DigZ2 {
    data: [u8; 10],
}

impl Default for DigZ2 {
    fn default() -> (reg: Self)
        ensures
            reg.raw_data() == Seq::new(10, |i: int| 0u8),
    {
        let reg = Self { data: [0;10] };
        assert(reg.data@ =~= Seq::new(10, |i: int| 0u8));
        reg
    }
}

impl Register for DigZ2 {
    const DEVICE: u8 = 0x10;

    const REGISTER: u8 = 0x68;

    const SIZE: u8 = 10;

    closed spec fn raw_data(&self) -> Seq<u8> {
        self.data@
    }
}

impl ReadRegister for DigZ2 {
    open spec fn loaded(data: Seq<u8>) -> Seq<u8> {
        data
    }

    fn set_raw_data(&mut self, data: &[u8]) {
        copy_bytes(&mut self.data, data);
    }
}

impl DigZ2 {
    /// The register always holds its ten bytes.
    pub proof fn lemma_width(&self)
        ensures
            self.raw_data().len() == 10,
    {
    }

    pub fn get_z1(&self) -> (z1: u16)
        ensures
            z1 == le_u16(self.raw_data()[2], self.raw_data()[3]),
    {
        u16_from_le(self.data[2], self.data[3])
    }

    pub fn get_z2(&self) -> (z2: u16)
        ensures
            z2 == le_u16(self.raw_data()[0], self.raw_data()[1]),
    {
        u16_from_le(self.data[0], self.data[1])
    }

    pub fn get_z3(&self) -> (z3: u16)
        ensures
            z3 == le_u16(self.raw_data()[6], self.raw_data()[7]),
    {
        u16_from_le(self.data[6], self.data[7])
    }

    pub fn get_xy1(&self) -> (xy1: u8)
        ensures
            xy1 == self.raw_data()[9],
    {
        self.data[9]
    }

    pub fn get_xy2(&self) -> (xy2: u8)
        ensures
            xy2 == self.raw_data()[8],
    {
        self.data[8]
    }

    /// The hall reference: fifteen bits, the top bit of the high byte left out.
    pub fn get_xyz1(&self) -> (xyz1: u16)
        ensures
            xyz1 == (self.raw_data()[5] % 128) * 256 + self.raw_data()[4],
    {
        u16_from_le(self.data[4], self.data[5] % 128)
    }
}

/// The bus map: the device, the address and the width of every register
/// of this module.
pub proof fn lemma_register_map()
    ensures
        Id::DEVICE == 0x10,
        Id::REGISTER == 0x40,
        Id::SIZE == 1,
        Power::DEVICE == 0x10,
        Power::REGISTER == 0x4b,
        Power::SIZE == 1,
        Data::DEVICE == 0x10,
        Data::REGISTER == 0x42,
        Data::SIZE == 8,
        Control::DEVICE == 0x10,
        Control::REGISTER == 0x4c,
        Control::SIZE == 1,
        DigX1::DEVICE == 0x10,
        DigX1::REGISTER == 0x5d,
        DigX1::SIZE == 2,
        DigZ4::DEVICE == 0x10,
        DigZ4::REGISTER == 0x62,
        DigZ4::SIZE == 4,
        DigZ2::DEVICE == 0x10,
        DigZ2::REGISTER == 0x68,
        DigZ2::SIZE == 10,
{
}

} // verus!
