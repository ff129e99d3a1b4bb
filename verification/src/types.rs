//! The register capability: every register value names the device it lives on,
//! its address on that device and its fixed width in bytes, and can be loaded
//! from the bus, written to it, or both.
use vstd::prelude::*;

verus! {

/// Why a bus transaction did not complete.
#[derive(Clone, Copy, Debug, PartialEq, Eq, Structural)]
pub enum BusError {
    /// The addressed device did not acknowledge.
    NoAcknowledge,
    /// The transaction ran into its time limit and was abandoned.
    Timeout,
    /// The bus was held by another transaction.
    Busy,
}

/// A register of a device on the two-wire bus.
pub trait Register: Sized {
    /// Seven-bit address of the device.
    const DEVICE: u8;

    /// Address of the register on the device.
    const REGISTER: u8;

    /// Width of the register in bytes.
    const SIZE: u8;

    /// The bytes that the register value holds.
    spec fn raw_data(&self) -> Seq<u8>;
}

/// A register that can be read from the bus.
pub trait ReadRegister: Register {
    /// What the register holds once `data` has been read into it.
    spec fn loaded(data: Seq<u8>) -> Seq<u8>;

    /// Stores the bytes of one read of the register.
    fn set_raw_data(&mut self, data: &[u8])
        requires
            data@.len() == Self::SIZE,
        ensures
            final(self).raw_data() == Self::loaded(data@),
    ;
}

/// A one-byte register that can be written to the bus.
pub trait WriteRegister: Register {
    /// The byte to put on the bus: all that the register holds.
    fn get_raw_data(&self) -> (byte: u8)
        ensures
            self.raw_data() == seq![byte],
    ;
}

/// One read transaction: `len` bytes starting at `register` of `device`.
#[derive(Clone, Copy, Debug, PartialEq, Eq, Structural)]
pub struct ReadRequest {
    pub device: u8,
    pub register: u8,
    pub len: u8,
}

/// One write transaction: `value` into `register` of `device`.
#[derive(Clone, Copy, Debug, PartialEq, Eq, Structural)]
pub struct WriteRequest {
    pub device: u8,
    pub register: u8,
    pub value: u8,
}

/// The widths for which the driver knows a read transaction.
pub open spec fn width_supported(size: u8) -> bool {
    size == 1 || size == 2 || size == 3 || size == 4 || size == 6 || size == 8 || size == 10
}

/// The read transaction that fetches register `T`, if its width is one the
/// driver can read.
pub fn read_request<T: Register>() -> (request: Option<ReadRequest>)
    ensures
        request == if width_supported(T::SIZE) {
            Some(ReadRequest { device: T::DEVICE, register: T::REGISTER, len: T::SIZE })
        } else {
            None
        },
{
    let size: u8 = T::SIZE;
    if size == 1 || size == 2 || size == 3 || size == 4 || size == 6 || size == 8 || size == 10 {
        Some(ReadRequest { device: T::DEVICE, register: T::REGISTER, len: size })
    } else {
        None
    }
}

/// The write transaction that puts register `reg` on the bus.
pub fn write_request<T: WriteRegister>(reg: &T) -> (request: WriteRequest)
    ensures
        reg.raw_data().len() == 1,
        request == (WriteRequest {
            device: T::DEVICE,
            register: T::REGISTER,
            value: reg.raw_data()[0],
        }),
{
    WriteRequest { device: T::DEVICE, register: T::REGISTER, value: reg.get_raw_data() }
}

/// Copies one read of a register into its storage.
pub(crate) fn copy_bytes<const N: usize>(dst: &mut [u8; N], src: &[u8])
    requires
        src@.len() == N,
    ensures
        final(dst)@ == src@,
{
    let mut i: usize = 0;
    while i < N
        invariant
            i <= N,
            src@.len() == N,
            dst@.len() == N,
            forall|j: int| 0 <= j < i ==> dst@[j] == src@[j],
        decreases N - i,
    {
        dst[i] = src[i];
        i = i + 1;
    }
    assert(dst@ =~= src@);
}

/// The signed 16-bit value that two bytes hold, low byte first.
pub fn i16_from_le(lo: u8, hi: u8) -> (word: i16)
    ensures
        word == le_i16(lo, hi),
{
    if hi < 128 {
        (hi as i16) * 256 + (lo as i16)
    } else {
        ((hi as i16) - 256) * 256 + (lo as i16)
    }
}

/// The unsigned 16-bit value that two bytes hold, low byte first.
pub fn u16_from_le(lo: u8, hi: u8) -> (word: u16)
    ensures
        word == le_u16(lo, hi),
{
    (hi as u16) * 256 + (lo as u16)
}

/// A signed 16-bit value divided by `2^shift`, rounded toward negative
/// infinity: what an arithmetic shift to the right leaves.
pub(crate) fn shift_right_i16(word: i16, shift: u8) -> (out: i16)
    requires
        1 <= shift <= 3,
    ensures
        out == word as int / pow2_small(shift),
{
    let divisor: i32 = if shift == 1 {
        2
    } else if shift == 2 {
        4
    } else {
        8
    };
    let lifted: i32 = (word as i32) + 32768;
    let out: i32 = lifted / divisor - 32768 / divisor;
    out as i16
}

/// `2^shift` for the three shifts that the sample registers use.
pub open spec fn pow2_small(shift: u8) -> int {
    if shift == 1 {
        2
    } else if shift == 2 {
        4
    } else {
        8
    }
}

/// Little-endian signed 16-bit value of two bytes.
pub open spec fn le_i16(lo: u8, hi: u8) -> int {
    if hi < 128 {
        hi * 256 + lo
    } else {
        hi * 256 + lo - 65536
    }
}

/// Little-endian unsigned 16-bit value of two bytes.
pub open spec fn le_u16(lo: u8, hi: u8) -> int {
    hi * 256 + lo
}

} // verus!
