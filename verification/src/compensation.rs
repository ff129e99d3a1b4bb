//! Compensation of the magnetometer's raw readings with the sensor's trim
//! values. The field on each axis is a fraction of two integers; it is
//! given as that fraction, exactly, and left to the caller to divide.
use crate::bmm150_registers::{Data, DigX1, DigZ2, DigZ4};
use crate::types::{le_i16, le_u16, Register};
use vstd::prelude::*;

verus! {

/// The eleven trim values of one magnetometer.
#[derive(Clone, Copy, Debug, PartialEq, Eq, Structural)]
pub struct MagTrim {
    pub x1: u8,
    pub y1: u8,
    pub x2: u8,
    pub y2: u8,
    pub z4: u16,
    pub z1: u16,
    pub z2: u16,
    pub z3: u16,
    pub xy1: u8,
    pub xy2: u8,
    pub xyz1: u16,
}

/// One raw sample of the magnetometer.
#[derive(Clone, Copy, Debug, PartialEq, Eq, Structural)]
pub struct MagRaw {
    /// X axis, thirteen bits.
    pub x: i16,
    /// Y axis, thirteen bits.
    pub y: i16,
    /// Z axis, fifteen bits.
    pub z: i16,
    /// Hall resistance, fourteen bits.
    pub rhall: i16,
}

/// A fraction. It stands for no number where `den` is zero.
#[derive(Clone, Copy, Debug, PartialEq, Eq, Structural)]
pub struct Ratio {
    pub num: i128,
    pub den: i128,
}

/// The field on the three axes, in microtesla.
#[derive(Clone, Copy, Debug, PartialEq, Eq, Structural)]
pub struct MagField {
    pub x: Ratio,
    pub y: Ratio,
    pub z: Ratio,
}

/// The trim values as the three trim registers hold them.
pub open spec fn trim_of(x1: Seq<u8>, z4: Seq<u8>, z2: Seq<u8>) -> MagTrim {
    MagTrim {
        x1: x1[0],
        y1: x1[1],
        x2: z4[2],
        y2: z4[3],
        z4: le_u16(z4[0], z4[1]) as u16,
        z1: le_u16(z2[2], z2[3]) as u16,
        z2: le_u16(z2[0], z2[1]) as u16,
        z3: le_u16(z2[6], z2[7]) as u16,
        xy1: z2[9],
        xy2: z2[8],
        xyz1: ((z2[5] % 128) * 256 + z2[4]) as u16,
    }
}

/// The raw sample as the sample registers hold it.
pub open spec fn raw_of(data: Seq<u8>) -> MagRaw {
    MagRaw {
        x: (le_i16(data[0], data[1]) / 8) as i16,
        y: (le_i16(data[2], data[3]) / 8) as i16,
        z: (le_i16(data[4], data[5]) / 2) as i16,
        rhall: (le_i16(data[6], data[7]) / 4) as i16,
    }
}

/// Whether a raw sample keeps to the widths of the sample registers.
pub open spec fn raw_in_range(raw: MagRaw) -> bool {
    &&& -4096 <= raw.x <= 4095
    &&& -4096 <= raw.y <= 4095
    &&& -16384 <= raw.z <= 16383
    &&& -8192 <= raw.rhall <= 8191
}

/// Whether trim values keep to the widths of the trim registers.
pub open spec fn trim_in_range(trim: MagTrim) -> bool {
    trim.xyz1 <= 32767
}

/// The hall term that the X and Y axes share, times the square of the
/// hall resistance. With `h = xyz1 * 16384 / rhall - 16384` it is
/// `(xy2 * h^2 / 268435456 + h * xy1 / 16384 + 256) * rhall^2`.
pub open spec fn hall_term(trim: MagTrim, raw: MagRaw) -> int {
    let d = trim.xyz1 - raw.rhall;
    let r = raw.rhall as int;
    trim.xy2 * (d * d) + trim.xy1 * (d * r) + 256 * (r * r)
}

/// Numerator of the field on X or Y: for the raw reading `axis` and the
/// axis's trim values `t1` and `t2`, the field is
/// `(axis * (hall term + 256) * (t2 + 160) / 8192 + t1 * 8) / 16`.
pub open spec fn planar_num(trim: MagTrim, raw: MagRaw, axis: i16, t1: u8, t2: u8) -> int {
    axis * (t2 + 160) * hall_term(trim, raw) + 65536 * t1 * (raw.rhall * raw.rhall)
}

/// Denominator of the field on X and on Y.
pub open spec fn planar_den(raw: MagRaw) -> int {
    131072 * (raw.rhall * raw.rhall)
}

/// Numerator of the field on Z: the field is
/// `((z - z4) * 131072 - z3 * (rhall - xyz1)) / (z2 + z1 * rhall / 32768) / 4 / 16`.
pub open spec fn axial_num(trim: MagTrim, raw: MagRaw) -> int {
    512 * ((raw.z - trim.z4) * 131072 - trim.z3 * (raw.rhall - trim.xyz1))
}

/// Denominator of the field on Z.
pub open spec fn axial_den(trim: MagTrim, raw: MagRaw) -> int {
    32768 * trim.z2 + trim.z1 * raw.rhall
}

/// The compensated field of a raw sample.
pub open spec fn field_of(trim: MagTrim, raw: MagRaw) -> MagField {
    MagField {
        x: Ratio {
            num: planar_num(trim, raw, raw.x, trim.x1, trim.x2) as i128,
            den: planar_den(raw) as i128,
        },
        y: Ratio {
            num: planar_num(trim, raw, raw.y, trim.y1, trim.y2) as i128,
            den: planar_den(raw) as i128,
        },
        z: Ratio { num: axial_num(trim, raw) as i128, den: axial_den(trim, raw) as i128 },
    }
}

/// A product is bounded by the product of its factors' bounds.
pub proof fn lemma_product_bound(a: int, b: int, ma: int, mb: int)
    requires
        -ma <= a <= ma,
        -mb <= b <= mb,
    ensures
        -(ma * mb) <= a * b <= ma * mb,
{
    assert(-(ma * mb) <= a * b <= ma * mb) by (nonlinear_arith)
        requires
            -ma <= a <= ma,
            -mb <= b <= mb,
    ;
}

/// The numerators and denominators of the fractions fit 128 bits with
/// room to spare, whatever the sample and the trim values.
pub proof fn lemma_field_fits(trim: MagTrim, raw: MagRaw, axis: i16, t1: u8, t2: u8)
    ensures
        -0x10_0000_0000_0000_0000 <= planar_num(trim, raw, axis, t1, t2) <= 0x10_0000_0000_0000_0000,
        0 <= planar_den(raw) <= 0x1_0000_0000_0000,
        -0x1_0000_0000_0000 <= axial_num(trim, raw) <= 0x1_0000_0000_0000,
        -0x1_0000_0000 <= axial_den(trim, raw) <= 0x1_0000_0000,
        -0x800_0000_0000 <= hall_term(trim, raw) <= 0x800_0000_0000,
{
    let d = trim.xyz1 - raw.rhall;
    let r = raw.rhall as int;
    lemma_product_bound(d, d, 0x2_0000, 0x2_0000);
    lemma_product_bound(d, r, 0x2_0000, 0x8000);
    lemma_product_bound(r, r, 0x8000, 0x8000);
    assert(r * r >= 0) by (nonlinear_arith);
    lemma_product_bound(trim.xy2 as int, d * d, 255, 0x4_0000_0000);
    lemma_product_bound(trim.xy1 as int, d * r, 255, 0x1_0000_0000);
    let a = hall_term(trim, raw);
    lemma_product_bound(axis as int, t2 + 160, 0x8000, 415);
    lemma_product_bound(axis * (t2 + 160), a, 13598720, 0x800_0000_0000);
    lemma_product_bound(65536 * t1, r * r, 16711680, 0x4000_0000);
    assert(65536 * t1 * (r * r) == (65536 * t1) * (r * r)) by (nonlinear_arith);
    lemma_product_bound(trim.z3 as int, raw.rhall - trim.xyz1, 65535, 0x2_0000);
    lemma_product_bound(trim.z1 as int, r, 65535, 0x8000);
}

/// The trim values that the three trim registers hold.
pub fn read_trim(x1: &DigX1, z4: &DigZ4, z2: &DigZ2) -> (trim: MagTrim)
    ensures
        trim == trim_of(x1.raw_data(), z4.raw_data(), z2.raw_data()),
        trim_in_range(trim),
{
    proof {
        x1.lemma_width();
        z4.lemma_width();
        z2.lemma_width();
    }
    MagTrim {
        x1: x1.get_x1(),
        y1: x1.get_y1(),
        x2: z4.get_x2(),
        y2: z4.get_y2(),
        z4: z4.get_z4(),
        z1: z2.get_z1(),
        z2: z2.get_z2(),
        z3: z2.get_z3(),
        xy1: z2.get_xy1(),
        xy2: z2.get_xy2(),
        xyz1: z2.get_xyz1(),
    }
}

/// The raw sample that the sample registers hold.
pub fn read_raw(data: &Data) -> (raw: MagRaw)
    ensures
        raw == raw_of(data.raw_data()),
        raw_in_range(raw),
{
    proof {
        data.lemma_width();
    }
    MagRaw { x: data.get_x(), y: data.get_y(), z: data.get_z(), rhall: data.get_rhall() }
}

/// Compensates one raw sample.
pub fn compensate(trim: &MagTrim, raw: &MagRaw) -> (field: MagField)
    ensures
        field == field_of(*trim, *raw),
        field.x.den == field.y.den,
        field.x.den == 0 <==> raw.rhall == 0,
{
    proof {
        lemma_field_fits(*trim, *raw, raw.x, trim.x1, trim.x2);
        lemma_field_fits(*trim, *raw, raw.y, trim.y1, trim.y2);
    }
    let r: i128 = raw.rhall as i128;
    let d: i128 = trim.xyz1 as i128 - r;
    proof {
        lemma_product_bound(d as int, d as int, 0x2_0000, 0x2_0000);
        lemma_product_bound(d as int, r as int, 0x2_0000, 0x8000);
        lemma_product_bound(r as int, r as int, 0x8000, 0x8000);
        assert(r * r >= 0) by (nonlinear_arith);
        lemma_product_bound(trim.xy2 as int, d * d, 255, 0x4_0000_0000);
        lemma_product_bound(trim.xy1 as int, d * r, 255, 0x1_0000_0000);
    }
    let dd: i128 = d * d;
    let dr: i128 = d * r;
    let rr: i128 = r * r;
    let hall: i128 = (trim.xy2 as i128) * dd + (trim.xy1 as i128) * dr + 256 * rr;
    assert(hall == hall_term(*trim, *raw));
    let den: i128 = 131072 * rr;
    assert(den == 0 <==> r == 0) by (nonlinear_arith)
        requires
            den == 131072 * (r * r),
    ;
    let x = Ratio { num: planar(raw.x, trim.x1, trim.x2, hall, rr), den };
    let y = Ratio { num: planar(raw.y, trim.y1, trim.y2, hall, rr), den };
    proof {
        lemma_product_bound(trim.z3 as int, raw.rhall - trim.xyz1, 65535, 0x2_0000);
        lemma_product_bound(trim.z1 as int, r as int, 65535, 0x8000);
    }
    let z5: i128 = (raw.z as i128 - trim.z4 as i128) * 131072 - (trim.z3 as i128) * (r
        - trim.xyz1 as i128);
    let z = Ratio { num: 512 * z5, den: 32768 * (trim.z2 as i128) + (trim.z1 as i128) * r };
    MagField { x, y, z }
}

/// Numerator of the field on X or Y from the shared hall term.
fn planar(axis: i16, t1: u8, t2: u8, hall: i128, rr: i128) -> (num: i128)
    requires
        -0x800_0000_0000 <= hall <= 0x800_0000_0000,
        0 <= rr <= 0x4000_0000,
    ensures
        num == axis * (t2 + 160) * hall + 65536 * t1 * rr,
{
    proof {
        lemma_product_bound(axis as int, t2 + 160, 0x8000, 415);
        lemma_product_bound(axis * (t2 + 160), hall as int, 13598720, 0x800_0000_0000);
        lemma_product_bound(65536 * t1, rr as int, 16711680, 0x4000_0000);
        assert(65536 * t1 * rr == (65536 * t1) * rr) by (nonlinear_arith);
    }
    let scale: i128 = (axis as i128) * (t2 as i128 + 160);
    let gain: i128 = 65536 * (t1 as i128);
    scale * hall + gain * rr
}

} // verus!
