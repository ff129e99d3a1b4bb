//! The message that the sensor module sends to the host.
use vstd::prelude::*;

verus! {

/// One sample of all nine axes. Each value is the bit pattern of a 32-bit
/// IEEE 754 number, as it travels on the wire: three of the accelerometer
/// in g, three of the gyroscope in degrees a second, three of the
/// magnetometer in microtesla.
#[derive(Clone, Copy, Debug, PartialEq, Eq, Structural)]
pub enum ImuMessages {
    Imu(u32, u32, u32, u32, u32, u32, u32, u32, u32),
}

} // verus!
