//! The driver of the sensor board. The driver decides which bus
//! transaction comes next and what a transaction's outcome means; the
//! caller performs the transactions and hands their outcomes back.
use crate::bmi088_registers::{AccData, AccId, AccPowerConf, AccPowerCtrl, GyroData, GyroId};
use crate::bmm150_registers::{Control, Data, DigX1, DigZ2, DigZ4, Id, Power};
use crate::compensation::{compensate, field_of, raw_of, trim_of, MagField, MagTrim, Ratio};
use crate::types::{
    le_i16, le_u16, read_request, write_request, BusError, ReadRegister, ReadRequest, Register,
    WriteRequest,
};
use vstd::prelude::*;

verus! {

/// Milliseconds for which the bus rests after a transaction.
pub const SETTLE_MILLIS: u64 = 5;

/// Milliseconds between two samples.
pub const SAMPLE_MILLIS: u64 = 100;

/// The three sensors that the driver samples.
#[derive(Clone, Copy, Debug, PartialEq, Eq, Structural)]
pub enum Sensor {
    Accelerometer,
    Gyroscope,
    Magnetometer,
}

/// The identity that a sensor reports.
pub open spec fn chip_id(sensor: Sensor) -> u8 {
    match sensor {
        Sensor::Accelerometer => 0x1e,
        Sensor::Gyroscope => 0x0f,
        Sensor::Magnetometer => 0x32,
    }
}

/// Where the driver stands in its work.
#[derive(Clone, Copy, Debug, PartialEq, Eq, Structural)]
pub enum Step {
    PowerMagnetometer,
    ControlMagnetometer,
    CheckAccelerometer,
    CheckGyroscope,
    CheckMagnetometer,
    TrimX1,
    TrimZ4,
    TrimZ2,
    ConfigureAccelerometer,
    EnableAccelerometer,
    Wait,
    SampleMagnetometer,
    SampleAccelerometer,
    SampleGyroscope,
    Publish,
}

/// A value on each of the three axes.
#[derive(Clone, Copy, Debug, PartialEq, Eq, Structural)]
pub struct Axes {
    pub x: i32,
    pub y: i32,
    pub z: i32,
}

/// One sample of all three sensors. A sensor that could not be read has
/// every axis at zero.
#[derive(Clone, Copy, Debug, PartialEq, Eq, Structural)]
pub struct Sample {
    /// Acceleration on X, Y and Z, in units of 1/8192 g.
    pub accel: Axes,
    /// Rate of turn about X, Y and Z, in units of 1/2048 degrees a second.
    pub gyro: Axes,
    /// Magnetic field on X, Y and Z, in microtesla.
    pub mag: MagField,
}

/// What the caller is to do next.
#[derive(Clone, Copy, Debug, PartialEq, Eq, Structural)]
pub enum Action {
    Write(WriteRequest),
    Read(ReadRequest),
    Sleep(u64),
    Send(Sample),
}

/// The outcome of what the caller did.
#[derive(Debug, PartialEq, Eq)]
pub enum Event {
    Written(Result<(), BusError>),
    Read(Result<Vec<u8>, BusError>),
    Slept,
    Sent,
}

/// What the driver learned from an outcome.
#[derive(Clone, Copy, Debug, PartialEq, Eq, Structural)]
pub enum Report {
    /// Nothing worth telling.
    Quiet,
    /// A sensor answered the identity check, with the right identity or not.
    Identified { sensor: Sensor, found: bool },
    /// A transaction failed; the driver goes on without its result.
    BusFailed { step: Step, error: BusError },
    /// The outcome does not answer the action that was due; the driver
    /// stays where it was.
    Unexpected,
}

/// Everything the driver keeps.
#[derive(Clone, Copy, Debug, PartialEq, Eq, Structural)]
pub struct DriverState {
    pub step: Step,
    /// Whether the bus is resting after a transaction of this step.
    pub settling: bool,
    /// The trim values in use.
    pub trim: MagTrim,
    /// The trim values read so far while the trim registers are read.
    pub pending: MagTrim,
    /// The sample that is being put together.
    pub sample: Sample,
}

/// Zero on every axis.
pub open spec fn zero_axes() -> Axes {
    Axes { x: 0, y: 0, z: 0 }
}

/// A field of zero on every axis.
pub open spec fn zero_field() -> MagField {
    MagField {
        x: Ratio { num: 0, den: 1 },
        y: Ratio { num: 0, den: 1 },
        z: Ratio { num: 0, den: 1 },
    }
}

/// The sample of three sensors that could not be read.
pub open spec fn neutral_sample() -> Sample {
    Sample { accel: zero_axes(), gyro: zero_axes(), mag: zero_field() }
}

/// Trim values that are all zero.
pub open spec fn zero_trim() -> MagTrim {
    MagTrim { x1: 0, y1: 0, x2: 0, y2: 0, z4: 0, z1: 0, z2: 0, z3: 0, xy1: 0, xy2: 0, xyz1: 0 }
}

/// The state in which a driver starts.
pub open spec fn initial_state() -> DriverState {
    DriverState {
        step: Step::PowerMagnetometer,
        settling: false,
        trim: zero_trim(),
        pending: zero_trim(),
        sample: neutral_sample(),
    }
}

/// The step that follows `step`, after a transaction that went well or
/// one that failed. A failure leaves out what depends on the
/// transaction: the rest of the magnetometer's start, of the trim
/// registers, or of the accelerometer's start.
pub open spec fn step_after(step: Step, ok: bool) -> Step {
    match step {
        Step::PowerMagnetometer => if ok {
            Step::ControlMagnetometer
        } else {
            Step::CheckAccelerometer
        },
        Step::ControlMagnetometer => Step::CheckAccelerometer,
        Step::CheckAccelerometer => Step::CheckGyroscope,
        Step::CheckGyroscope => Step::CheckMagnetometer,
        Step::CheckMagnetometer => Step::TrimX1,
        Step::TrimX1 => if ok {
            Step::TrimZ4
        } else {
            Step::ConfigureAccelerometer
        },
        Step::TrimZ4 => if ok {
            Step::TrimZ2
        } else {
            Step::ConfigureAccelerometer
        },
        Step::TrimZ2 => Step::ConfigureAccelerometer,
        Step::ConfigureAccelerometer => if ok {
            Step::EnableAccelerometer
        } else {
            Step::Wait
        },
        Step::EnableAccelerometer => Step::Wait,
        Step::Wait => Step::SampleMagnetometer,
        Step::SampleMagnetometer => Step::SampleAccelerometer,
        Step::SampleAccelerometer => Step::SampleGyroscope,
        Step::SampleGyroscope => Step::Publish,
        Step::Publish => Step::Wait,
    }
}

/// The write that a step makes, if it makes one.
pub open spec fn write_of(step: Step) -> Option<WriteRequest> {
    match step {
        Step::PowerMagnetometer => Some(WriteRequest { device: 0x10, register: 0x4b, value: 1 }),
        Step::ControlMagnetometer => Some(
            WriteRequest { device: 0x10, register: 0x4c, value: 0 },
        ),
        Step::ConfigureAccelerometer => Some(
            WriteRequest { device: 0x18, register: 0x7c, value: 0 },
        ),
        Step::EnableAccelerometer => Some(
            WriteRequest { device: 0x18, register: 0x7d, value: 4 },
        ),
        _ => None,
    }
}

/// The read that a step makes, if it makes one.
pub open spec fn read_of(step: Step) -> Option<ReadRequest> {
    match step {
        Step::CheckAccelerometer => Some(ReadRequest { device: 0x18, register: 0x00, len: 1 }),
        Step::CheckGyroscope => Some(ReadRequest { device: 0x68, register: 0x00, len: 1 }),
        Step::CheckMagnetometer => Some(ReadRequest { device: 0x10, register: 0x40, len: 1 }),
        Step::TrimX1 => Some(ReadRequest { device: 0x10, register: 0x5d, len: 2 }),
        Step::TrimZ4 => Some(ReadRequest { device: 0x10, register: 0x62, len: 4 }),
        Step::TrimZ2 => Some(ReadRequest { device: 0x10, register: 0x68, len: 10 }),
        Step::SampleMagnetometer => Some(ReadRequest { device: 0x10, register: 0x42, len: 8 }),
        Step::SampleAccelerometer => Some(ReadRequest { device: 0x18, register: 0x12, len: 6 }),
        Step::SampleGyroscope => Some(ReadRequest { device: 0x68, register: 0x02, len: 6 }),
        _ => None,
    }
}

/// What the caller is to do in a state.
pub open spec fn action_of(state: DriverState) -> Action {
    if state.settling {
        Action::Sleep(SETTLE_MILLIS)
    } else if let Some(request) = write_of(state.step) {
        Action::Write(request)
    } else if let Some(request) = read_of(state.step) {
        Action::Read(request)
    } else if state.step == Step::Wait {
        Action::Sleep(SAMPLE_MILLIS)
    } else {
        Action::Send(state.sample)
    }
}

/// The three signed words of a sample register, each times `scale`.
pub open spec fn scaled_axes(data: Seq<u8>, scale: int) -> Axes {
    Axes {
        x: (le_i16(data[0], data[1]) * scale) as i32,
        y: (le_i16(data[2], data[3]) * scale) as i32,
        z: (le_i16(data[4], data[5]) * scale) as i32,
    }
}

/// The pending trim values with those of the first trim register.
pub open spec fn with_x1(pending: MagTrim, data: Seq<u8>) -> MagTrim {
    MagTrim { x1: data[0], y1: data[1], ..pending }
}

/// The pending trim values with those of the second trim register.
pub open spec fn with_z4(pending: MagTrim, data: Seq<u8>) -> MagTrim {
    MagTrim { x2: data[2], y2: data[3], z4: le_u16(data[0], data[1]) as u16, ..pending }
}

/// The pending trim values with those of the third trim register.
pub open spec fn with_z2(pending: MagTrim, data: Seq<u8>) -> MagTrim {
    MagTrim {
        z1: le_u16(data[2], data[3]) as u16,
        z2: le_u16(data[0], data[1]) as u16,
        z3: le_u16(data[6], data[7]) as u16,
        xy1: data[9],
        xy2: data[8],
        xyz1: ((data[5] % 128) * 256 + data[4]) as u16,
        ..pending
    }
}

/// The state after the read of `state.step` gave `data`, before the step
/// moves on.
pub open spec fn absorbed(state: DriverState, data: Seq<u8>) -> DriverState {
    match state.step {
        Step::TrimX1 => DriverState { pending: with_x1(state.pending, data), ..state },
        Step::TrimZ4 => DriverState { pending: with_z4(state.pending, data), ..state },
        Step::TrimZ2 => DriverState {
            pending: with_z2(state.pending, data),
            trim: with_z2(state.pending, data),
            ..state
        },
        Step::SampleMagnetometer => DriverState {
            sample: Sample { mag: field_of(state.trim, raw_of(data)), ..state.sample },
            ..state
        },
        Step::SampleAccelerometer => DriverState {
            sample: Sample { accel: scaled_axes(data, 15), ..state.sample },
            ..state
        },
        Step::SampleGyroscope => DriverState {
            sample: Sample { gyro: scaled_axes(data, 125), ..state.sample },
            ..state
        },
        _ => state,
    }
}

/// The state after the read of `state.step` failed, before the step moves
/// on: a sensor that could not be sampled reads zero on every axis.
pub open spec fn missed(state: DriverState) -> DriverState {
    match state.step {
        Step::SampleMagnetometer => DriverState {
            sample: Sample { mag: zero_field(), ..state.sample },
            ..state
        },
        Step::SampleAccelerometer => DriverState {
            sample: Sample { accel: zero_axes(), ..state.sample },
            ..state
        },
        Step::SampleGyroscope => DriverState {
            sample: Sample { gyro: zero_axes(), ..state.sample },
            ..state
        },
        _ => state,
    }
}

/// Whether an outcome answers the action that is due in a state.
pub open spec fn answers(state: DriverState, event: Event) -> bool {
    match event {
        Event::Slept => state.settling || state.step == Step::Wait,
        Event::Written(_) => !state.settling && write_of(state.step) is Some,
        Event::Read(Ok(data)) => !state.settling && read_of(state.step) is Some
            && data@.len() == read_of(state.step)->0.len,
        Event::Read(Err(_)) => !state.settling && read_of(state.step) is Some,
        Event::Sent => !state.settling && state.step == Step::Publish,
    }
}

/// The state that an outcome leads to. After a write, and after a read
/// that went well, the bus rests before the next step; a failed read
/// moves on at once. An outcome that does not answer the action that is
/// due changes nothing.
pub open spec fn state_after(state: DriverState, event: Event) -> DriverState {
    if !answers(state, event) {
        state
    } else {
        match event {
            Event::Slept => if state.settling {
                DriverState { settling: false, ..state }
            } else {
                DriverState { step: step_after(state.step, true), ..state }
            },
            Event::Written(outcome) => DriverState {
                step: step_after(state.step, outcome is Ok),
                settling: true,
                ..state
            },
            Event::Read(Ok(data)) => DriverState {
                step: step_after(state.step, true),
                settling: true,
                ..absorbed(state, data@)
            },
            Event::Read(Err(_)) => DriverState {
                step: step_after(state.step, false),
                ..missed(state)
            },
            Event::Sent => DriverState { step: step_after(state.step, true), ..state },
        }
    }
}

/// The sensor whose identity a step checks, if it checks one.
pub open spec fn checked_sensor(step: Step) -> Option<Sensor> {
    match step {
        Step::CheckAccelerometer => Some(Sensor::Accelerometer),
        Step::CheckGyroscope => Some(Sensor::Gyroscope),
        Step::CheckMagnetometer => Some(Sensor::Magnetometer),
        _ => None,
    }
}

/// What an outcome tells.
pub open spec fn report_of(state: DriverState, event: Event) -> Report {
    if !answers(state, event) {
        Report::Unexpected
    } else {
        match event {
            Event::Written(Err(error)) => Report::BusFailed { step: state.step, error },
            Event::Read(Err(error)) => Report::BusFailed { step: state.step, error },
            Event::Read(Ok(data)) => match checked_sensor(state.step) {
                Some(sensor) => Report::Identified { sensor, found: data@[0] == chip_id(sensor) },
                None => Report::Quiet,
            },
            _ => Report::Quiet,
        }
    }
}

/// The step that follows `step`.
pub fn next_step(step: Step, ok: bool) -> (next: Step)
    ensures
        next == step_after(step, ok),
{
    match step {
        Step::PowerMagnetometer => if ok {
            Step::ControlMagnetometer
        } else {
            Step::CheckAccelerometer
        },
        Step::ControlMagnetometer => Step::CheckAccelerometer,
        Step::CheckAccelerometer => Step::CheckGyroscope,
        Step::CheckGyroscope => Step::CheckMagnetometer,
        Step::CheckMagnetometer => Step::TrimX1,
        Step::TrimX1 => if ok {
            Step::TrimZ4
        } else {
            Step::ConfigureAccelerometer
        },
        Step::TrimZ4 => if ok {
            Step::TrimZ2
        } else {
            Step::ConfigureAccelerometer
        },
        Step::TrimZ2 => Step::ConfigureAccelerometer,
        Step::ConfigureAccelerometer => if ok {
            Step::EnableAccelerometer
        } else {
            Step::Wait
        },
        Step::EnableAccelerometer => Step::Wait,
        Step::Wait => Step::SampleMagnetometer,
        Step::SampleMagnetometer => Step::SampleAccelerometer,
        Step::SampleAccelerometer => Step::SampleGyroscope,
        Step::SampleGyroscope => Step::Publish,
        Step::Publish => Step::Wait,
    }
}

/// The write that a step makes, if it makes one.
pub fn write_for(step: Step) -> (request: Option<WriteRequest>)
    ensures
        request == write_of(step),
{
    proof {
        crate::bmm150_registers::lemma_register_map();
        crate::bmi088_registers::lemma_register_map();
    }
    match step {
        Step::PowerMagnetometer => Some(write_request(&Power::default())),
        Step::ControlMagnetometer => Some(write_request(&Control::default())),
        Step::ConfigureAccelerometer => Some(write_request(&AccPowerConf::default())),
        Step::EnableAccelerometer => Some(write_request(&AccPowerCtrl::default())),
        _ => None,
    }
}

/// The read that a step makes, if it makes one.
pub fn read_for(step: Step) -> (request: Option<ReadRequest>)
    ensures
        request == read_of(step),
{
    proof {
        crate::bmm150_registers::lemma_register_map();
        crate::bmi088_registers::lemma_register_map();
    }
    match step {
        Step::CheckAccelerometer => read_request::<AccId>(),
        Step::CheckGyroscope => read_request::<GyroId>(),
        Step::CheckMagnetometer => read_request::<Id>(),
        Step::TrimX1 => read_request::<DigX1>(),
        Step::TrimZ4 => read_request::<DigZ4>(),
        Step::TrimZ2 => read_request::<DigZ2>(),
        Step::SampleMagnetometer => read_request::<Data>(),
        Step::SampleAccelerometer => read_request::<AccData>(),
        Step::SampleGyroscope => read_request::<GyroData>(),
        _ => None,
    }
}

/// Whether the byte that a sensor answered the identity check with is
/// the sensor's identity.
pub fn identify(sensor: Sensor, answer: u8) -> (found: bool)
    ensures
        found == (answer == chip_id(sensor)),
{
    proof {
        crate::bmm150_registers::lemma_register_map();
        crate::bmi088_registers::lemma_register_map();
    }
    let data: [u8; 1] = [answer];
    match sensor {
        Sensor::Accelerometer => {
            let mut register = AccId::default();
            register.set_raw_data(&data);
            register.is_id_correct()
        },
        Sensor::Gyroscope => {
            let mut register = GyroId::default();
            register.set_raw_data(&data);
            register.is_id_correct()
        },
        Sensor::Magnetometer => {
            let mut register = Id::default();
            register.set_raw_data(&data);
            register.is_id_correct()
        },
    }
}

/// The driver of the sensor board.
pub struct ClickDriver {
    state: DriverState,
}

impl View for ClickDriver {
    type V = DriverState;

    closed spec fn view(&self) -> DriverState {
        self.state
    }
}

impl ClickDriver {
    /// A driver at the start of its work, with all trim values at zero.
    pub fn new() -> (driver: Self)
        ensures
            driver@ == initial_state(),
    {
        let zero = MagTrim {
            x1: 0,
            y1: 0,
            x2: 0,
            y2: 0,
            z4: 0,
            z1: 0,
            z2: 0,
            z3: 0,
            xy1: 0,
            xy2: 0,
            xyz1: 0,
        };
        let still = Axes { x: 0, y: 0, z: 0 };
        let none = Ratio { num: 0, den: 1 };
        ClickDriver {
            state: DriverState {
                step: Step::PowerMagnetometer,
                settling: false,
                trim: zero,
                pending: zero,
                sample: Sample {
                    accel: still,
                    gyro: still,
                    mag: MagField { x: none, y: none, z: none },
                },
            },
        }
    }

    /// All that the driver keeps.
    pub fn state(&self) -> (state: DriverState)
        ensures
            state == self@,
    {
        self.state
    }

    /// What the caller is to do next.
    pub fn action(&self) -> (action: Action)
        ensures
            action == action_of(self@),
    {
        if self.state.settling {
            return Action::Sleep(SETTLE_MILLIS);
        }
        if let Some(request) = write_for(self.state.step) {
            return Action::Write(request);
        }
        if let Some(request) = read_for(self.state.step) {
            return Action::Read(request);
        }
        match self.state.step {
            Step::Wait => Action::Sleep(SAMPLE_MILLIS),
            _ => Action::Send(self.state.sample),
        }
    }

    /// Takes the bytes that the read of the present step gave.
    fn absorb(&mut self, data: &[u8]) -> (report: Report)
        requires
            !old(self)@.settling,
            read_of(old(self)@.step) matches Some(request) && data@.len() == request.len,
        ensures
            final(self)@ == absorbed(old(self)@, data@),
            report == match checked_sensor(old(self)@.step) {
                Some(sensor) => Report::Identified { sensor, found: data@[0] == chip_id(sensor) },
                None => Report::Quiet,
            },
    {
        proof {
            crate::bmm150_registers::lemma_register_map();
            crate::bmi088_registers::lemma_register_map();
        }
        match self.state.step {
            Step::CheckAccelerometer => Report::Identified {
                sensor: Sensor::Accelerometer,
                found: identify(Sensor::Accelerometer, data[0]),
            },
            Step::CheckGyroscope => Report::Identified {
                sensor: Sensor::Gyroscope,
                found: identify(Sensor::Gyroscope, data[0]),
            },
            Step::CheckMagnetometer => Report::Identified {
                sensor: Sensor::Magnetometer,
                found: identify(Sensor::Magnetometer, data[0]),
            },
            Step::TrimX1 => {
                let mut register = DigX1::default();
                register.set_raw_data(data);
                self.state.pending.x1 = register.get_x1();
                self.state.pending.y1 = register.get_y1();
                Report::Quiet
            },
            Step::TrimZ4 => {
                let mut register = DigZ4::default();
                register.set_raw_data(data);
                self.state.pending.x2 = register.get_x2();
                self.state.pending.y2 = register.get_y2();
                self.state.pending.z4 = register.get_z4();
                Report::Quiet
            },
            Step::TrimZ2 => {
                let mut register = DigZ2::default();
                register.set_raw_data(data);
                self.state.pending.z1 = register.get_z1();
                self.state.pending.z2 = register.get_z2();
                self.state.pending.z3 = register.get_z3();
                self.state.pending.xy1 = register.get_xy1();
                self.state.pending.xy2 = register.get_xy2();
                self.state.pending.xyz1 = register.get_xyz1();
                self.state.trim = self.state.pending;
                Report::Quiet
            },
            Step::SampleMagnetometer => {
                let mut register = Data::default();
                register.set_raw_data(data);
                let raw = crate::compensation::read_raw(&register);
                self.state.sample.mag = compensate(&self.state.trim, &raw);
                Report::Quiet
            },
            Step::SampleAccelerometer => {
                let mut register = AccData::default();
                register.set_raw_data(data);
                let axes = register.get_data();
                self.state.sample.accel = Axes { x: axes.0, y: axes.1, z: axes.2 };
                Report::Quiet
            },
            Step::SampleGyroscope => {
                let mut register = GyroData::default();
                register.set_raw_data(data);
                let axes = register.read_gyro_data();
                self.state.sample.gyro = Axes { x: axes.0, y: axes.1, z: axes.2 };
                Report::Quiet
            },
            _ => Report::Quiet,
        }
    }

    /// Puts zero in place of the sample of the present step's sensor.
    fn miss(&mut self)
        ensures
            final(self)@ == missed(old(self)@),
    {
        match self.state.step {
            Step::SampleMagnetometer => {
                let none = Ratio { num: 0, den: 1 };
                self.state.sample.mag = MagField { x: none, y: none, z: none };
            },
            Step::SampleAccelerometer => {
                self.state.sample.accel = Axes { x: 0, y: 0, z: 0 };
            },
            Step::SampleGyroscope => {
                self.state.sample.gyro = Axes { x: 0, y: 0, z: 0 };
            },
            _ => {},
        }
    }

    /// Takes the outcome of the action that was due, and says what it
    /// tells.
    pub fn advance(&mut self, event: &Event) -> (report: Report)
        ensures
            final(self)@ == state_after(old(self)@, *event),
            report == report_of(old(self)@, *event),
    {
        let step = self.state.step;
        let settling = self.state.settling;
        match event {
            Event::Slept => {
                if settling {
                    self.state.settling = false;
                    Report::Quiet
                } else {
                    match step {
                        Step::Wait => {
                            self.state.step = next_step(step, true);
                            Report::Quiet
                        },
                        _ => Report::Unexpected,
                    }
                }
            },
            Event::Written(outcome) => {
                if settling || write_for(step).is_none() {
                    Report::Unexpected
                } else {
                    self.state.settling = true;
                    match outcome {
                        Ok(_) => {
                            self.state.step = next_step(step, true);
                            Report::Quiet
                        },
                        Err(error) => {
                            self.state.step = next_step(step, false);
                            Report::BusFailed { step, error: *error }
                        },
                    }
                }
            },
            Event::Read(outcome) => {
                let request = read_for(step);
                if settling || request.is_none() {
                    Report::Unexpected
                } else {
                    match outcome {
                        Ok(data) => {
                            if data.len() == request.unwrap().len as usize {
                                let report = self.absorb(data.as_slice());
                                self.state.step = next_step(step, true);
                                self.state.settling = true;
                                report
                            } else {
                                Report::Unexpected
                            }
                        },
                        Err(error) => {
                            self.miss();
                            self.state.step = next_step(step, false);
                            Report::BusFailed { step, error: *error }
                        },
                    }
                }
            },
            Event::Sent => {
                if settling {
                    Report::Unexpected
                } else {
                    match step {
                        Step::Publish => {
                            self.state.step = next_step(step, true);
                            Report::Quiet
                        },
                        _ => Report::Unexpected,
                    }
                }
            },
        }
    }
}

/// Whether an outcome is that of a read: a failure, or `len` bytes.
pub open spec fn is_read_of(event: Event, len: int) -> bool {
    match event {
        Event::Read(Ok(data)) => data@.len() == len,
        Event::Read(Err(_)) => true,
        _ => false,
    }
}

/// The state after the outcome of a read and, where the read went well,
/// after the rest that follows it.
pub open spec fn state_after_read(state: DriverState, event: Event) -> DriverState {
    match event {
        Event::Read(Ok(_)) => state_after(state_after(state, event), Event::Slept),
        _ => state_after(state, event),
    }
}

/// The field that the outcome of reading the magnetometer stands for.
pub open spec fn sampled_field(trim: MagTrim, event: Event) -> MagField {
    match event {
        Event::Read(Ok(data)) => field_of(trim, raw_of(data@)),
        _ => zero_field(),
    }
}

/// The values that the outcome of reading a sample register stands for.
pub open spec fn sampled_axes(event: Event, scale: int) -> Axes {
    match event {
        Event::Read(Ok(data)) => scaled_axes(data@, scale),
        _ => zero_axes(),
    }
}

/// One faulty sensor does not hold up the others: whatever the three
/// reads of a sampling round come to, the driver then stands at
/// publishing. The sample holds the values of the sensors that were
/// read, and zero on every axis of those that were not.
pub proof fn lemma_round_completes(state: DriverState, mag: Event, accel: Event, gyro: Event)
    requires
        state.step == Step::SampleMagnetometer,
        !state.settling,
        is_read_of(mag, 8),
        is_read_of(accel, 6),
        is_read_of(gyro, 6),
    ensures
        ({
            let end = state_after_read(
                state_after_read(state_after_read(state, mag), accel),
                gyro,
            );
            &&& end.step == Step::Publish
            &&& !end.settling
            &&& end.trim == state.trim
            &&& end.sample == (Sample {
                mag: sampled_field(state.trim, mag),
                accel: sampled_axes(accel, 15),
                gyro: sampled_axes(gyro, 125),
            })
            &&& action_of(end) == Action::Send(end.sample)
        }),
{
    let first = state_after_read(state, mag);
    assert(first.step == Step::SampleAccelerometer && !first.settling);
    let second = state_after_read(first, accel);
    assert(second.step == Step::SampleGyroscope && !second.settling);
}

/// The trim values in use change only when all three trim registers were
/// read: they are then the values that the three registers hold. Where
/// one of the reads fails, the reads after it are left out and the trim
/// values stay as they were.
pub proof fn lemma_trim_all_or_nothing(state: DriverState, x1: Event, z4: Event, z2: Event)
    requires
        state.step == Step::TrimX1,
        !state.settling,
        is_read_of(x1, 2),
        is_read_of(z4, 4),
        is_read_of(z2, 10),
    ensures
        ({
            let first = state_after_read(state, x1);
            let second = state_after_read(first, z4);
            let third = state_after_read(second, z2);
            &&& x1 matches Event::Read(Err(_)) ==> first.step == Step::ConfigureAccelerometer
                && first.trim == state.trim
            &&& (x1 matches Event::Read(Ok(_)) && z4 matches Event::Read(Err(_)))
                ==> second.step == Step::ConfigureAccelerometer && second.trim == state.trim
            &&& (x1 matches Event::Read(Ok(_)) && z4 matches Event::Read(Ok(_)))
                ==> third.step == Step::ConfigureAccelerometer
            &&& (x1 matches Event::Read(Ok(_)) && z4 matches Event::Read(Ok(_))
                && z2 matches Event::Read(Ok(_))) ==> third.trim == trim_of(
                x1->Read_0->Ok_0@,
                z4->Read_0->Ok_0@,
                z2->Read_0->Ok_0@,
            )
            &&& (x1 matches Event::Read(Ok(_)) && z4 matches Event::Read(Ok(_))
                && z2 matches Event::Read(Err(_))) ==> third.trim == state.trim
        }),
{
    let first = state_after_read(state, x1);
    let second = state_after_read(first, z4);
    if x1 is Read && x1->Read_0 is Ok {
        assert(first.step == Step::TrimZ4 && !first.settling);
        if z4 is Read && z4->Read_0 is Ok {
            assert(second.step == Step::TrimZ2 && !second.settling);
        }
    }
}

/// The identity check is repeatable: what it tells depends on nothing but
/// the byte that the sensor answers with, so two checks that the sensor
/// answers alike tell the same; and a check changes neither the trim
/// values nor the sample.
pub proof fn lemma_identity_repeatable(first: DriverState, second: DriverState, a: Event, b: Event)
    requires
        checked_sensor(first.step) is Some,
        second.step == first.step,
        !first.settling,
        !second.settling,
        a matches Event::Read(Ok(x)) && b matches Event::Read(Ok(y)) && x@ == y@ && x@.len()
            == 1,
    ensures
        report_of(first, a) == report_of(second, b),
        report_of(first, a) == (Report::Identified {
            sensor: checked_sensor(first.step)->0,
            found: a->Read_0->Ok_0@[0] == chip_id(checked_sensor(first.step)->0),
        }),
        state_after(first, a).trim == first.trim,
        state_after(first, a).sample == first.sample,
{
}

/// Every state has an action, and every outcome that answers it moves
/// the driver on: a bus failure never stops it.
pub proof fn lemma_never_stuck(state: DriverState, event: Event)
    requires
        answers(state, event),
    ensures
        state_after(state, event) != state,
        report_of(state, event) != Report::Unexpected,
{
}

} // verus!
