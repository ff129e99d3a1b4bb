use kingfisher::click_driver::{
    identify, next_step, read_for, write_for, Action, Axes, ClickDriver, Event, Report, Sample,
    Sensor, Step, SAMPLE_MILLIS, SETTLE_MILLIS,
};
use kingfisher::compensation::{compensate, MagField, MagRaw, MagTrim, Ratio};
use kingfisher::types::{BusError, ReadRequest, WriteRequest};

const ZERO: Ratio = Ratio { num: 0, den: 1 };
const ZERO_FIELD: MagField = MagField { x: ZERO, y: ZERO, z: ZERO };
const STILL: Axes = Axes { x: 0, y: 0, z: 0 };

/// A board whose sensors answer with fixed bytes, but for the devices
/// listed as broken, which fail every transaction.
struct Board {
    broken: Vec<u8>,
    log: Vec<Action>,
}

impl Board {
    fn answer(&mut self, action: Action) -> Event {
        self.log.push(action);
        match action {
            Action::Write(WriteRequest { device, .. }) => {
                if self.broken.contains(&device) {
                    Event::Written(Err(BusError::NoAcknowledge))
                } else {
                    Event::Written(Ok(()))
                }
            }
            Action::Read(ReadRequest { device, register, len }) => {
                if self.broken.contains(&device) {
                    return Event::Read(Err(BusError::Timeout));
                }
                let data = match (device, register) {
                    (0x18, 0x00) => vec![0x1e],
                    (0x68, 0x00) => vec![0x0f],
                    (0x10, 0x40) => vec![0x33],
                    (0x10, 0x5d) => vec![1, 2],
                    (0x10, 0x62) => vec![0x10, 0x20, 3, 4],
                    (0x10, 0x68) => vec![0x01, 0x02, 0x03, 0x04, 0x05, 0x06, 0x07, 0x08, 9, 10],
                    (0x10, 0x42) => vec![0x40, 0x00, 0xc0, 0xff, 0x10, 0x00, 0x00, 0x10],
                    (0x18, 0x12) => vec![0x00, 0x40, 0x00, 0x00, 0xff, 0xff],
                    (0x68, 0x02) => vec![0x01, 0x00, 0x02, 0x00, 0x00, 0x80],
                    other => panic!("no such register: {:?}", other),
                };
                assert_eq!(data.len(), len as usize);
                Event::Read(Ok(data))
            }
            Action::Sleep(_) => Event::Slept,
            Action::Send(_) => Event::Sent,
        }
    }
}

fn run_until_sent(driver: &mut ClickDriver, board: &mut Board) -> (Sample, Vec<Report>) {
    let mut reports = Vec::new();
    for _ in 0..200 {
        let action = driver.action();
        let event = board.answer(action);
        let report = driver.advance(&event);
        if report != Report::Quiet {
            reports.push(report);
        }
        if let Action::Send(sample) = action {
            return (sample, reports);
        }
    }
    panic!("the driver never published");
}

const TRIM: MagTrim = MagTrim {
    x1: 1,
    y1: 2,
    x2: 3,
    y2: 4,
    z4: 0x2010,
    z1: 0x0403,
    z2: 0x0201,
    z3: 0x0807,
    xy1: 10,
    xy2: 9,
    xyz1: 0x0605,
};
const RAW: MagRaw = MagRaw { x: 8, y: -8, z: 8, rhall: 1024 };

#[test]
fn a_healthy_board_is_started_and_sampled() {
    let mut driver = ClickDriver::new();
    assert_eq!(driver.state().step, Step::PowerMagnetometer);
    let mut board = Board { broken: vec![], log: vec![] };
    let (sample, reports) = run_until_sent(&mut driver, &mut board);
    assert_eq!(
        reports,
        vec![
            Report::Identified { sensor: Sensor::Accelerometer, found: true },
            Report::Identified { sensor: Sensor::Gyroscope, found: true },
            Report::Identified { sensor: Sensor::Magnetometer, found: false },
        ]
    );
    assert_eq!(driver.state().trim, TRIM);
    assert_eq!(
        sample,
        Sample {
            accel: Axes { x: 245760, y: 0, z: -15 },
            gyro: Axes { x: 125, y: 250, z: -4096000 },
            mag: compensate(&TRIM, &RAW),
        }
    );
    let settle = Action::Sleep(SETTLE_MILLIS);
    assert_eq!(
        board.log,
        vec![
            Action::Write(WriteRequest { device: 0x10, register: 0x4b, value: 1 }),
            settle,
            Action::Write(WriteRequest { device: 0x10, register: 0x4c, value: 0 }),
            settle,
            Action::Read(ReadRequest { device: 0x18, register: 0x00, len: 1 }),
            settle,
            Action::Read(ReadRequest { device: 0x68, register: 0x00, len: 1 }),
            settle,
            Action::Read(ReadRequest { device: 0x10, register: 0x40, len: 1 }),
            settle,
            Action::Read(ReadRequest { device: 0x10, register: 0x5d, len: 2 }),
            settle,
            Action::Read(ReadRequest { device: 0x10, register: 0x62, len: 4 }),
            settle,
            Action::Read(ReadRequest { device: 0x10, register: 0x68, len: 10 }),
            settle,
            Action::Write(WriteRequest { device: 0x18, register: 0x7c, value: 0 }),
            settle,
            Action::Write(WriteRequest { device: 0x18, register: 0x7d, value: 4 }),
            settle,
            Action::Sleep(SAMPLE_MILLIS),
            Action::Read(ReadRequest { device: 0x10, register: 0x42, len: 8 }),
            settle,
            Action::Read(ReadRequest { device: 0x18, register: 0x12, len: 6 }),
            settle,
            Action::Read(ReadRequest { device: 0x68, register: 0x02, len: 6 }),
            settle,
            Action::Send(sample),
        ]
    );
    assert_eq!(driver.state().step, Step::Wait);
    let (again, reports) = run_until_sent(&mut driver, &mut board);
    assert_eq!(again, sample);
    assert_eq!(reports, vec![]);
}

#[test]
fn a_broken_magnetometer_reads_zero_and_holds_up_nothing() {
    let mut driver = ClickDriver::new();
    let mut board = Board { broken: vec![0x10], log: vec![] };
    let (sample, reports) = run_until_sent(&mut driver, &mut board);
    assert_eq!(
        reports,
        vec![
            Report::BusFailed { step: Step::PowerMagnetometer, error: BusError::NoAcknowledge },
            Report::Identified { sensor: Sensor::Accelerometer, found: true },
            Report::Identified { sensor: Sensor::Gyroscope, found: true },
            Report::BusFailed { step: Step::CheckMagnetometer, error: BusError::Timeout },
            Report::BusFailed { step: Step::TrimX1, error: BusError::Timeout },
            Report::BusFailed { step: Step::SampleMagnetometer, error: BusError::Timeout },
        ]
    );
    assert_eq!(sample.mag, ZERO_FIELD);
    assert_eq!(sample.accel, Axes { x: 245760, y: 0, z: -15 });
    assert_eq!(sample.gyro, Axes { x: 125, y: 250, z: -4096000 });
    assert!(!board
        .log
        .contains(&Action::Write(WriteRequest { device: 0x10, register: 0x4c, value: 0 })));
    assert!(!board
        .log
        .contains(&Action::Read(ReadRequest { device: 0x10, register: 0x62, len: 4 })));
}

#[test]
fn a_board_with_nothing_on_the_bus_still_publishes_zeros() {
    let mut driver = ClickDriver::new();
    let mut board = Board { broken: vec![0x10, 0x18, 0x68], log: vec![] };
    let (sample, _) = run_until_sent(&mut driver, &mut board);
    assert_eq!(sample, Sample { accel: STILL, gyro: STILL, mag: ZERO_FIELD });
    let (sample, reports) = run_until_sent(&mut driver, &mut board);
    assert_eq!(sample, Sample { accel: STILL, gyro: STILL, mag: ZERO_FIELD });
    assert_eq!(reports.len(), 3);
}

#[test]
fn a_sensor_that_fails_later_goes_back_to_zero() {
    let mut driver = ClickDriver::new();
    let mut board = Board { broken: vec![], log: vec![] };
    let (first, _) = run_until_sent(&mut driver, &mut board);
    assert_ne!(first.gyro, STILL);
    board.broken.push(0x68);
    let (second, reports) = run_until_sent(&mut driver, &mut board);
    assert_eq!(second.gyro, STILL);
    assert_eq!(second.accel, first.accel);
    assert_eq!(second.mag, first.mag);
    assert_eq!(
        reports,
        vec![Report::BusFailed { step: Step::SampleGyroscope, error: BusError::Timeout }]
    );
}

#[test]
fn an_outcome_that_answers_nothing_changes_nothing() {
    let mut driver = ClickDriver::new();
    let before = driver.state();
    assert_eq!(driver.advance(&Event::Slept), Report::Unexpected);
    assert_eq!(driver.advance(&Event::Sent), Report::Unexpected);
    assert_eq!(driver.advance(&Event::Read(Ok(vec![1]))), Report::Unexpected);
    assert_eq!(driver.advance(&Event::Read(Err(BusError::Busy))), Report::Unexpected);
    assert_eq!(driver.state(), before);
    assert_eq!(driver.advance(&Event::Written(Ok(()))), Report::Quiet);
    assert_eq!(driver.advance(&Event::Written(Ok(()))), Report::Unexpected);
    assert_eq!(driver.action(), Action::Sleep(SETTLE_MILLIS));
}

#[test]
fn a_read_of_the_wrong_length_changes_nothing() {
    let mut driver = ClickDriver::new();
    let mut board = Board { broken: vec![], log: vec![] };
    while driver.state().step != Step::TrimX1 || driver.state().settling {
        let event = board.answer(driver.action());
        driver.advance(&event);
    }
    let before = driver.state();
    assert_eq!(driver.advance(&Event::Read(Ok(vec![1, 2, 3]))), Report::Unexpected);
    assert_eq!(driver.advance(&Event::Read(Ok(vec![1]))), Report::Unexpected);
    assert_eq!(driver.state(), before);
    assert_eq!(driver.advance(&Event::Read(Ok(vec![1, 2]))), Report::Quiet);
    assert_eq!(driver.state().step, Step::TrimZ4);
}

#[test]
fn identities_of_the_three_sensors() {
    assert!(identify(Sensor::Accelerometer, 0x1e));
    assert!(identify(Sensor::Gyroscope, 0x0f));
    assert!(identify(Sensor::Magnetometer, 0x32));
    assert!(!identify(Sensor::Accelerometer, 0x32));
    assert!(!identify(Sensor::Gyroscope, 0x1e));
    assert!(!identify(Sensor::Magnetometer, 0x0f));
    assert_eq!(identify(Sensor::Magnetometer, 0x32), identify(Sensor::Magnetometer, 0x32));
}

#[test]
fn steps_follow_one_another() {
    assert_eq!(next_step(Step::PowerMagnetometer, true), Step::ControlMagnetometer);
    assert_eq!(next_step(Step::PowerMagnetometer, false), Step::CheckAccelerometer);
    assert_eq!(next_step(Step::TrimX1, false), Step::ConfigureAccelerometer);
    assert_eq!(next_step(Step::TrimZ4, false), Step::ConfigureAccelerometer);
    assert_eq!(next_step(Step::TrimZ2, false), Step::ConfigureAccelerometer);
    assert_eq!(next_step(Step::ConfigureAccelerometer, false), Step::Wait);
    assert_eq!(next_step(Step::SampleMagnetometer, false), Step::SampleAccelerometer);
    assert_eq!(next_step(Step::SampleGyroscope, false), Step::Publish);
    assert_eq!(next_step(Step::Publish, true), Step::Wait);
    assert_eq!(write_for(Step::Wait), None);
    assert_eq!(read_for(Step::Publish), None);
    assert_eq!(read_for(Step::PowerMagnetometer), None);
    assert_eq!(write_for(Step::TrimX1), None);
}
