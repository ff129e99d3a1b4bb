use kingfisher::codec::{
    read_control, read_control_within, read_imu, read_status, write_control, write_imu,
    write_status,
};
use kingfisher::imu_types::ImuMessages;
use kingfisher::microcontroller_types::{
    ControllerState, MicroControlMessages, MicroStatusMessages, Output, State,
};
use kingfisher::wire::{read_u16, read_u32, read_u64, write_varint, Parsed};
use serde::ser::{Serialize, SerializeStruct, SerializeTupleVariant, Serializer};

struct WireOutput(Output);

impl Serialize for WireOutput {
    fn serialize<S: Serializer>(&self, s: S) -> Result<S::Ok, S::Error> {
        match self.0 {
            Output::StarboardLight(on) => {
                s.serialize_newtype_variant("Output", 0, "StarboardLight", &on)
            }
            Output::PortLight(on) => s.serialize_newtype_variant("Output", 1, "PortLight", &on),
            Output::StarboardPower(on) => {
                s.serialize_newtype_variant("Output", 2, "StarboardPower", &on)
            }
            Output::PortPower(on) => s.serialize_newtype_variant("Output", 3, "PortPower", &on),
            Output::StarboardThrottle(level) => {
                s.serialize_newtype_variant("Output", 4, "StarboardThrottle", &level)
            }
            Output::PortThrottle(level) => {
                s.serialize_newtype_variant("Output", 5, "PortThrottle", &level)
            }
        }
    }
}

struct WireControl(MicroControlMessages);

impl Serialize for WireControl {
    fn serialize<S: Serializer>(&self, s: S) -> Result<S::Ok, S::Error> {
        match &self.0 {
            MicroControlMessages::RequestState => {
                s.serialize_unit_variant("MicroControlMessages", 0, "RequestState")
            }
            MicroControlMessages::RequestControllerState => {
                s.serialize_unit_variant("MicroControlMessages", 1, "RequestControllerState")
            }
            MicroControlMessages::SetOutput(list) => {
                let list: Vec<WireOutput> = list.iter().map(|o| WireOutput(*o)).collect();
                s.serialize_newtype_variant("MicroControlMessages", 2, "SetOutput", &list)
            }
        }
    }
}

struct WireState(State);

impl Serialize for WireState {
    fn serialize<S: Serializer>(&self, s: S) -> Result<S::Ok, S::Error> {
        let mut fields = s.serialize_struct("State", 6)?;
        fields.serialize_field("starboard_light", &self.0.starboard_light)?;
        fields.serialize_field("port_lights", &self.0.port_lights)?;
        fields.serialize_field("starboard_power", &self.0.starboard_power)?;
        fields.serialize_field("port_power", &self.0.port_power)?;
        fields.serialize_field("starboard_throttle", &self.0.starboard_throttle)?;
        fields.serialize_field("port_throttle", &self.0.port_throttle)?;
        fields.end()
    }
}

struct WireControllerState(ControllerState);

impl Serialize for WireControllerState {
    fn serialize<S: Serializer>(&self, s: S) -> Result<S::Ok, S::Error> {
        let mut fields = s.serialize_struct("ControllerState", 4)?;
        fields.serialize_field("overridden", &self.0.overridden)?;
        fields.serialize_field("throttle", &self.0.throttle)?;
        fields.serialize_field("turn", &self.0.turn)?;
        fields.serialize_field("switch", &self.0.switch)?;
        fields.end()
    }
}

struct WireStatus(MicroStatusMessages);

impl Serialize for WireStatus {
    fn serialize<S: Serializer>(&self, s: S) -> Result<S::Ok, S::Error> {
        match &self.0 {
            MicroStatusMessages::State(state) => {
                s.serialize_newtype_variant("MicroStatusMessages", 0, "State", &WireState(*state))
            }
            MicroStatusMessages::ControllerState(state) => s.serialize_newtype_variant(
                "MicroStatusMessages",
                1,
                "ControllerState",
                &WireControllerState(*state),
            ),
            MicroStatusMessages::Debug(payload) => {
                s.serialize_newtype_variant("MicroStatusMessages", 2, "Debug", payload)
            }
        }
    }
}

struct WireImu(ImuMessages);

impl Serialize for WireImu {
    fn serialize<S: Serializer>(&self, s: S) -> Result<S::Ok, S::Error> {
        let ImuMessages::Imu(ax, ay, az, gx, gy, gz, mx, my, mz) = self.0;
        let mut fields = s.serialize_tuple_variant("ImuMessages", 0, "Imu", 9)?;
        for bits in [ax, ay, az, gx, gy, gz, mx, my, mz] {
            fields.serialize_field(&f32::from_bits(bits))?;
        }
        fields.end()
    }
}

fn controls() -> Vec<MicroControlMessages> {
    vec![
        MicroControlMessages::RequestState,
        MicroControlMessages::RequestControllerState,
        MicroControlMessages::SetOutput(vec![]),
        MicroControlMessages::SetOutput(vec![
            Output::StarboardLight(true),
            Output::PortLight(false),
            Output::StarboardPower(true),
            Output::PortPower(false),
            Output::StarboardThrottle(-128),
            Output::PortThrottle(127),
            Output::PortThrottle(-1),
        ]),
        MicroControlMessages::SetOutput(vec![Output::StarboardThrottle(3); 200]),
    ]
}

fn statuses() -> Vec<MicroStatusMessages> {
    vec![
        MicroStatusMessages::State(State {
            starboard_light: true,
            port_lights: false,
            starboard_power: false,
            port_power: true,
            starboard_throttle: 255,
            port_throttle: 128,
        }),
        MicroStatusMessages::ControllerState(ControllerState {
            overridden: true,
            throttle: 0,
            turn: 127,
            switch: 128,
        }),
        MicroStatusMessages::ControllerState(ControllerState {
            overridden: false,
            throttle: 16383,
            turn: 16384,
            switch: 65535,
        }),
        MicroStatusMessages::Debug(vec![]),
        MicroStatusMessages::Debug((0..200).collect()),
    ]
}

#[test]
fn control_bytes_are_those_of_postcard() {
    for message in controls() {
        let ours = write_control(&message);
        let theirs = postcard::to_allocvec(&WireControl(message)).unwrap();
        assert_eq!(ours, theirs);
    }
}

#[test]
fn status_bytes_are_those_of_postcard() {
    for message in statuses() {
        let ours = write_status(&message);
        let theirs = postcard::to_allocvec(&WireStatus(message)).unwrap();
        assert_eq!(ours, theirs);
    }
}

#[test]
fn sensor_bytes_are_those_of_postcard() {
    let message = ImuMessages::Imu(
        0.25f32.to_bits(),
        (-1.0f32).to_bits(),
        9.81f32.to_bits(),
        123.456f32.to_bits(),
        0.0f32.to_bits(),
        (-0.0f32).to_bits(),
        47.5f32.to_bits(),
        f32::MAX.to_bits(),
        f32::EPSILON.to_bits(),
    );
    let ours = write_imu(&message);
    let theirs = postcard::to_allocvec(&WireImu(message)).unwrap();
    assert_eq!(ours, theirs);
    assert_eq!(read_imu(&theirs), Parsed::Done { value: message, next: 37 });
}

#[test]
fn messages_written_by_postcard_are_read() {
    for message in controls() {
        let theirs = postcard::to_allocvec(&WireControl(message.clone())).unwrap();
        let len = theirs.len();
        assert_eq!(read_control(&theirs), Parsed::Done { value: message, next: len });
    }
    for message in statuses() {
        let theirs = postcard::to_allocvec(&WireStatus(message.clone())).unwrap();
        let len = theirs.len();
        assert_eq!(read_status(&theirs), Parsed::Done { value: message, next: len });
    }
}

#[test]
fn postcard_reads_the_fields_we_write() {
    let readings = ControllerState { overridden: true, throttle: 1000, turn: 70, switch: 6001 };
    let bytes = write_status(&MicroStatusMessages::ControllerState(readings));
    let fields: (u32, bool, u16, u16, u16) = postcard::from_bytes(&bytes).unwrap();
    assert_eq!(fields, (1, true, 1000, 70, 6001));
    let bytes = write_status(&MicroStatusMessages::Debug(vec![5, 6, 7]));
    let fields: (u32, Vec<u8>) = postcard::from_bytes(&bytes).unwrap();
    assert_eq!(fields, (2, vec![5, 6, 7]));
    let bytes = write_control(&MicroControlMessages::SetOutput(vec![
        Output::PortThrottle(-7),
        Output::PortThrottle(7),
    ]));
    let fields: (u32, Vec<(u32, i8)>) = postcard::from_bytes(&bytes).unwrap();
    assert_eq!(fields, (2, vec![(5, -7), (5, 7)]));
}

#[test]
fn numbers_are_those_of_postcard() {
    for v in [0u64, 1, 127, 128, 300, 16383, 16384, 65535, 65536, u32::MAX as u64, u64::MAX] {
        let mut ours = Vec::new();
        write_varint(&mut ours, v);
        assert_eq!(ours, postcard::to_allocvec(&v).unwrap());
    }
    for v in [0u16, 127, 128, 16383, 16384, 65535] {
        let mut ours = Vec::new();
        write_varint(&mut ours, v as u64);
        assert_eq!(ours, postcard::to_allocvec(&v).unwrap());
    }
}

#[test]
fn what_postcard_refuses_we_refuse_alike() {
    let short: [&[u8]; 4] = [&[], &[0x80], &[0xff, 0xff], &[0x80, 0x80]];
    for bytes in short {
        assert_eq!(
            postcard::from_bytes::<u16>(bytes),
            Err(postcard::Error::DeserializeUnexpectedEnd)
        );
        assert_eq!(read_u16(bytes, 0), Parsed::Incomplete);
    }
    let bad16: [&[u8]; 3] = [&[0xff, 0xff, 0x04], &[0x80, 0x80, 0x80], &[0x80, 0x80, 0x80, 0x00]];
    for bytes in bad16 {
        assert_eq!(postcard::from_bytes::<u16>(bytes), Err(postcard::Error::DeserializeBadVarint));
        assert_eq!(read_u16(bytes, 0), Parsed::Failed);
    }
    let bad32: [&[u8]; 2] = [&[0xff, 0xff, 0xff, 0xff, 0x10], &[0x80, 0x80, 0x80, 0x80, 0x80]];
    for bytes in bad32 {
        assert_eq!(postcard::from_bytes::<u32>(bytes), Err(postcard::Error::DeserializeBadVarint));
        assert_eq!(read_u32(bytes, 0), Parsed::Failed);
    }
    let bad64: [&[u8]; 1] = [&[0xff, 0xff, 0xff, 0xff, 0xff, 0xff, 0xff, 0xff, 0xff, 0x02]];
    for bytes in bad64 {
        assert_eq!(postcard::from_bytes::<u64>(bytes), Err(postcard::Error::DeserializeBadVarint));
        assert_eq!(read_u64(bytes, 0), Parsed::Failed);
    }
    assert_eq!(postcard::from_bytes::<u16>(&[0x80, 0x00]), Ok(0));
    assert_eq!(postcard::from_bytes::<u16>(&[0xff, 0xff, 0x03]), Ok(65535));
    assert_eq!(postcard::from_bytes::<bool>(&[2]), Err(postcard::Error::DeserializeBadBool));
    assert_eq!(read_status(&[0, 2]), Parsed::Failed);
    assert_eq!(
        postcard::from_bytes::<(u32, bool)>(&[0]),
        Err(postcard::Error::DeserializeUnexpectedEnd)
    );
    assert_eq!(read_status(&[0]), Parsed::Incomplete);
}

#[test]
fn a_list_too_long_for_its_receiver_is_refused_alike() {
    for count in [0usize, 1, 7, 8, 9] {
        let set = MicroControlMessages::SetOutput(vec![Output::PortLight(true); count]);
        let bytes = write_control(&set);
        let theirs = postcard::from_bytes::<(u32, heapless::Vec<(u32, bool), 7>)>(&bytes);
        let ours = read_control_within(&bytes, 7);
        if count <= 7 {
            assert_eq!(theirs.map(|fields| fields.1.len()), Ok(count));
            assert_eq!(ours, Parsed::Done { value: set, next: bytes.len() });
        } else {
            assert_eq!(theirs, Err(postcard::Error::SerdeDeCustom));
            assert_eq!(ours, Parsed::Invalid);
        }
    }
    let long = write_control(&MicroControlMessages::SetOutput(vec![Output::PortLight(true); 9]));
    let cut = &long[..2 + 2 * 8 - 1];
    assert_eq!(
        postcard::from_bytes::<(u32, heapless::Vec<(u32, bool), 7>)>(cut),
        Err(postcard::Error::DeserializeUnexpectedEnd)
    );
    assert_eq!(read_control_within(cut, 7), Parsed::Incomplete);
    let cut = &long[..2 + 2 * 8];
    assert_eq!(
        postcard::from_bytes::<(u32, heapless::Vec<(u32, bool), 7>)>(cut),
        Err(postcard::Error::SerdeDeCustom)
    );
    assert_eq!(read_control_within(cut, 7), Parsed::Invalid);
}
