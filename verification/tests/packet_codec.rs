use bytes::BytesMut;
use kingfisher::codec::{write_control, write_imu, write_status};
use kingfisher::imu_types::ImuMessages;
use kingfisher::microcontroller_types::{
    ControllerState, MicroControlMessages, MicroStatusMessages, Output, State,
};
use kingfisher::packet_codec::{CodecError, ImuPacketCodec, MicroPacketCodec, MICRO_CAPACITY};

fn imu() -> ImuMessages {
    ImuMessages::Imu(
        0.5f32.to_bits(),
        1.5f32.to_bits(),
        (-9.81f32).to_bits(),
        4.0f32.to_bits(),
        5.0f32.to_bits(),
        6.0f32.to_bits(),
        7.0f32.to_bits(),
        8.0f32.to_bits(),
        9.0f32.to_bits(),
    )
}

fn state() -> MicroStatusMessages {
    MicroStatusMessages::State(State {
        starboard_light: false,
        port_lights: true,
        starboard_power: false,
        port_power: true,
        starboard_throttle: 127,
        port_throttle: 254,
    })
}

#[test]
fn imu_decode_takes_the_message_and_drains_the_buffer() {
    let mut codec = ImuPacketCodec;
    let mut src = BytesMut::from(&write_imu(&imu())[..]);
    assert_eq!(codec.decode(&mut src), Ok(Some(imu())));
    assert!(src.is_empty());
    assert_eq!(codec.decode(&mut src), Ok(None));
}

#[test]
fn imu_decode_leaves_what_follows_the_message() {
    let mut codec = ImuPacketCodec;
    let mut src = BytesMut::new();
    src.extend_from_slice(&write_imu(&imu()));
    src.extend_from_slice(&write_imu(&imu())[..10]);
    assert_eq!(codec.decode(&mut src), Ok(Some(imu())));
    assert_eq!(&src[..], &write_imu(&imu())[..10]);
    assert_eq!(codec.decode(&mut src), Ok(None));
    assert_eq!(src.len(), 10);
}

#[test]
fn imu_decode_waits_while_bytes_arrive_one_by_one() {
    let mut codec = ImuPacketCodec;
    let bytes = write_imu(&imu());
    let mut src = BytesMut::new();
    for (i, b) in bytes.iter().enumerate() {
        src.extend_from_slice(&[*b]);
        if i + 1 < bytes.len() {
            assert_eq!(codec.decode(&mut src), Ok(None));
            assert_eq!(src.len(), i + 1);
        }
    }
    assert_eq!(codec.decode(&mut src), Ok(Some(imu())));
    assert!(src.is_empty());
}

#[test]
fn imu_decode_wipes_the_buffer_after_a_stray_byte() {
    let mut codec = ImuPacketCodec;
    let mut src = BytesMut::from(&[0x01u8][..]);
    src.extend_from_slice(&write_imu(&imu()));
    assert_eq!(codec.decode(&mut src), Ok(None));
    assert!(src.is_empty());
}

#[test]
fn imu_decode_reports_a_tag_that_is_no_number() {
    let mut codec = ImuPacketCodec;
    let mut src = BytesMut::from(&[0xffu8, 0xff, 0xff, 0xff, 0xff, 0x00, 0x01][..]);
    assert_eq!(codec.decode(&mut src), Err(CodecError::Decoding));
    assert!(src.is_empty());
}

#[test]
fn imu_encode_overwrites_the_send_buffer() {
    let mut codec = ImuPacketCodec;
    let mut dst = BytesMut::from(&b"stale"[..]);
    assert_eq!(codec.encode(imu(), &mut dst), Ok(()));
    assert_eq!(&dst[..], &write_imu(&imu())[..]);
}

#[test]
fn micro_decode_takes_status_messages_in_their_order() {
    let mut codec = MicroPacketCodec;
    let readings = MicroStatusMessages::ControllerState(ControllerState {
        overridden: true,
        throttle: 1023,
        turn: 512,
        switch: 6500,
    });
    let debug = MicroStatusMessages::Debug(b"hello".to_vec());
    let mut src = BytesMut::new();
    src.extend_from_slice(&write_status(&state()));
    src.extend_from_slice(&write_status(&readings));
    src.extend_from_slice(&write_status(&debug));
    assert_eq!(codec.decode(&mut src), Ok(Some(state())));
    assert_eq!(codec.decode(&mut src), Ok(Some(readings)));
    assert_eq!(codec.decode(&mut src), Ok(Some(debug)));
    assert!(src.is_empty());
    assert_eq!(codec.decode(&mut src), Ok(None));
}

#[test]
fn micro_decode_keeps_a_partial_message() {
    let mut codec = MicroPacketCodec;
    let bytes = write_status(&MicroStatusMessages::Debug(vec![1, 2, 3, 4]));
    let mut src = BytesMut::from(&bytes[..4]);
    assert_eq!(codec.decode(&mut src), Ok(None));
    assert_eq!(&src[..], &bytes[..4]);
    src.extend_from_slice(&bytes[4..]);
    assert_eq!(codec.decode(&mut src), Ok(Some(MicroStatusMessages::Debug(vec![1, 2, 3, 4]))));
    assert!(src.is_empty());
}

#[test]
fn micro_decode_wipes_the_buffer_after_an_unknown_tag() {
    let mut codec = MicroPacketCodec;
    let mut src = BytesMut::from(&[0x09u8][..]);
    src.extend_from_slice(&write_status(&state()));
    assert_eq!(codec.decode(&mut src), Ok(None));
    assert!(src.is_empty());
}

#[test]
fn micro_decode_reports_a_bad_flag_and_wipes_the_buffer() {
    let mut codec = MicroPacketCodec;
    let mut src = BytesMut::from(&[0x00u8, 0x02, 0, 0, 0, 0, 0][..]);
    src.extend_from_slice(&write_status(&state()));
    assert_eq!(codec.decode(&mut src), Err(CodecError::Decoding));
    assert!(src.is_empty());
}

#[test]
fn micro_encode_overwrites_the_send_buffer() {
    let mut codec = MicroPacketCodec;
    let message = MicroControlMessages::SetOutput(vec![Output::StarboardLight(true)]);
    let mut dst = BytesMut::from(&b"stale bytes"[..]);
    assert_eq!(codec.encode(message.clone(), &mut dst), Ok(()));
    assert_eq!(&dst[..], &write_control(&message)[..]);
    assert_eq!(&dst[..], &[2, 1, 0, 1]);
}

#[test]
fn micro_encode_takes_a_message_that_just_fits() {
    let mut codec = MicroPacketCodec;
    let message = MicroControlMessages::SetOutput(vec![Output::PortLight(true); 124]);
    assert_eq!(write_control(&message).len(), MICRO_CAPACITY);
    let mut dst = BytesMut::new();
    assert_eq!(codec.encode(message, &mut dst), Ok(()));
    assert_eq!(dst.len(), 250);
}

#[test]
fn micro_encode_refuses_a_message_that_is_too_long() {
    let mut codec = MicroPacketCodec;
    let message = MicroControlMessages::SetOutput(vec![Output::PortLight(true); 125]);
    let mut dst = BytesMut::from(&b"kept"[..]);
    assert_eq!(codec.encode(message, &mut dst), Err(CodecError::Encoding));
    assert_eq!(&dst[..], b"kept");
}
