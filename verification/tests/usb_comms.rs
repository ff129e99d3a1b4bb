use kingfisher::codec::{write_control, write_status};
use kingfisher::microcontroller_types::{MicroControlMessages, MicroStatusMessages, Output};
use kingfisher::usb_comms::{UsbComms, UsbCommsError, MAX_OUTPUTS, MAX_VEC_LENGTH};

fn feed(link: &mut UsbComms, bytes: &[u8]) {
    for b in bytes {
        assert_eq!(link.accept(*b), Ok(()));
    }
}

#[test]
fn a_new_link_has_nothing_to_give() {
    let mut link = UsbComms::new();
    assert_eq!(link.pending(), 0);
    assert_eq!(link.poll(), Err(UsbCommsError::NothingRead));
}

#[test]
fn poll_takes_a_message_and_its_bytes() {
    let mut link = UsbComms::new();
    feed(&mut link, &write_control(&MicroControlMessages::RequestState));
    assert_eq!(link.pending(), 1);
    assert_eq!(link.poll(), Ok(MicroControlMessages::RequestState));
    assert_eq!(link.pending(), 0);
    assert_eq!(link.poll(), Err(UsbCommsError::NothingRead));
}

#[test]
fn poll_keeps_the_bytes_behind_a_message() {
    let mut link = UsbComms::new();
    let set = MicroControlMessages::SetOutput(vec![
        Output::StarboardThrottle(50),
        Output::PortLight(true),
    ]);
    feed(&mut link, &write_control(&MicroControlMessages::RequestControllerState));
    feed(&mut link, &write_control(&set));
    feed(&mut link, &[2, 3]);
    assert_eq!(link.poll(), Ok(MicroControlMessages::RequestControllerState));
    assert_eq!(link.pending(), 8);
    assert_eq!(link.poll(), Ok(set));
    assert_eq!(link.pending(), 2);
    assert_eq!(link.poll(), Err(UsbCommsError::ParseError));
    assert_eq!(link.pending(), 2);
}

#[test]
fn poll_waits_for_the_rest_of_a_message() {
    let mut link = UsbComms::new();
    let set = MicroControlMessages::SetOutput(vec![Output::PortPower(false)]);
    let bytes = write_control(&set);
    for (i, b) in bytes.iter().enumerate() {
        assert_eq!(link.accept(*b), Ok(()));
        if i + 1 < bytes.len() {
            assert_eq!(link.poll(), Err(UsbCommsError::ParseError));
            assert_eq!(link.pending(), i + 1);
        }
    }
    assert_eq!(link.poll(), Ok(set));
    assert_eq!(link.pending(), 0);
}

#[test]
fn poll_empties_the_buffer_on_bytes_that_are_no_message() {
    let mut link = UsbComms::new();
    feed(&mut link, &[7]);
    feed(&mut link, &write_control(&MicroControlMessages::RequestState));
    assert_eq!(link.poll(), Err(UsbCommsError::ParseError));
    assert_eq!(link.pending(), 0);

    feed(&mut link, &[2, 1, 0, 9]);
    assert_eq!(link.poll(), Err(UsbCommsError::ParseError));
    assert_eq!(link.pending(), 0);
}

#[test]
fn the_byte_that_fills_the_buffer_empties_it() {
    let mut link = UsbComms::new();
    for _ in 0..MAX_VEC_LENGTH - 1 {
        assert_eq!(link.accept(0x80), Ok(()));
    }
    assert_eq!(link.pending(), 99);
    assert_eq!(link.accept(0x80), Err(UsbCommsError::BufferOverflow));
    assert_eq!(link.pending(), 0);
    assert_eq!(link.accept(0x00), Ok(()));
    assert_eq!(link.poll(), Ok(MicroControlMessages::RequestState));
}

#[test]
fn write_packet_gives_the_bytes_for_the_wire() {
    let link = UsbComms::new();
    let debug = MicroStatusMessages::Debug(vec![0xaa; 98]);
    let bytes = link.write_packet(&debug).unwrap();
    assert_eq!(bytes.len(), 100);
    assert_eq!(bytes, write_status(&debug));
}

#[test]
fn write_packet_refuses_a_message_that_is_too_long() {
    let link = UsbComms::new();
    let debug = MicroStatusMessages::Debug(vec![0xaa; 99]);
    assert_eq!(link.write_packet(&debug), Err(UsbCommsError::DecodeError));
}

#[test]
fn a_list_of_seven_outputs_is_taken() {
    assert_eq!(MAX_OUTPUTS, 7);
    let mut link = UsbComms::new();
    let set = MicroControlMessages::SetOutput(vec![Output::PortLight(true); 7]);
    feed(&mut link, &write_control(&set));
    assert_eq!(link.poll(), Ok(set));
    assert_eq!(link.pending(), 0);
}

#[test]
fn a_list_of_eight_outputs_empties_the_buffer() {
    let mut link = UsbComms::new();
    let set = MicroControlMessages::SetOutput(vec![Output::PortLight(true); 8]);
    feed(&mut link, &write_control(&set));
    feed(&mut link, &write_control(&MicroControlMessages::RequestState));
    assert_eq!(link.poll(), Err(UsbCommsError::ParseError));
    assert_eq!(link.pending(), 0);
}

#[test]
fn a_list_that_is_too_long_is_told_at_its_eighth_output() {
    let mut link = UsbComms::new();
    let set = MicroControlMessages::SetOutput(vec![Output::StarboardThrottle(1); 20]);
    let bytes = write_control(&set);
    feed(&mut link, &bytes[..2 + 2 * 8 - 1]);
    assert_eq!(link.poll(), Err(UsbCommsError::ParseError));
    assert_eq!(link.pending(), 17);
    feed(&mut link, &bytes[17..18]);
    assert_eq!(link.poll(), Err(UsbCommsError::ParseError));
    assert_eq!(link.pending(), 0);
}
