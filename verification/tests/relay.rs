use kingfisher::microcontroller_types::{MicroControlMessages, MicroStatusMessages, Output};
use kingfisher::packet_codec::CodecError;
use kingfisher::relay::{relay_step, RelayAction, RelayEvent};
use std::future::Future;
use std::task::{Context, Poll};

type Event = RelayEvent<MicroStatusMessages, MicroControlMessages>;

fn transmitted(action: RelayAction<MicroStatusMessages, MicroControlMessages>) -> Option<MicroControlMessages> {
    match action {
        RelayAction::Transmit(message) => Some(message),
        _ => None,
    }
}

fn delivered(action: RelayAction<MicroStatusMessages, MicroControlMessages>) -> Option<MicroStatusMessages> {
    match action {
        RelayAction::Deliver(message) => Some(message),
        _ => None,
    }
}

#[test]
fn a_message_for_the_link_is_transmitted() {
    let event: Event = RelayEvent::Outbound(Some(MicroControlMessages::RequestState));
    assert_eq!(transmitted(relay_step(event)), Some(MicroControlMessages::RequestState));
}

#[test]
fn a_message_from_the_link_is_delivered() {
    let event: Event = RelayEvent::Inbound(Some(Ok(MicroStatusMessages::Debug(vec![1]))));
    assert_eq!(delivered(relay_step(event)), Some(MicroStatusMessages::Debug(vec![1])));
}

#[test]
fn bytes_that_are_no_message_are_noted() {
    let event: Event = RelayEvent::Inbound(Some(Err(CodecError::Decoding)));
    assert!(matches!(relay_step(event), RelayAction::Note(CodecError::Decoding)));
}

#[test]
fn a_closed_end_leaves_the_relay_waiting() {
    let event: Event = RelayEvent::Outbound(None);
    assert!(matches!(relay_step(event), RelayAction::Idle));
    let event: Event = RelayEvent::Inbound(None);
    assert!(matches!(relay_step(event), RelayAction::Idle));
}

#[test]
fn each_direction_keeps_its_order() {
    let events: Vec<Event> = vec![
        RelayEvent::Outbound(Some(MicroControlMessages::RequestState)),
        RelayEvent::Inbound(Some(Ok(MicroStatusMessages::Debug(vec![1])))),
        RelayEvent::Inbound(Some(Err(CodecError::Decoding))),
        RelayEvent::Outbound(Some(MicroControlMessages::SetOutput(vec![Output::PortLight(true)]))),
        RelayEvent::Inbound(Some(Ok(MicroStatusMessages::Debug(vec![2])))),
        RelayEvent::Outbound(None),
    ];
    let mut to_link = Vec::new();
    let mut to_host = Vec::new();
    for event in events {
        match relay_step(event) {
            RelayAction::Transmit(message) => to_link.push(message),
            RelayAction::Deliver(message) => to_host.push(message),
            RelayAction::Note(_) | RelayAction::Idle => {}
        }
    }
    assert_eq!(
        to_link,
        vec![
            MicroControlMessages::RequestState,
            MicroControlMessages::SetOutput(vec![Output::PortLight(true)]),
        ]
    );
    assert_eq!(
        to_host,
        vec![MicroStatusMessages::Debug(vec![1]), MicroStatusMessages::Debug(vec![2])]
    );
}

#[test]
fn a_full_queue_of_one_suspends_the_second_send() {
    let (sender, mut receiver) = tokio::sync::mpsc::channel::<MicroControlMessages>(1);
    let waker = futures::task::noop_waker();
    let mut context = Context::from_waker(&waker);

    let mut first = Box::pin(sender.send(MicroControlMessages::RequestState));
    assert!(matches!(first.as_mut().poll(&mut context), Poll::Ready(Ok(()))));

    let mut second = Box::pin(sender.send(MicroControlMessages::RequestControllerState));
    assert!(second.as_mut().poll(&mut context).is_pending());
    assert!(second.as_mut().poll(&mut context).is_pending());

    assert_eq!(receiver.try_recv().ok(), Some(MicroControlMessages::RequestState));
    assert!(matches!(second.as_mut().poll(&mut context), Poll::Ready(Ok(()))));
    assert_eq!(receiver.try_recv().ok(), Some(MicroControlMessages::RequestControllerState));
    assert!(receiver.try_recv().is_err());
}
