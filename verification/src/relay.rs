//! The relay between a serial link and the rest of the host. The relay
//! waits for whichever comes first, a message from the link or a message
//! for the link, passes it on, and waits again. It keeps nothing between
//! two messages, so each direction keeps its own order and neither holds
//! up the other.
use crate::packet_codec::CodecError;
use vstd::prelude::*;

verus! {

/// What the relay was woken by. `In` is a message from the link, `Out` a
/// message for the link.
pub enum RelayEvent<In, Out> {
    /// The queue of messages for the link gave a message, or is closed.
    Outbound(Option<Out>),
    /// The link gave a message or bytes that are none, or is closed.
    Inbound(Option<Result<In, CodecError>>),
}

/// What the relay does about it.
pub enum RelayAction<In, Out> {
    /// Write the message to the link.
    Transmit(Out),
    /// Hand the message to the host's side.
    Deliver(In),
    /// Note that the link gave bytes that are no message, and go on.
    Note(CodecError),
    /// Go on waiting.
    Idle,
}

/// The relay's answer to an event.
pub open spec fn relayed<In, Out>(event: RelayEvent<In, Out>) -> RelayAction<In, Out> {
    match event {
        RelayEvent::Outbound(Some(message)) => RelayAction::Transmit(message),
        RelayEvent::Outbound(None) => RelayAction::Idle,
        RelayEvent::Inbound(Some(Ok(message))) => RelayAction::Deliver(message),
        RelayEvent::Inbound(Some(Err(error))) => RelayAction::Note(error),
        RelayEvent::Inbound(None) => RelayAction::Idle,
    }
}

/// Decides what to do about one event.
pub fn relay_step<In, Out>(event: RelayEvent<In, Out>) -> (action: RelayAction<In, Out>)
    ensures
        action == relayed(event),
{
    match event {
        RelayEvent::Outbound(Some(message)) => RelayAction::Transmit(message),
        RelayEvent::Outbound(None) => RelayAction::Idle,
        RelayEvent::Inbound(Some(Ok(message))) => RelayAction::Deliver(message),
        RelayEvent::Inbound(Some(Err(error))) => RelayAction::Note(error),
        RelayEvent::Inbound(None) => RelayAction::Idle,
    }
}

/// The messages that a run of events hands to the host's side, in order.
pub open spec fn delivered<In, Out>(events: Seq<RelayEvent<In, Out>>) -> Seq<In>
    decreases events.len(),
{
    if events.len() == 0 {
        Seq::empty()
    } else {
        let before = delivered(events.drop_last());
        match relayed(events.last()) {
            RelayAction::Deliver(message) => before.push(message),
            _ => before,
        }
    }
}

/// The messages that a run of events writes to the link, in order.
pub open spec fn transmitted<In, Out>(events: Seq<RelayEvent<In, Out>>) -> Seq<Out>
    decreases events.len(),
{
    if events.len() == 0 {
        Seq::empty()
    } else {
        let before = transmitted(events.drop_last());
        match relayed(events.last()) {
            RelayAction::Transmit(message) => before.push(message),
            _ => before,
        }
    }
}

/// The two directions do not touch: an event of one direction adds
/// nothing to the other, and adds its own message, if it has one, behind
/// all earlier ones.
pub proof fn lemma_directions_independent<In, Out>(
    events: Seq<RelayEvent<In, Out>>,
    event: RelayEvent<In, Out>,
)
    ensures
        event is Outbound ==> delivered(events.push(event)) == delivered(events),
        event is Inbound ==> transmitted(events.push(event)) == transmitted(events),
        event matches RelayEvent::Outbound(Some(message)) ==> transmitted(events.push(event))
            == transmitted(events).push(message),
        event matches RelayEvent::Inbound(Some(Ok(message))) ==> delivered(events.push(event))
            == delivered(events).push(message),
{
    assert(events.push(event).drop_last() =~= events);
    assert(events.push(event).last() == event);
}

} // verus!
