//! The messages that the host and the propulsion controller exchange over
//! their serial link.
use vstd::prelude::*;

verus! {

/// One output of the propulsion controller, with the level to set it to.
#[derive(Clone, Copy, Debug, PartialEq, Eq, Structural)]
pub enum Output {
    StarboardLight(bool),
    PortLight(bool),
    StarboardPower(bool),
    PortPower(bool),
    /// Throttle of the starboard motor, from full astern to full ahead.
    StarboardThrottle(i8),
    /// Throttle of the port motor, from full astern to full ahead.
    PortThrottle(i8),
}

/// The levels of all outputs.
#[derive(Clone, Copy, Debug, PartialEq, Eq, Structural)]
pub struct State {
    pub starboard_light: bool,
    pub port_lights: bool,
    pub starboard_power: bool,
    pub port_power: bool,
    pub starboard_throttle: u8,
    pub port_throttle: u8,
}

/// The raw readings of the radio control's sticks and of its override
/// switch.
#[derive(Clone, Copy, Debug, PartialEq, Eq, Structural)]
pub struct ControllerState {
    pub overridden: bool,
    pub throttle: u16,
    pub turn: u16,
    pub switch: u16,
}

/// What the host sends to the controller.
#[derive(Clone, Debug, PartialEq, Eq)]
pub enum MicroControlMessages {
    RequestState,
    RequestControllerState,
    SetOutput(Vec<Output>),
}

/// A control message as a mathematical value.
pub enum ControlView {
    RequestState,
    RequestControllerState,
    SetOutput(Seq<Output>),
}

impl View for MicroControlMessages {
    type V = ControlView;

    open spec fn view(&self) -> ControlView {
        match self {
            MicroControlMessages::RequestState => ControlView::RequestState,
            MicroControlMessages::RequestControllerState => ControlView::RequestControllerState,
            MicroControlMessages::SetOutput(list) => ControlView::SetOutput(list@),
        }
    }
}

/// What the controller sends to the host.
#[derive(Clone, Debug, PartialEq, Eq)]
pub enum MicroStatusMessages {
    State(State),
    ControllerState(ControllerState),
    Debug(Vec<u8>),
}

/// A status message as a mathematical value.
pub enum StatusView {
    State(State),
    ControllerState(ControllerState),
    Debug(Seq<u8>),
}

impl View for MicroStatusMessages {
    type V = StatusView;

    open spec fn view(&self) -> StatusView {
        match self {
            MicroStatusMessages::State(state) => StatusView::State(*state),
            MicroStatusMessages::ControllerState(state) => StatusView::ControllerState(*state),
            MicroStatusMessages::Debug(payload) => StatusView::Debug(payload@),
        }
    }
}

} // verus!
