//! The propulsion controller's answers to control messages. The controller
//! keeps the levels of its outputs and nothing else; what it does with a
//! throttle command depends on the override switch of the radio control.
use crate::microcontroller_types::{
    ControllerState, MicroControlMessages, MicroStatusMessages, Output, State,
};
use vstd::prelude::*;

verus! {

/// Reading of the override switch above which the host may set the
/// throttles.
pub const OVERRIDE_SWITCH_ON: u16 = 6000;

/// Prescaler of the timer that drives the millisecond counter.
pub const PRESCALER: u32 = 1024;

/// Counts of that timer between two ticks.
pub const TIMER_COUNTS: u32 = 125;

/// Milliseconds that pass between two ticks, at a clock of 16 MHz.
pub const MILLIS_INCREMENT: u32 = 8;

/// Milliseconds between two changes of the heartbeat indicator.
pub const HEARTBEAT_INTERVAL: u32 = 1000;

/// One reading of the radio control's three analog inputs.
#[derive(Clone, Copy, Debug, PartialEq, Eq, Structural)]
pub struct Inputs {
    pub throttle: u16,
    pub turn: u16,
    pub switch: u16,
}

/// Whether a reading of the override switch hands the throttles to the host.
pub open spec fn overridden(switch: u16) -> bool {
    switch > OVERRIDE_SWITCH_ON
}

/// The duty that a throttle level is set as: the level moved up by 127.
/// The one level below the range, -128, comes out as 255.
pub open spec fn duty_of(level: i8) -> u8 {
    if level == -128 {
        255
    } else {
        (level + 127) as u8
    }
}

/// The levels after one output was applied under a reading of the
/// override switch. Lights and power relays are always set. A throttle is
/// set only if the switch hands the throttles to the host, and is left as
/// it was otherwise.
pub open spec fn applied(state: State, output: Output, switch: u16) -> State {
    match output {
        Output::StarboardLight(on) => State { starboard_light: on, ..state },
        Output::PortLight(on) => State { port_lights: on, ..state },
        Output::StarboardPower(on) => State { starboard_power: on, ..state },
        Output::PortPower(on) => State { port_power: on, ..state },
        Output::StarboardThrottle(level) => if overridden(switch) {
            State { starboard_throttle: duty_of(level), ..state }
        } else {
            state
        },
        Output::PortThrottle(level) => if overridden(switch) {
            State { port_throttle: duty_of(level), ..state }
        } else {
            state
        },
    }
}

/// The levels after a list of outputs was applied in its order, all under
/// one reading of the override switch.
pub open spec fn applied_all(state: State, outputs: Seq<Output>, switch: u16) -> State
    decreases outputs.len(),
{
    if outputs.len() == 0 {
        state
    } else {
        applied(applied_all(state, outputs.drop_last(), switch), outputs.last(), switch)
    }
}

/// The status that answers a request for the radio control's readings.
pub open spec fn controller_state_of(inputs: Inputs) -> ControllerState {
    ControllerState {
        overridden: overridden(inputs.switch),
        throttle: inputs.throttle,
        turn: inputs.turn,
        switch: inputs.switch,
    }
}

/// Whether a reading of the override switch hands the throttles to the host.
pub fn is_overridden(switch: u16) -> (yes: bool)
    ensures
        yes == overridden(switch),
{
    switch > OVERRIDE_SWITCH_ON
}

/// The duty for a throttle level.
pub fn throttle_duty(level: i8) -> (duty: u8)
    ensures
        duty == duty_of(level),
{
    let shifted: i16 = (level as i16) + 127;
    if shifted < 0 {
        255
    } else {
        shifted as u8
    }
}

/// The propulsion controller: the levels of its outputs.
pub struct Controller {
    outputs: State,
}

impl Controller {
    /// The levels of the outputs.
    pub closed spec fn levels(&self) -> State {
        self.outputs
    }

    /// A controller with every output off and both throttles at duty 0.
    pub fn new() -> (controller: Self)
        ensures
            controller.levels() == (State {
                starboard_light: false,
                port_lights: false,
                starboard_power: false,
                port_power: false,
                starboard_throttle: 0,
                port_throttle: 0,
            }),
    {
        Controller {
            outputs: State {
                starboard_light: false,
                port_lights: false,
                starboard_power: false,
                port_power: false,
                starboard_throttle: 0,
                port_throttle: 0,
            },
        }
    }

    /// The levels of the outputs as they are now.
    pub fn state(&self) -> (state: State)
        ensures
            state == self.levels(),
    {
        self.outputs
    }

    /// Applies one output under the reading `switch` of the override switch,
    /// taken at this moment.
    pub fn apply_output(&mut self, output: Output, switch: u16)
        ensures
            final(self).levels() == applied(old(self).levels(), output, switch),
    {
        match output {
            Output::StarboardLight(on) => {
                self.outputs.starboard_light = on;
            },
            Output::PortLight(on) => {
                self.outputs.port_lights = on;
            },
            Output::StarboardPower(on) => {
                self.outputs.starboard_power = on;
            },
            Output::PortPower(on) => {
                self.outputs.port_power = on;
            },
            Output::StarboardThrottle(level) => {
                if is_overridden(switch) {
                    self.outputs.starboard_throttle = throttle_duty(level);
                }
            },
            Output::PortThrottle(level) => {
                if is_overridden(switch) {
                    self.outputs.port_throttle = throttle_duty(level);
                }
            },
        }
    }

    /// Applies a list of outputs in its order, all under one reading of
    /// the override switch.
    pub fn set_outputs(&mut self, outputs: &Vec<Output>, switch: u16)
        ensures
            final(self).levels() == applied_all(old(self).levels(), outputs@, switch),
    {
        let mut i: usize = 0;
        assert(outputs@.take(0) =~= Seq::<Output>::empty());
        while i < outputs.len()
            invariant
                i <= outputs@.len(),
                self.levels() == applied_all(old(self).levels(), outputs@.take(i as int), switch),
            decreases outputs@.len() - i,
        {
            self.apply_output(outputs[i], switch);
            proof {
                let upto = outputs@.take(i + 1);
                assert(upto.drop_last() =~= outputs@.take(i as int));
                assert(upto.last() == outputs@[i as int]);
            }
            i = i + 1;
        }
        assert(outputs@.take(i as int) =~= outputs@);
    }

    /// Answers one control message. `inputs` are the readings of the radio
    /// control taken for this message. A request is answered with a
    /// status; outputs are set without an answer.
    pub fn handle(&mut self, request: &MicroControlMessages, inputs: Inputs) -> (answer: Option<
        MicroStatusMessages,
    >)
        ensures
            match request@ {
                crate::microcontroller_types::ControlView::RequestControllerState => {
                    &&& final(self).levels() == old(self).levels()
                    &&& answer matches Some(MicroStatusMessages::ControllerState(state))
                    &&& answer->0->ControllerState_0 == controller_state_of(inputs)
                },
                crate::microcontroller_types::ControlView::RequestState => {
                    &&& final(self).levels() == old(self).levels()
                    &&& answer matches Some(MicroStatusMessages::State(state))
                    &&& answer->0->State_0 == old(self).levels()
                },
                crate::microcontroller_types::ControlView::SetOutput(list) => {
                    &&& final(self).levels() == applied_all(
                        old(self).levels(),
                        list,
                        inputs.switch,
                    )
                    &&& answer is None
                },
            },
    {
        match request {
            MicroControlMessages::RequestControllerState => {
                Some(
                    MicroStatusMessages::ControllerState(
                        ControllerState {
                            overridden: is_overridden(inputs.switch),
                            throttle: inputs.throttle,
                            turn: inputs.turn,
                            switch: inputs.switch,
                        },
                    ),
                )
            },
            MicroControlMessages::RequestState => Some(MicroStatusMessages::State(self.outputs)),
            MicroControlMessages::SetOutput(list) => {
                self.set_outputs(list, inputs.switch);
                None
            },
        }
    }
}

/// The override interlock: a command for one throttle alone changes that
/// throttle's duty if and only if the override switch reads above
/// `OVERRIDE_SWITCH_ON` when the command is applied. It then sets the
/// duty to the commanded level moved up by 127, and in either case leaves
/// every other level as it was.
pub proof fn lemma_override_gating(state: State, level: i8, switch: u16)
    ensures
        applied_all(state, seq![Output::StarboardThrottle(level)], switch) == if switch
            > OVERRIDE_SWITCH_ON {
            State { starboard_throttle: duty_of(level), ..state }
        } else {
            state
        },
        applied_all(state, seq![Output::PortThrottle(level)], switch) == if switch
            > OVERRIDE_SWITCH_ON {
            State { port_throttle: duty_of(level), ..state }
        } else {
            state
        },
        -127 <= level ==> duty_of(level) == level + 127,
{
    let starboard = seq![Output::StarboardThrottle(level)];
    assert(starboard.drop_last() =~= Seq::<Output>::empty());
    assert(applied_all(state, starboard.drop_last(), switch) == state);
    let port = seq![Output::PortThrottle(level)];
    assert(port.drop_last() =~= Seq::<Output>::empty());
    assert(applied_all(state, port.drop_last(), switch) == state);
}

/// A light or a power relay is set whatever the override switch reads.
pub proof fn lemma_switches_not_gated(state: State, output: Output, low: u16, high: u16)
    requires
        !(output is StarboardThrottle),
        !(output is PortThrottle),
    ensures
        applied(state, output, low) == applied(state, output, high),
{
}

/// The millisecond counter that the timer interrupt advances and the main
/// loop reads. The count is reached through `tick` and `read` alone.
pub struct MillisCounter {
    millis: u32,
}

impl MillisCounter {
    /// The milliseconds counted, modulo `2^32`.
    pub closed spec fn count(&self) -> u32 {
        self.millis
    }

    /// A counter at zero.
    pub fn new() -> (counter: Self)
        ensures
            counter.count() == 0,
    {
        MillisCounter { millis: 0 }
    }

    /// One tick of the timer: the count goes up by `MILLIS_INCREMENT` and
    /// wraps at `2^32`.
    pub fn tick(&mut self)
        ensures
            final(self).count() == (old(self).count() + MILLIS_INCREMENT) % 0x1_0000_0000,
    {
        self.millis = if self.millis > u32::MAX - MILLIS_INCREMENT {
            self.millis - (u32::MAX - MILLIS_INCREMENT) - 1
        } else {
            self.millis + MILLIS_INCREMENT
        };
    }

    /// The count as it is now.
    pub fn read(&self) -> (now: u32)
        ensures
            now == self.count(),
    {
        self.millis
    }
}

/// The heartbeat indicator's schedule.
pub struct Heartbeat {
    next_switch_time: u32,
}

impl Heartbeat {
    /// The count after which the indicator changes next.
    pub closed spec fn due(&self) -> u32 {
        self.next_switch_time
    }

    /// A schedule whose first change is due once the count has passed zero.
    pub fn new() -> (heartbeat: Self)
        ensures
            heartbeat.due() == 0,
    {
        Heartbeat { next_switch_time: 0 }
    }

    /// Whether the indicator changes at the count `now`. It does once the
    /// count has passed the due time, which then moves on by
    /// `HEARTBEAT_INTERVAL` and wraps at `2^32`.
    pub fn poll(&mut self, now: u32) -> (toggle: bool)
        ensures
            toggle == (now > old(self).due()),
            final(self).due() == if toggle {
                ((old(self).due() + HEARTBEAT_INTERVAL) % 0x1_0000_0000) as u32
            } else {
                old(self).due()
            },
    {
        if now > self.next_switch_time {
            self.next_switch_time = if self.next_switch_time > u32::MAX - HEARTBEAT_INTERVAL {
                self.next_switch_time - (u32::MAX - HEARTBEAT_INTERVAL) - 1
            } else {
                self.next_switch_time + HEARTBEAT_INTERVAL
            };
            true
        } else {
            false
        }
    }
}

} // verus!
