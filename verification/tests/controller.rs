use kingfisher::controller::{
    is_overridden, throttle_duty, Controller, Heartbeat, Inputs, MillisCounter,
    HEARTBEAT_INTERVAL, MILLIS_INCREMENT, OVERRIDE_SWITCH_ON, PRESCALER, TIMER_COUNTS,
};
use kingfisher::microcontroller_types::{
    ControllerState, MicroControlMessages, MicroStatusMessages, Output, State,
};

const ALL_OFF: State = State {
    starboard_light: false,
    port_lights: false,
    starboard_power: false,
    port_power: false,
    starboard_throttle: 0,
    port_throttle: 0,
};

fn inputs(switch: u16) -> Inputs {
    Inputs { throttle: 512, turn: 400, switch }
}

#[test]
fn a_new_controller_has_everything_off() {
    assert_eq!(Controller::new().state(), ALL_OFF);
}

#[test]
fn the_switch_must_read_above_the_threshold() {
    assert_eq!(OVERRIDE_SWITCH_ON, 6000);
    assert!(!is_overridden(0));
    assert!(!is_overridden(6000));
    assert!(is_overridden(6001));
    assert!(is_overridden(u16::MAX));
}

#[test]
fn duty_is_the_level_moved_up_by_127() {
    assert_eq!(throttle_duty(-127), 0);
    assert_eq!(throttle_duty(0), 127);
    assert_eq!(throttle_duty(1), 128);
    assert_eq!(throttle_duty(127), 254);
    assert_eq!(throttle_duty(-128), 255);
}

#[test]
fn throttle_is_applied_when_the_switch_is_on() {
    let mut controller = Controller::new();
    let request = MicroControlMessages::SetOutput(vec![Output::StarboardThrottle(10)]);
    assert_eq!(controller.handle(&request, inputs(6001)), None);
    assert_eq!(controller.state(), State { starboard_throttle: 137, ..ALL_OFF });
}

#[test]
fn throttle_is_ignored_when_the_switch_is_off() {
    let mut controller = Controller::new();
    controller.apply_output(Output::PortThrottle(100), 7000);
    assert_eq!(controller.state().port_throttle, 227);
    let request = MicroControlMessages::SetOutput(vec![
        Output::StarboardThrottle(10),
        Output::PortThrottle(-100),
    ]);
    assert_eq!(controller.handle(&request, inputs(6000)), None);
    assert_eq!(controller.state(), State { port_throttle: 227, ..ALL_OFF });
}

#[test]
fn lights_and_relays_are_set_whatever_the_switch_reads() {
    let mut controller = Controller::new();
    let request = MicroControlMessages::SetOutput(vec![
        Output::StarboardLight(true),
        Output::PortLight(true),
        Output::StarboardPower(true),
        Output::PortPower(true),
        Output::PortThrottle(5),
    ]);
    assert_eq!(controller.handle(&request, inputs(0)), None);
    assert_eq!(
        controller.state(),
        State {
            starboard_light: true,
            port_lights: true,
            starboard_power: true,
            port_power: true,
            starboard_throttle: 0,
            port_throttle: 0,
        }
    );
    controller.set_outputs(&vec![Output::PortLight(false), Output::PortPower(false)], 0);
    assert!(!controller.state().port_lights);
    assert!(!controller.state().port_power);
    assert!(controller.state().starboard_light);
}

#[test]
fn outputs_are_applied_in_their_order() {
    let mut controller = Controller::new();
    controller.set_outputs(
        &vec![
            Output::StarboardThrottle(1),
            Output::StarboardThrottle(2),
            Output::StarboardLight(true),
            Output::StarboardLight(false),
        ],
        9000,
    );
    assert_eq!(controller.state(), State { starboard_throttle: 129, ..ALL_OFF });
}

#[test]
fn each_output_is_gated_by_the_reading_at_its_moment() {
    let mut controller = Controller::new();
    controller.apply_output(Output::StarboardThrottle(20), 6001);
    controller.apply_output(Output::StarboardThrottle(40), 6000);
    assert_eq!(controller.state().starboard_throttle, 147);
}

#[test]
fn a_request_for_the_state_is_answered_with_the_levels() {
    let mut controller = Controller::new();
    controller.apply_output(Output::PortLight(true), 0);
    controller.apply_output(Output::PortThrottle(-27), 6500);
    let answer = controller.handle(&MicroControlMessages::RequestState, inputs(0));
    assert_eq!(
        answer,
        Some(MicroStatusMessages::State(State {
            port_lights: true,
            port_throttle: 100,
            ..ALL_OFF
        }))
    );
}

#[test]
fn a_request_for_the_controller_state_is_answered_with_the_readings() {
    let mut controller = Controller::new();
    let answer = controller.handle(&MicroControlMessages::RequestControllerState, inputs(6001));
    assert_eq!(
        answer,
        Some(MicroStatusMessages::ControllerState(ControllerState {
            overridden: true,
            throttle: 512,
            turn: 400,
            switch: 6001,
        }))
    );
    let answer = controller.handle(&MicroControlMessages::RequestControllerState, inputs(6000));
    assert_eq!(
        answer,
        Some(MicroStatusMessages::ControllerState(ControllerState {
            overridden: false,
            throttle: 512,
            turn: 400,
            switch: 6000,
        }))
    );
    assert_eq!(controller.state(), ALL_OFF);
}

#[test]
fn the_counter_goes_up_by_the_increment() {
    assert_eq!(MILLIS_INCREMENT, PRESCALER * TIMER_COUNTS / 16000);
    let mut counter = MillisCounter::new();
    assert_eq!(counter.read(), 0);
    counter.tick();
    assert_eq!(counter.read(), 8);
    for _ in 0..124 {
        counter.tick();
    }
    assert_eq!(counter.read(), 1000);
}

#[test]
fn the_heartbeat_changes_once_the_count_has_passed_the_due_time() {
    assert_eq!(HEARTBEAT_INTERVAL, 1000);
    let mut heartbeat = Heartbeat::new();
    assert!(!heartbeat.poll(0));
    assert!(heartbeat.poll(8));
    assert!(!heartbeat.poll(1000));
    assert!(heartbeat.poll(1008));
    assert!(!heartbeat.poll(1016));
    assert!(heartbeat.poll(u32::MAX));
    assert!(!heartbeat.poll(3000));
    assert!(heartbeat.poll(3001));
}

#[test]
fn the_heartbeat_schedule_wraps_with_the_count() {
    let mut heartbeat = Heartbeat::new();
    let mut changes: u32 = 0;
    while changes < 4_294_967 {
        assert!(heartbeat.poll(u32::MAX));
        changes += 1;
    }
    assert!(!heartbeat.poll(4_294_967_000));
    assert!(heartbeat.poll(4_294_967_001));
    assert!(!heartbeat.poll(704));
    assert!(heartbeat.poll(705));
    assert!(!heartbeat.poll(1704));
    assert!(heartbeat.poll(1705));
}

#[test]
fn the_defaults_of_the_vehicle() {
    assert_eq!(kingfisher::DEFAULT_DOMAIN, 50);
    assert_eq!(kingfisher::DEFAULT_ID, "Kingfisher");
}
