//! The layout of whole messages on the wire: a tag that names the variant,
//! then the variant's fields in their declared order, with nothing between
//! messages. Where one message ends is known only from its own layout.
use crate::imu_types::ImuMessages;
use crate::microcontroller_types::{ControlView, ControllerState, Output, State, StatusView};
use crate::wire::{
    enc_bool, enc_varint, enc_word, i8_to_byte, limit_u16, limit_u32, limit_u64, parse_bool,
    parse_byte, parse_bytes, parse_i8, parse_varint, parse_word, Parse,
};
use vstd::prelude::*;

verus! {

impl<T> Parse<T> {
    /// A result that is not `Done`, as the result of reading another type.
    pub open spec fn rebrand<U>(self) -> Parse<U> {
        match self {
            Parse::Done { .. } => Parse::Failed,
            Parse::Incomplete => Parse::Incomplete,
            Parse::Invalid => Parse::Invalid,
            Parse::Failed => Parse::Failed,
        }
    }
}

/// Number of kinds of output.
pub open spec fn output_variants() -> int {
    6
}

/// The tag of an output.
pub open spec fn output_tag(o: Output) -> u8 {
    match o {
        Output::StarboardLight(_) => 0,
        Output::PortLight(_) => 1,
        Output::StarboardPower(_) => 2,
        Output::PortPower(_) => 3,
        Output::StarboardThrottle(_) => 4,
        Output::PortThrottle(_) => 5,
    }
}

/// The byte that holds the level of an output.
pub open spec fn output_level(o: Output) -> u8 {
    match o {
        Output::StarboardLight(on) => if on { 1 } else { 0 },
        Output::PortLight(on) => if on { 1 } else { 0 },
        Output::StarboardPower(on) => if on { 1 } else { 0 },
        Output::PortPower(on) => if on { 1 } else { 0 },
        Output::StarboardThrottle(level) => i8_to_byte(level),
        Output::PortThrottle(level) => i8_to_byte(level),
    }
}

/// The two bytes of an output: its tag, then its level.
pub open spec fn enc_output(o: Output) -> Seq<u8> {
    seq![output_tag(o), output_level(o)]
}

/// The bytes of a list of outputs, one after the other.
pub open spec fn enc_outputs(list: Seq<Output>) -> Seq<u8>
    decreases list.len(),
{
    if list.len() == 0 {
        Seq::empty()
    } else {
        enc_output(list[0]) + enc_outputs(list.drop_first())
    }
}

/// An output with a flag for its level.
pub open spec fn switched(tag: int, on: bool) -> Output {
    if tag == 0 {
        Output::StarboardLight(on)
    } else if tag == 1 {
        Output::PortLight(on)
    } else if tag == 2 {
        Output::StarboardPower(on)
    } else {
        Output::PortPower(on)
    }
}

/// An output with a signed level.
pub open spec fn throttled(tag: int, level: i8) -> Output {
    if tag == 4 {
        Output::StarboardThrottle(level)
    } else {
        Output::PortThrottle(level)
    }
}

/// One output at `pos`.
pub open spec fn parse_output(s: Seq<u8>, pos: int) -> Parse<Output> {
    match parse_varint(s, pos, limit_u32()) {
        Parse::Done { value: tag, next } => {
            if tag < 4 {
                match parse_bool(s, next) {
                    Parse::Done { value, next } => Parse::Done {
                        value: switched(tag, value),
                        next,
                    },
                    other => other.rebrand(),
                }
            } else if tag < 6 {
                match parse_i8(s, next) {
                    Parse::Done { value, next } => Parse::Done {
                        value: throttled(tag, value),
                        next,
                    },
                    other => other.rebrand(),
                }
            } else {
                Parse::Invalid
            }
        },
        other => other.rebrand(),
    }
}

/// `count` outputs, one after the other, from `pos` on.
pub open spec fn parse_outputs(s: Seq<u8>, pos: int, count: int) -> Parse<Seq<Output>>
    decreases count,
{
    if count <= 0 {
        Parse::Done { value: Seq::empty(), next: pos }
    } else {
        match parse_output(s, pos) {
            Parse::Done { value: first, next } => match parse_outputs(s, next, count - 1) {
                Parse::Done { value: rest, next } => Parse::Done {
                    value: seq![first] + rest,
                    next,
                },
                other => other,
            },
            other => other.rebrand(),
        }
    }
}

/// Number of kinds of control message.
pub open spec fn control_variants() -> int {
    3
}

/// The bytes of a control message.
pub open spec fn enc_control(m: ControlView) -> Seq<u8> {
    match m {
        ControlView::RequestState => seq![0u8],
        ControlView::RequestControllerState => seq![1u8],
        ControlView::SetOutput(list) => seq![2u8] + enc_varint(list.len() as int) + enc_outputs(
            list,
        ),
    }
}

/// One control message at `pos`.
pub open spec fn parse_control(s: Seq<u8>, pos: int) -> Parse<ControlView> {
    match parse_varint(s, pos, limit_u32()) {
        Parse::Done { value: tag, next } => {
            if tag == 0 {
                Parse::Done { value: ControlView::RequestState, next }
            } else if tag == 1 {
                Parse::Done { value: ControlView::RequestControllerState, next }
            } else if tag == 2 {
                match parse_varint(s, next, limit_u64()) {
                    Parse::Done { value: count, next } => match parse_outputs(s, next, count) {
                        Parse::Done { value, next } => Parse::Done {
                            value: ControlView::SetOutput(value),
                            next,
                        },
                        other => other.rebrand(),
                    },
                    other => other.rebrand(),
                }
            } else {
                Parse::Invalid
            }
        },
        other => other.rebrand(),
    }
}

/// The control message at the front of a buffer.
pub open spec fn decode_control(s: Seq<u8>) -> Parse<ControlView> {
    parse_control(s, 0)
}

/// `count` outputs for a receiver whose lists hold `cap` outputs at most.
/// A longer list is read up to the output that no longer fits, and is
/// then told as invalid.
pub open spec fn parse_outputs_within(s: Seq<u8>, pos: int, count: int, cap: int) -> Parse<
    Seq<Output>,
> {
    if count <= cap {
        parse_outputs(s, pos, count)
    } else {
        match parse_outputs(s, pos, cap + 1) {
            Parse::Done { .. } => Parse::Invalid,
            other => other,
        }
    }
}

/// One control message at `pos`, for a receiver whose lists hold `cap`
/// outputs at most.
pub open spec fn parse_control_within(s: Seq<u8>, pos: int, cap: int) -> Parse<ControlView> {
    match parse_varint(s, pos, limit_u32()) {
        Parse::Done { value: tag, next } => {
            if tag == 0 {
                Parse::Done { value: ControlView::RequestState, next }
            } else if tag == 1 {
                Parse::Done { value: ControlView::RequestControllerState, next }
            } else if tag == 2 {
                match parse_varint(s, next, limit_u64()) {
                    Parse::Done { value: count, next } => match parse_outputs_within(
                        s,
                        next,
                        count,
                        cap,
                    ) {
                        Parse::Done { value, next } => Parse::Done {
                            value: ControlView::SetOutput(value),
                            next,
                        },
                        other => other.rebrand(),
                    },
                    other => other.rebrand(),
                }
            } else {
                Parse::Invalid
            }
        },
        other => other.rebrand(),
    }
}

/// The control message at the front of a buffer, for a receiver whose
/// lists hold `cap` outputs at most.
pub open spec fn decode_control_within(s: Seq<u8>, cap: int) -> Parse<ControlView> {
    parse_control_within(s, 0, cap)
}

/// The six bytes of the outputs' levels.
pub open spec fn enc_state(state: State) -> Seq<u8> {
    seq![
        if state.starboard_light { 1u8 } else { 0u8 },
        if state.port_lights { 1u8 } else { 0u8 },
        if state.starboard_power { 1u8 } else { 0u8 },
        if state.port_power { 1u8 } else { 0u8 },
        state.starboard_throttle,
        state.port_throttle,
    ]
}

/// The levels of the outputs at `pos`.
pub open spec fn parse_state(s: Seq<u8>, pos: int) -> Parse<State> {
    match parse_bool(s, pos) {
        Parse::Done { value: starboard_light, next } => match parse_bool(s, next) {
            Parse::Done { value: port_lights, next } => match parse_bool(s, next) {
                Parse::Done { value: starboard_power, next } => match parse_bool(s, next) {
                    Parse::Done { value: port_power, next } => match parse_byte(s, next) {
                        Parse::Done { value: starboard_throttle, next } => match parse_byte(
                            s,
                            next,
                        ) {
                            Parse::Done { value: port_throttle, next } => Parse::Done {
                                value: State {
                                    starboard_light,
                                    port_lights,
                                    starboard_power,
                                    port_power,
                                    starboard_throttle,
                                    port_throttle,
                                },
                                next,
                            },
                            other => other.rebrand(),
                        },
                        other => other.rebrand(),
                    },
                    other => other.rebrand(),
                },
                other => other.rebrand(),
            },
            other => other.rebrand(),
        },
        other => other.rebrand(),
    }
}

/// The bytes of the radio control's readings.
pub open spec fn enc_controller_state(state: ControllerState) -> Seq<u8> {
    enc_bool(state.overridden) + enc_varint(state.throttle as int) + enc_varint(
        state.turn as int,
    ) + enc_varint(state.switch as int)
}

/// The radio control's readings at `pos`.
pub open spec fn parse_controller_state(s: Seq<u8>, pos: int) -> Parse<ControllerState> {
    match parse_bool(s, pos) {
        Parse::Done { value: overridden, next } => match parse_varint(s, next, limit_u16()) {
            Parse::Done { value: throttle, next } => match parse_varint(s, next, limit_u16()) {
                Parse::Done { value: turn, next } => match parse_varint(s, next, limit_u16()) {
                    Parse::Done { value: switch, next } => Parse::Done {
                        value: ControllerState {
                            overridden,
                            throttle: throttle as u16,
                            turn: turn as u16,
                            switch: switch as u16,
                        },
                        next,
                    },
                    other => other.rebrand(),
                },
                other => other.rebrand(),
            },
            other => other.rebrand(),
        },
        other => other.rebrand(),
    }
}

/// Number of kinds of status message.
pub open spec fn status_variants() -> int {
    3
}

/// The bytes of a status message.
pub open spec fn enc_status(m: StatusView) -> Seq<u8> {
    match m {
        StatusView::State(state) => seq![0u8] + enc_state(state),
        StatusView::ControllerState(state) => seq![1u8] + enc_controller_state(state),
        StatusView::Debug(payload) => seq![2u8] + enc_varint(payload.len() as int) + payload,
    }
}

/// One status message at `pos`.
pub open spec fn parse_status(s: Seq<u8>, pos: int) -> Parse<StatusView> {
    match parse_varint(s, pos, limit_u32()) {
        Parse::Done { value: tag, next } => {
            if tag == 0 {
                match parse_state(s, next) {
                    Parse::Done { value, next } => Parse::Done {
                        value: StatusView::State(value),
                        next,
                    },
                    other => other.rebrand(),
                }
            } else if tag == 1 {
                match parse_controller_state(s, next) {
                    Parse::Done { value, next } => Parse::Done {
                        value: StatusView::ControllerState(value),
                        next,
                    },
                    other => other.rebrand(),
                }
            } else if tag == 2 {
                match parse_varint(s, next, limit_u64()) {
                    Parse::Done { value: count, next } => match parse_bytes(s, next, count) {
                        Parse::Done { value, next } => Parse::Done {
                            value: StatusView::Debug(value),
                            next,
                        },
                        other => other.rebrand(),
                    },
                    other => other.rebrand(),
                }
            } else {
                Parse::Invalid
            }
        },
        other => other.rebrand(),
    }
}

/// The status message at the front of a buffer.
pub open spec fn decode_status(s: Seq<u8>) -> Parse<StatusView> {
    parse_status(s, 0)
}

/// Number of kinds of sensor message.
pub open spec fn imu_variants() -> int {
    1
}

/// The nine words of a sample, in their order on the wire.
pub open spec fn imu_words(m: ImuMessages) -> Seq<u32> {
    match m {
        ImuMessages::Imu(ax, ay, az, gx, gy, gz, mx, my, mz) => seq![
            ax,
            ay,
            az,
            gx,
            gy,
            gz,
            mx,
            my,
            mz,
        ],
    }
}

/// The sample that nine words make.
pub open spec fn imu_of_words(w: Seq<u32>) -> ImuMessages {
    ImuMessages::Imu(w[0], w[1], w[2], w[3], w[4], w[5], w[6], w[7], w[8])
}

/// The bytes of `words`, four to a word, lowest first.
pub open spec fn enc_words(words: Seq<u32>) -> Seq<u8>
    decreases words.len(),
{
    if words.len() == 0 {
        Seq::empty()
    } else {
        enc_word(words[0]) + enc_words(words.drop_first())
    }
}

/// `count` words from `pos` on.
pub open spec fn parse_words(s: Seq<u8>, pos: int, count: int) -> Parse<Seq<u32>>
    decreases count,
{
    if count <= 0 {
        Parse::Done { value: Seq::empty(), next: pos }
    } else {
        match parse_word(s, pos) {
            Parse::Done { value: first, next } => match parse_words(s, next, count - 1) {
                Parse::Done { value: rest, next } => Parse::Done {
                    value: seq![first] + rest,
                    next,
                },
                other => other,
            },
            other => other.rebrand(),
        }
    }
}

/// The 37 bytes of a sensor message.
pub open spec fn enc_imu(m: ImuMessages) -> Seq<u8> {
    seq![0u8] + enc_words(imu_words(m))
}

/// One sensor message at `pos`.
pub open spec fn parse_imu(s: Seq<u8>, pos: int) -> Parse<ImuMessages> {
    match parse_varint(s, pos, limit_u32()) {
        Parse::Done { value: tag, next } => {
            if tag == 0 {
                match parse_words(s, next, 9) {
                    Parse::Done { value, next } => Parse::Done {
                        value: imu_of_words(value),
                        next,
                    },
                    other => other.rebrand(),
                }
            } else {
                Parse::Invalid
            }
        },
        other => other.rebrand(),
    }
}

/// The sensor message at the front of a buffer.
pub open spec fn decode_imu(s: Seq<u8>) -> Parse<ImuMessages> {
    parse_imu(s, 0)
}

} // verus!
