//! Writing messages to bytes and taking them from the front of a buffer.
use crate::framing::{
    decode_control, decode_control_within, decode_imu, decode_status, enc_control,
    enc_controller_state, enc_imu,
    enc_output, enc_outputs, enc_state, enc_status, enc_words, imu_words,
    parse_controller_state, parse_output, parse_outputs, parse_state, parse_words,
};
use crate::imu_types::ImuMessages;
use crate::microcontroller_types::{
    ControllerState, MicroControlMessages, MicroStatusMessages, Output, State,
};
use crate::wire::{
    byte_of_i8, enc_word, read_bool, read_byte, read_i8, read_u16, read_u32, read_u64, read_word,
    write_bool, write_varint, write_word, Parse, Parsed,
};
use vstd::prelude::*;
use vstd::slice::{slice_subrange, slice_to_vec};

verus! {

/// A list that was read so far, put in front of what reading the rest
/// comes to.
pub open spec fn prepend<T>(head: Seq<T>, rest: Parse<Seq<T>>) -> Parse<Seq<T>> {
    match rest {
        Parse::Done { value, next } => Parse::Done { value: head + value, next },
        other => other,
    }
}

/// Whether an executable result of reading a list is the result `p`.
pub open spec fn list_is<T>(r: Parsed<Vec<T>>, p: Parse<Seq<T>>) -> bool {
    match p {
        Parse::Done { value, next } => r matches Parsed::Done { value: list, next: end }
            && list@ == value && end == next,
        Parse::Incomplete => r is Incomplete,
        Parse::Invalid => r is Invalid,
        Parse::Failed => r is Failed,
    }
}

/// Whether an executable result of reading a control message is the
/// result `p`.
pub open spec fn control_is(r: Parsed<MicroControlMessages>, p: Parse<
    crate::microcontroller_types::ControlView,
>) -> bool {
    match p {
        Parse::Done { value, next } => r matches Parsed::Done { value: message, next: end }
            && message@ == value && end == next,
        Parse::Incomplete => r is Incomplete,
        Parse::Invalid => r is Invalid,
        Parse::Failed => r is Failed,
    }
}

/// Whether an executable result of reading a status message is the
/// result `p`.
pub open spec fn status_is(r: Parsed<MicroStatusMessages>, p: Parse<
    crate::microcontroller_types::StatusView,
>) -> bool {
    match p {
        Parse::Done { value, next } => r matches Parsed::Done { value: message, next: end }
            && message@ == value && end == next,
        Parse::Incomplete => r is Incomplete,
        Parse::Invalid => r is Invalid,
        Parse::Failed => r is Failed,
    }
}

/// Reads one output at `pos`.
pub fn read_output(bytes: &[u8], pos: usize) -> (r: Parsed<Output>)
    ensures
        r.lift() == parse_output(bytes@, pos as int),
        r matches Parsed::Done { next, .. } ==> pos < next <= bytes@.len(),
{
    match read_u32(bytes, pos) {
        Parsed::Done { value: tag, next } => {
            if tag < 4 {
                match read_bool(bytes, next) {
                    Parsed::Done { value, next } => {
                        let output = if tag == 0 {
                            Output::StarboardLight(value)
                        } else if tag == 1 {
                            Output::PortLight(value)
                        } else if tag == 2 {
                            Output::StarboardPower(value)
                        } else {
                            Output::PortPower(value)
                        };
                        Parsed::Done { value: output, next }
                    },
                    Parsed::Incomplete => Parsed::Incomplete,
                    Parsed::Invalid => Parsed::Invalid,
                    Parsed::Failed => Parsed::Failed,
                }
            } else if tag < 6 {
                match read_i8(bytes, next) {
                    Parsed::Done { value, next } => {
                        let output = if tag == 4 {
                            Output::StarboardThrottle(value)
                        } else {
                            Output::PortThrottle(value)
                        };
                        Parsed::Done { value: output, next }
                    },
                    Parsed::Incomplete => Parsed::Incomplete,
                    Parsed::Invalid => Parsed::Invalid,
                    Parsed::Failed => Parsed::Failed,
                }
            } else {
                Parsed::Invalid
            }
        },
        Parsed::Incomplete => Parsed::Incomplete,
        Parsed::Invalid => Parsed::Invalid,
        Parsed::Failed => Parsed::Failed,
    }
}

/// Reads `count` outputs from `pos` on.
pub fn read_outputs(bytes: &[u8], pos: usize, count: u64) -> (r: Parsed<Vec<Output>>)
    ensures
        list_is(r, parse_outputs(bytes@, pos as int, count as int)),
{
    let mut list: Vec<Output> = Vec::new();
    let mut at: usize = pos;
    let mut i: u64 = 0;
    while i < count
        invariant
            i <= count,
            parse_outputs(bytes@, pos as int, count as int) == prepend(
                list@,
                parse_outputs(bytes@, at as int, count - i),
            ),
        decreases count - i,
    {
        match read_output(bytes, at) {
            Parsed::Done { value, next } => {
                proof {
                    let rest = parse_outputs(bytes@, next as int, count - i - 1);
                    assert(parse_outputs(bytes@, at as int, count - i) == prepend(
                        seq![value],
                        rest,
                    ));
                    if let Parse::Done { value: tail, next: end } = rest {
                        assert(list@ + (seq![value] + tail) =~= list@.push(value) + tail);
                    }
                }
                list.push(value);
                at = next;
                i = i + 1;
            },
            Parsed::Incomplete => {
                return Parsed::Incomplete;
            },
            Parsed::Invalid => {
                return Parsed::Invalid;
            },
            Parsed::Failed => {
                return Parsed::Failed;
            },
        }
    }
    assert(list@ + Seq::<Output>::empty() =~= list@);
    Parsed::Done { value: list, next: at }
}

/// Reads `count` words from `pos` on.
pub fn read_words(bytes: &[u8], pos: usize, count: u8) -> (r: Parsed<Vec<u32>>)
    ensures
        list_is(r, parse_words(bytes@, pos as int, count as int)),
        r matches Parsed::Done { value, .. } ==> value@.len() == count,
{
    let mut list: Vec<u32> = Vec::new();
    let mut at: usize = pos;
    let mut i: u8 = 0;
    while i < count
        invariant
            i <= count,
            list@.len() == i,
            parse_words(bytes@, pos as int, count as int) == prepend(
                list@,
                parse_words(bytes@, at as int, count - i),
            ),
        decreases count - i,
    {
        match read_word(bytes, at) {
            Parsed::Done { value, next } => {
                proof {
                    let rest = parse_words(bytes@, next as int, count - i - 1);
                    assert(parse_words(bytes@, at as int, count - i) == prepend(
                        seq![value],
                        rest,
                    ));
                    if let Parse::Done { value: tail, next: end } = rest {
                        assert(list@ + (seq![value] + tail) =~= list@.push(value) + tail);
                    }
                }
                list.push(value);
                at = next;
                i = i + 1;
            },
            Parsed::Incomplete => {
                return Parsed::Incomplete;
            },
            Parsed::Invalid => {
                return Parsed::Invalid;
            },
            Parsed::Failed => {
                return Parsed::Failed;
            },
        }
    }
    assert(list@ + Seq::<u32>::empty() =~= list@);
    Parsed::Done { value: list, next: at }
}

/// Takes one control message from the front of `bytes`.
pub fn read_control(bytes: &[u8]) -> (r: Parsed<MicroControlMessages>)
    ensures
        control_is(r, decode_control(bytes@)),
{
    match read_u32(bytes, 0) {
        Parsed::Done { value: tag, next } => {
            if tag == 0 {
                Parsed::Done { value: MicroControlMessages::RequestState, next }
            } else if tag == 1 {
                Parsed::Done { value: MicroControlMessages::RequestControllerState, next }
            } else if tag == 2 {
                match read_u64(bytes, next) {
                    Parsed::Done { value: count, next } => match read_outputs(
                        bytes,
                        next,
                        count,
                    ) {
                        Parsed::Done { value, next } => Parsed::Done {
                            value: MicroControlMessages::SetOutput(value),
                            next,
                        },
                        Parsed::Incomplete => Parsed::Incomplete,
                        Parsed::Invalid => Parsed::Invalid,
                        Parsed::Failed => Parsed::Failed,
                    },
                    Parsed::Incomplete => Parsed::Incomplete,
                    Parsed::Invalid => Parsed::Invalid,
                    Parsed::Failed => Parsed::Failed,
                }
            } else {
                Parsed::Invalid
            }
        },
        Parsed::Incomplete => Parsed::Incomplete,
        Parsed::Invalid => Parsed::Invalid,
        Parsed::Failed => Parsed::Failed,
    }
}

/// Takes one control message from the front of `bytes`, for a receiver
/// whose lists hold `cap` outputs at most.
pub fn read_control_within(bytes: &[u8], cap: u64) -> (r: Parsed<MicroControlMessages>)
    ensures
        control_is(r, decode_control_within(bytes@, cap as int)),
{
    match read_u32(bytes, 0) {
        Parsed::Done { value: tag, next } => {
            if tag == 0 {
                Parsed::Done { value: MicroControlMessages::RequestState, next }
            } else if tag == 1 {
                Parsed::Done { value: MicroControlMessages::RequestControllerState, next }
            } else if tag == 2 {
                match read_u64(bytes, next) {
                    Parsed::Done { value: count, next } => {
                        if count <= cap {
                            match read_outputs(bytes, next, count) {
                                Parsed::Done { value, next } => Parsed::Done {
                                    value: MicroControlMessages::SetOutput(value),
                                    next,
                                },
                                Parsed::Incomplete => Parsed::Incomplete,
                                Parsed::Invalid => Parsed::Invalid,
                                Parsed::Failed => Parsed::Failed,
                            }
                        } else {
                            match read_outputs(bytes, next, cap + 1) {
                                Parsed::Done { .. } => Parsed::Invalid,
                                Parsed::Incomplete => Parsed::Incomplete,
                                Parsed::Invalid => Parsed::Invalid,
                                Parsed::Failed => Parsed::Failed,
                            }
                        }
                    },
                    Parsed::Incomplete => Parsed::Incomplete,
                    Parsed::Invalid => Parsed::Invalid,
                    Parsed::Failed => Parsed::Failed,
                }
            } else {
                Parsed::Invalid
            }
        },
        Parsed::Incomplete => Parsed::Incomplete,
        Parsed::Invalid => Parsed::Invalid,
        Parsed::Failed => Parsed::Failed,
    }
}

/// Reads the levels of the outputs at `pos`.
pub fn read_state(bytes: &[u8], pos: usize) -> (r: Parsed<State>)
    ensures
        r.lift() == parse_state(bytes@, pos as int),
{
    let starboard_light = match read_bool(bytes, pos) {
        Parsed::Done { value, next } => (value, next),
        Parsed::Incomplete => {
            return Parsed::Incomplete;
        },
        Parsed::Invalid => {
            return Parsed::Invalid;
        },
        Parsed::Failed => {
            return Parsed::Failed;
        },
    };
    let port_lights = match read_bool(bytes, starboard_light.1) {
        Parsed::Done { value, next } => (value, next),
        Parsed::Incomplete => {
            return Parsed::Incomplete;
        },
        Parsed::Invalid => {
            return Parsed::Invalid;
        },
        Parsed::Failed => {
            return Parsed::Failed;
        },
    };
    let starboard_power = match read_bool(bytes, port_lights.1) {
        Parsed::Done { value, next } => (value, next),
        Parsed::Incomplete => {
            return Parsed::Incomplete;
        },
        Parsed::Invalid => {
            return Parsed::Invalid;
        },
        Parsed::Failed => {
            return Parsed::Failed;
        },
    };
    let port_power = match read_bool(bytes, starboard_power.1) {
        Parsed::Done { value, next } => (value, next),
        Parsed::Incomplete => {
            return Parsed::Incomplete;
        },
        Parsed::Invalid => {
            return Parsed::Invalid;
        },
        Parsed::Failed => {
            return Parsed::Failed;
        },
    };
    let starboard_throttle = match read_byte(bytes, port_power.1) {
        Parsed::Done { value, next } => (value, next),
        Parsed::Incomplete => {
            return Parsed::Incomplete;
        },
        Parsed::Invalid => {
            return Parsed::Invalid;
        },
        Parsed::Failed => {
            return Parsed::Failed;
        },
    };
    match read_byte(bytes, starboard_throttle.1) {
        Parsed::Done { value, next } => Parsed::Done {
            value: State {
                starboard_light: starboard_light.0,
                port_lights: port_lights.0,
                starboard_power: starboard_power.0,
                port_power: port_power.0,
                starboard_throttle: starboard_throttle.0,
                port_throttle: value,
            },
            next,
        },
        Parsed::Incomplete => Parsed::Incomplete,
        Parsed::Invalid => Parsed::Invalid,
        Parsed::Failed => Parsed::Failed,
    }
}

/// Reads the radio control's readings at `pos`.
pub fn read_controller_state(bytes: &[u8], pos: usize) -> (r: Parsed<ControllerState>)
    ensures
        r.lift() == parse_controller_state(bytes@, pos as int),
{
    let overridden = match read_bool(bytes, pos) {
        Parsed::Done { value, next } => (value, next),
        Parsed::Incomplete => {
            return Parsed::Incomplete;
        },
        Parsed::Invalid => {
            return Parsed::Invalid;
        },
        Parsed::Failed => {
            return Parsed::Failed;
        },
    };
    let throttle = match read_u16(bytes, overridden.1) {
        Parsed::Done { value, next } => (value, next),
        Parsed::Incomplete => {
            return Parsed::Incomplete;
        },
        Parsed::Invalid => {
            return Parsed::Invalid;
        },
        Parsed::Failed => {
            return Parsed::Failed;
        },
    };
    let turn = match read_u16(bytes, throttle.1) {
        Parsed::Done { value, next } => (value, next),
        Parsed::Incomplete => {
            return Parsed::Incomplete;
        },
        Parsed::Invalid => {
            return Parsed::Invalid;
        },
        Parsed::Failed => {
            return Parsed::Failed;
        },
    };
    match read_u16(bytes, turn.1) {
        Parsed::Done { value, next } => Parsed::Done {
            value: ControllerState {
                overridden: overridden.0,
                throttle: throttle.0,
                turn: turn.0,
                switch: value,
            },
            next,
        },
        Parsed::Incomplete => Parsed::Incomplete,
        Parsed::Invalid => Parsed::Invalid,
        Parsed::Failed => Parsed::Failed,
    }
}

/// Takes one status message from the front of `bytes`.
pub fn read_status(bytes: &[u8]) -> (r: Parsed<MicroStatusMessages>)
    ensures
        status_is(r, decode_status(bytes@)),
{
    match read_u32(bytes, 0) {
        Parsed::Done { value: tag, next } => {
            if tag == 0 {
                match read_state(bytes, next) {
                    Parsed::Done { value, next } => Parsed::Done {
                        value: MicroStatusMessages::State(value),
                        next,
                    },
                    Parsed::Incomplete => Parsed::Incomplete,
                    Parsed::Invalid => Parsed::Invalid,
                    Parsed::Failed => Parsed::Failed,
                }
            } else if tag == 1 {
                match read_controller_state(bytes, next) {
                    Parsed::Done { value, next } => Parsed::Done {
                        value: MicroStatusMessages::ControllerState(value),
                        next,
                    },
                    Parsed::Incomplete => Parsed::Incomplete,
                    Parsed::Invalid => Parsed::Invalid,
                    Parsed::Failed => Parsed::Failed,
                }
            } else if tag == 2 {
                match read_u64(bytes, next) {
                    Parsed::Done { value: count, next } => {
                        if count <= (bytes.len() - next) as u64 {
                            let end: usize = next + count as usize;
                            let payload = slice_to_vec(slice_subrange(bytes, next, end));
                            Parsed::Done { value: MicroStatusMessages::Debug(payload), next: end }
                        } else {
                            Parsed::Incomplete
                        }
                    },
                    Parsed::Incomplete => Parsed::Incomplete,
                    Parsed::Invalid => Parsed::Invalid,
                    Parsed::Failed => Parsed::Failed,
                }
            } else {
                Parsed::Invalid
            }
        },
        Parsed::Incomplete => Parsed::Incomplete,
        Parsed::Invalid => Parsed::Invalid,
        Parsed::Failed => Parsed::Failed,
    }
}

/// Takes one sensor message from the front of `bytes`.
pub fn read_imu(bytes: &[u8]) -> (r: Parsed<ImuMessages>)
    ensures
        r.lift() == decode_imu(bytes@),
{
    match read_u32(bytes, 0) {
        Parsed::Done { value: tag, next } => {
            if tag == 0 {
                match read_words(bytes, next, 9) {
                    Parsed::Done { value: w, next } => Parsed::Done {
                        value: ImuMessages::Imu(
                            w[0],
                            w[1],
                            w[2],
                            w[3],
                            w[4],
                            w[5],
                            w[6],
                            w[7],
                            w[8],
                        ),
                        next,
                    },
                    Parsed::Incomplete => Parsed::Incomplete,
                    Parsed::Invalid => Parsed::Invalid,
                    Parsed::Failed => Parsed::Failed,
                }
            } else {
                Parsed::Invalid
            }
        },
        Parsed::Incomplete => Parsed::Incomplete,
        Parsed::Invalid => Parsed::Invalid,
        Parsed::Failed => Parsed::Failed,
    }
}

/// Appending one output to a list appends its two bytes to the list's.
pub proof fn lemma_enc_outputs_push(list: Seq<Output>, last: Output)
    ensures
        enc_outputs(list.push(last)) == enc_outputs(list) + enc_output(last),
    decreases list.len(),
{
    if list.len() == 0 {
        assert(list.push(last).drop_first() =~= Seq::<Output>::empty());
        assert(enc_outputs(Seq::<Output>::empty()) =~= Seq::<u8>::empty());
        assert(enc_outputs(list.push(last)) =~= enc_outputs(list) + enc_output(last));
    } else {
        assert(list.push(last).drop_first() =~= list.drop_first().push(last));
        lemma_enc_outputs_push(list.drop_first(), last);
        assert(enc_outputs(list.push(last)) =~= enc_outputs(list) + enc_output(last));
    }
}

/// Appending one word to a list appends its four bytes to the list's.
pub proof fn lemma_enc_words_push(words: Seq<u32>, last: u32)
    ensures
        enc_words(words.push(last)) == enc_words(words) + enc_word(last),
    decreases words.len(),
{
    if words.len() == 0 {
        assert(words.push(last).drop_first() =~= Seq::<u32>::empty());
        assert(enc_words(Seq::<u32>::empty()) =~= Seq::<u8>::empty());
        assert(enc_words(words.push(last)) =~= enc_words(words) + enc_word(last));
    } else {
        assert(words.push(last).drop_first() =~= words.drop_first().push(last));
        lemma_enc_words_push(words.drop_first(), last);
        assert(enc_words(words.push(last)) =~= enc_words(words) + enc_word(last));
    }
}

/// Appends the two bytes of an output.
pub fn write_output(out: &mut Vec<u8>, output: &Output)
    ensures
        final(out)@ == old(out)@ + enc_output(*output),
{
    let ghost before = out@;
    match output {
        Output::StarboardLight(on) => {
            out.push(0);
            out.push(if *on { 1 } else { 0 });
        },
        Output::PortLight(on) => {
            out.push(1);
            out.push(if *on { 1 } else { 0 });
        },
        Output::StarboardPower(on) => {
            out.push(2);
            out.push(if *on { 1 } else { 0 });
        },
        Output::PortPower(on) => {
            out.push(3);
            out.push(if *on { 1 } else { 0 });
        },
        Output::StarboardThrottle(level) => {
            out.push(4);
            out.push(byte_of_i8(*level));
        },
        Output::PortThrottle(level) => {
            out.push(5);
            out.push(byte_of_i8(*level));
        },
    }
    assert(out@ =~= before + enc_output(*output));
}

/// Appends the bytes of a list of outputs.
pub fn write_outputs(out: &mut Vec<u8>, list: &Vec<Output>)
    ensures
        final(out)@ == old(out)@ + enc_outputs(list@),
{
    let mut i: usize = 0;
    assert(out@ =~= old(out)@ + enc_outputs(list@.take(0)));
    while i < list.len()
        invariant
            i <= list@.len(),
            out@ == old(out)@ + enc_outputs(list@.take(i as int)),
        decreases list@.len() - i,
    {
        let ghost before = out@;
        write_output(out, &list[i]);
        proof {
            lemma_enc_outputs_push(list@.take(i as int), list@[i as int]);
            assert(list@.take(i as int).push(list@[i as int]) =~= list@.take(i + 1));
            assert(out@ =~= old(out)@ + enc_outputs(list@.take(i + 1)));
        }
        i = i + 1;
    }
    assert(list@.take(i as int) =~= list@);
}

/// Appends the six bytes of the outputs' levels.
pub fn write_state(out: &mut Vec<u8>, state: &State)
    ensures
        final(out)@ == old(out)@ + enc_state(*state),
{
    let ghost before = out@;
    out.push(if state.starboard_light { 1 } else { 0 });
    out.push(if state.port_lights { 1 } else { 0 });
    out.push(if state.starboard_power { 1 } else { 0 });
    out.push(if state.port_power { 1 } else { 0 });
    out.push(state.starboard_throttle);
    out.push(state.port_throttle);
    assert(out@ =~= before + enc_state(*state));
}

/// Appends the bytes of the radio control's readings.
pub fn write_controller_state(out: &mut Vec<u8>, state: &ControllerState)
    ensures
        final(out)@ == old(out)@ + enc_controller_state(*state),
{
    let ghost before = out@;
    write_bool(out, state.overridden);
    write_varint(out, state.throttle as u64);
    write_varint(out, state.turn as u64);
    write_varint(out, state.switch as u64);
    assert(out@ =~= before + enc_controller_state(*state));
}

/// The bytes of a control message.
pub fn write_control(message: &MicroControlMessages) -> (out: Vec<u8>)
    ensures
        out@ == enc_control(message@),
{
    let mut out: Vec<u8> = Vec::new();
    match message {
        MicroControlMessages::RequestState => {
            out.push(0);
        },
        MicroControlMessages::RequestControllerState => {
            out.push(1);
        },
        MicroControlMessages::SetOutput(list) => {
            out.push(2);
            write_varint(&mut out, list.len() as u64);
            write_outputs(&mut out, list);
        },
    }
    assert(out@ =~= enc_control(message@));
    out
}

/// The bytes of a status message.
pub fn write_status(message: &MicroStatusMessages) -> (out: Vec<u8>)
    ensures
        out@ == enc_status(message@),
{
    let mut out: Vec<u8> = Vec::new();
    match message {
        MicroStatusMessages::State(state) => {
            out.push(0);
            write_state(&mut out, state);
        },
        MicroStatusMessages::ControllerState(state) => {
            out.push(1);
            write_controller_state(&mut out, state);
        },
        MicroStatusMessages::Debug(payload) => {
            out.push(2);
            write_varint(&mut out, payload.len() as u64);
            let ghost before = out@;
            out.extend_from_slice(payload.as_slice());
            assert(out@ =~= before + payload@);
        },
    }
    assert(out@ =~= enc_status(message@));
    out
}

/// The 37 bytes of a sensor message.
pub fn write_imu(message: &ImuMessages) -> (out: Vec<u8>)
    ensures
        out@ == enc_imu(*message),
{
    let mut out: Vec<u8> = Vec::new();
    out.push(0);
    let ImuMessages::Imu(ax, ay, az, gx, gy, gz, mx, my, mz) = *message;
    let words: [u32; 9] = [ax, ay, az, gx, gy, gz, mx, my, mz];
    assert(words@ =~= imu_words(*message));
    let mut i: usize = 0;
    assert(out@ =~= seq![0u8] + enc_words(words@.take(0)));
    while i < 9
        invariant
            i <= 9,
            words@.len() == 9,
            out@ == seq![0u8] + enc_words(words@.take(i as int)),
        decreases 9 - i,
    {
        write_word(&mut out, words[i]);
        proof {
            lemma_enc_words_push(words@.take(i as int), words@[i as int]);
            assert(words@.take(i as int).push(words@[i as int]) =~= words@.take(i + 1));
            assert(out@ =~= seq![0u8] + enc_words(words@.take(i + 1)));
        }
        i = i + 1;
    }
    assert(words@.take(9) =~= words@);
    out
}

} // verus!
