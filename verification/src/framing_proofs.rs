//! What holds of the message layout: reading back what was written gives
//! the message again, a buffer cut short never yields a message, and a
//! leading byte that names no variant is told at once.
use crate::framing::{
    control_variants, decode_control, decode_control_within, decode_imu, decode_status,
    enc_control,
    enc_controller_state, enc_imu, enc_output, enc_outputs, enc_state, enc_status, enc_words,
    imu_variants, imu_words, parse_controller_state, parse_output, parse_outputs, parse_state,
    parse_words, status_variants,
};
use crate::imu_types::ImuMessages;
use crate::microcontroller_types::{ControlView, ControllerState, Output, State, StatusView};
use crate::packet_codec::buffer_after;
use crate::wire::{
    enc_bool, enc_varint, enc_word, lemma_limits_ok, lemma_varint_roundtrip,
    lemma_varint_truncate, limit_u16, limit_u32, limit_u64, parse_bool, parse_varint,
    parse_word, Parse,
};
use vstd::prelude::*;

verus! {

/// Whether the bytes `e` stand in `s` from `pos` on.
pub open spec fn window(s: Seq<u8>, pos: int, e: Seq<u8>) -> bool {
    0 <= pos && pos + e.len() <= s.len() && s.subrange(pos, pos + e.len()) == e
}

/// Where `a + b` stands at `pos`, `a` stands at `pos` and `b` behind it.
pub proof fn lemma_window_split(s: Seq<u8>, pos: int, a: Seq<u8>, b: Seq<u8>)
    requires
        window(s, pos, a + b),
    ensures
        window(s, pos, a),
        window(s, pos + a.len(), b),
{
    let e = a + b;
    let w = s.subrange(pos, pos + e.len());
    assert(s.subrange(pos, pos + a.len()) =~= a) by {
        assert forall|i: int| 0 <= i < a.len() implies s.subrange(pos, pos + a.len())[i]
            == a[i] by {
            assert(w[i] == e[i]);
        }
    }
    assert(s.subrange(pos + a.len(), pos + a.len() + b.len()) =~= b) by {
        assert forall|i: int| 0 <= i < b.len() implies s.subrange(
            pos + a.len(),
            pos + a.len() + b.len(),
        )[i] == b[i] by {
            assert(w[a.len() + i] == e[a.len() + i]);
        }
    }
}

/// The byte at offset `i` of a window.
pub proof fn lemma_window_byte(s: Seq<u8>, pos: int, e: Seq<u8>, i: int)
    requires
        window(s, pos, e),
        0 <= i < e.len(),
    ensures
        s[pos + i] == e[i],
{
    assert(s.subrange(pos, pos + e.len())[i] == e[i]);
}

/// How a read on a buffer and the same read on its first `k` bytes go
/// together: a read that succeeds ends inside the buffer, gives the same
/// on the cut buffer if `k` reaches its end, and finds the cut buffer too
/// short otherwise.
pub open spec fn cut_agrees<T>(full: Parse<T>, cut: Parse<T>, k: int, len: int) -> bool {
    full matches Parse::Done { next, .. } ==> {
        &&& next <= len
        &&& k >= next ==> cut == full
        &&& k < next ==> cut is Incomplete
    }
}

/// An output read back from its two bytes.
pub proof fn lemma_output_roundtrip(s: Seq<u8>, pos: int, o: Output)
    requires
        window(s, pos, enc_output(o)),
    ensures
        parse_output(s, pos) == (Parse::Done { value: o, next: pos + 2 }),
{
    lemma_window_byte(s, pos, enc_output(o), 0);
    lemma_window_byte(s, pos, enc_output(o), 1);
}

/// A list of outputs read back from its bytes.
pub proof fn lemma_outputs_roundtrip(s: Seq<u8>, pos: int, list: Seq<Output>)
    requires
        window(s, pos, enc_outputs(list)),
    ensures
        parse_outputs(s, pos, list.len() as int) == (Parse::Done {
            value: list,
            next: pos + enc_outputs(list).len(),
        }),
        enc_outputs(list).len() == 2 * list.len(),
    decreases list.len(),
{
    if list.len() == 0 {
        assert(list =~= Seq::<Output>::empty());
    } else {
        let rest = list.drop_first();
        lemma_window_split(s, pos, enc_output(list[0]), enc_outputs(rest));
        lemma_output_roundtrip(s, pos, list[0]);
        lemma_outputs_roundtrip(s, pos + 2, rest);
        assert(seq![list[0]] + rest =~= list);
    }
}

/// Reading an output from a buffer cut short.
pub proof fn lemma_output_truncate(s: Seq<u8>, pos: int, k: int)
    requires
        0 <= k <= s.len(),
    ensures
        cut_agrees(parse_output(s, pos), parse_output(s.take(k), pos), k, s.len() as int),
        parse_output(s, pos) matches Parse::Done { next, .. } ==> pos < next,
{
    if parse_varint(s, pos, limit_u32()) is Done {
        lemma_varint_truncate(s, pos, limit_u32(), k);
    }
}

/// Reading a list of outputs from a buffer cut short.
pub proof fn lemma_outputs_truncate(s: Seq<u8>, pos: int, count: int, k: int)
    requires
        0 <= pos <= k <= s.len(),
    ensures
        cut_agrees(
            parse_outputs(s, pos, count),
            parse_outputs(s.take(k), pos, count),
            k,
            s.len() as int,
        ),
        parse_outputs(s, pos, count) matches Parse::Done { next, .. } ==> pos <= next,
    decreases count,
{
    if count > 0 {
        lemma_output_truncate(s, pos, k);
        if let Parse::Done { value, next } = parse_output(s, pos) {
            if k >= next {
                lemma_outputs_truncate(s, next, count - 1, k);
            } else {
                if parse_outputs(s, next, count - 1) is Done {
                    lemma_outputs_truncate(s, next, count - 1, next);
                }
            }
        }
    }
}

/// Reading back a control message: where its bytes stand at the front of a
/// buffer, whatever follows them, the message is taken from the buffer and
/// just its bytes are used up.
pub proof fn lemma_control_roundtrip(m: ControlView, s: Seq<u8>)
    requires
        window(s, 0, enc_control(m)),
        m matches ControlView::SetOutput(list) ==> list.len() < limit_u64(),
    ensures
        decode_control(s) == (Parse::Done { value: m, next: enc_control(m).len() as int }),
{
    lemma_limits_ok();
    lemma_window_byte(s, 0, enc_control(m), 0);
    match m {
        ControlView::SetOutput(list) => {
            let count = enc_varint(list.len() as int);
            lemma_window_split(s, 0, seq![2u8] + count, enc_outputs(list));
            lemma_window_split(s, 0, seq![2u8], count);
            lemma_varint_roundtrip(s, 1, list.len() as int, limit_u64());
            lemma_outputs_roundtrip(s, 1 + count.len() as int, list);
        },
        _ => {},
    }
}

/// A control message is never taken from a buffer that holds only a part
/// of it: where a message is taken from a buffer, the buffer cut anywhere
/// inside the message is found too short.
pub proof fn lemma_control_truncate(s: Seq<u8>, k: int)
    requires
        0 <= k <= s.len(),
    ensures
        cut_agrees(decode_control(s), decode_control(s.take(k)), k, s.len() as int),
        decode_control(s) matches Parse::Done { next, .. } ==> 0 < next,
{
    if let Parse::Done { value: tag, next } = parse_varint(s, 0, limit_u32()) {
        lemma_varint_truncate(s, 0, limit_u32(), k);
        if tag == 2 {
            if let Parse::Done { value: count, next: start } = parse_varint(
                s,
                next,
                limit_u64(),
            ) {
                lemma_varint_truncate(s, next, limit_u64(), k);
                lemma_outputs_truncate(s, start, count, if k >= start { k } else { start });
            }
        }
    }
}

/// A leading byte that is a whole tag and names no control message is
/// told as such, whatever follows it.
pub proof fn lemma_control_malformed_lead(s: Seq<u8>)
    requires
        s.len() >= 1,
        control_variants() <= s[0] < 128,
    ensures
        decode_control(s) is Invalid,
{
}

/// A receiver whose lists hold `cap` outputs at most takes just the
/// control messages whose lists are no longer than that, and takes them
/// as any receiver does.
pub proof fn lemma_control_within_agrees(s: Seq<u8>, cap: int)
    requires
        0 <= cap,
    ensures
        decode_control_within(s, cap) is Done ==> decode_control_within(s, cap)
            == decode_control(s),
        decode_control_within(s, cap) matches Parse::Done { value: ControlView::SetOutput(list), .. }
            ==> list.len() <= cap,
        decode_control(s) matches Parse::Done { value, .. } && (value matches ControlView::SetOutput(
            list,
        ) ==> list.len() <= cap) ==> decode_control_within(s, cap) == decode_control(s),
        !(decode_control(s) is Done) ==> decode_control_within(s, cap) == decode_control(s)
            || decode_control_within(s, cap) is Invalid,
{
    if let Parse::Done { value: tag, next } = parse_varint(s, 0, limit_u32()) {
        if tag == 2 {
            if let Parse::Done { value: count, next: start } = parse_varint(
                s,
                next,
                limit_u64(),
            ) {
                lemma_outputs_count(s, start, count);
                lemma_outputs_count(s, start, cap + 1);
                if count > cap {
                    lemma_outputs_more(s, start, cap + 1, count);
                }
            }
        }
    }
}

/// A list that was read holds as many outputs as were asked for.
pub proof fn lemma_outputs_count(s: Seq<u8>, pos: int, count: int)
    ensures
        parse_outputs(s, pos, count) matches Parse::Done { value, .. } ==> value.len() == if count
            > 0 {
            count
        } else {
            0
        },
    decreases count,
{
    if count > 0 {
        if let Parse::Done { value, next } = parse_output(s, pos) {
            lemma_outputs_count(s, next, count - 1);
        }
    }
}

/// Where fewer outputs cannot be read, more cannot be read either, and
/// for the same reason.
pub proof fn lemma_outputs_more(s: Seq<u8>, pos: int, fewer: int, more: int)
    requires
        fewer <= more,
    ensures
        !(parse_outputs(s, pos, fewer) is Done) ==> parse_outputs(s, pos, more) == parse_outputs(
            s,
            pos,
            fewer,
        ),
    decreases fewer,
{
    if fewer > 0 {
        if let Parse::Done { value, next } = parse_output(s, pos) {
            lemma_outputs_more(s, next, fewer - 1, more - 1);
        }
    }
}

/// A control message is never taken from a buffer that holds only a part
/// of it, by a receiver with a bound on its lists either.
pub proof fn lemma_control_within_truncate(s: Seq<u8>, cap: int, k: int)
    requires
        0 <= cap,
        0 <= k <= s.len(),
    ensures
        cut_agrees(
            decode_control_within(s, cap),
            decode_control_within(s.take(k), cap),
            k,
            s.len() as int,
        ),
        decode_control_within(s, cap) matches Parse::Done { next, .. } ==> 0 < next,
{
    if let Parse::Done { value: tag, next } = parse_varint(s, 0, limit_u32()) {
        lemma_varint_truncate(s, 0, limit_u32(), k);
        if tag == 2 {
            if let Parse::Done { value: count, next: start } = parse_varint(
                s,
                next,
                limit_u64(),
            ) {
                lemma_varint_truncate(s, next, limit_u64(), k);
                if count <= cap {
                    lemma_outputs_truncate(s, start, count, if k >= start { k } else { start });
                }
            }
        }
    }
}

/// Whether `lead`, put in front of a message that begins with the byte
/// `following`, makes a tag that names none of `variants` variants:
/// alone if its top bit is clear, together with `following` if it is set.
pub open spec fn stray_lead(lead: u8, following: u8, variants: int) -> bool {
    if lead < 128 {
        lead >= variants
    } else {
        following < 128 && (lead - 128) + 128 * following >= variants
    }
}

/// The levels of the outputs read back from their six bytes.
pub proof fn lemma_state_roundtrip(s: Seq<u8>, pos: int, state: State)
    requires
        window(s, pos, enc_state(state)),
    ensures
        parse_state(s, pos) == (Parse::Done { value: state, next: pos + 6 }),
{
    let e = enc_state(state);
    lemma_window_byte(s, pos, e, 0);
    lemma_window_byte(s, pos, e, 1);
    lemma_window_byte(s, pos, e, 2);
    lemma_window_byte(s, pos, e, 3);
    lemma_window_byte(s, pos, e, 4);
    lemma_window_byte(s, pos, e, 5);
}

/// Reading the levels of the outputs from a buffer cut short.
pub proof fn lemma_state_truncate(s: Seq<u8>, pos: int, k: int)
    requires
        0 <= k <= s.len(),
    ensures
        cut_agrees(parse_state(s, pos), parse_state(s.take(k), pos), k, s.len() as int),
        parse_state(s, pos) matches Parse::Done { next, .. } ==> pos < next,
{
}

/// The radio control's readings read back from their bytes.
pub proof fn lemma_controller_state_roundtrip(s: Seq<u8>, pos: int, state: ControllerState)
    requires
        window(s, pos, enc_controller_state(state)),
    ensures
        parse_controller_state(s, pos) == (Parse::Done {
            value: state,
            next: pos + enc_controller_state(state).len(),
        }),
{
    lemma_limits_ok();
    let flag = enc_bool(state.overridden);
    let throttle = enc_varint(state.throttle as int);
    let turn = enc_varint(state.turn as int);
    let switch = enc_varint(state.switch as int);
    lemma_window_split(s, pos, flag + throttle + turn, switch);
    lemma_window_split(s, pos, flag + throttle, turn);
    lemma_window_split(s, pos, flag, throttle);
    lemma_window_byte(s, pos, flag, 0);
    lemma_varint_roundtrip(s, pos + 1, state.throttle as int, limit_u16());
    lemma_varint_roundtrip(s, pos + 1 + throttle.len(), state.turn as int, limit_u16());
    lemma_varint_roundtrip(
        s,
        pos + 1 + throttle.len() + turn.len(),
        state.switch as int,
        limit_u16(),
    );
}

/// Reading the radio control's readings from a buffer cut short.
pub proof fn lemma_controller_state_truncate(s: Seq<u8>, pos: int, k: int)
    requires
        0 <= k <= s.len(),
    ensures
        cut_agrees(
            parse_controller_state(s, pos),
            parse_controller_state(s.take(k), pos),
            k,
            s.len() as int,
        ),
        parse_controller_state(s, pos) matches Parse::Done { next, .. } ==> pos < next,
{
    if let Parse::Done { value: overridden, next: a } = parse_bool(s, pos) {
        if let Parse::Done { value: throttle, next: b } = parse_varint(s, a, limit_u16()) {
            lemma_varint_truncate(s, a, limit_u16(), k);
            if let Parse::Done { value: turn, next: c } = parse_varint(s, b, limit_u16()) {
                lemma_varint_truncate(s, b, limit_u16(), k);
                if parse_varint(s, c, limit_u16()) is Done {
                    lemma_varint_truncate(s, c, limit_u16(), k);
                }
            }
        }
    }
}

/// Reading back a status message: where its bytes stand at the front of a
/// buffer, whatever follows them, the message is taken from the buffer and
/// just its bytes are used up.
pub proof fn lemma_status_roundtrip(m: StatusView, s: Seq<u8>)
    requires
        window(s, 0, enc_status(m)),
        m matches StatusView::Debug(payload) ==> payload.len() < limit_u64(),
    ensures
        decode_status(s) == (Parse::Done { value: m, next: enc_status(m).len() as int }),
{
    lemma_limits_ok();
    lemma_window_byte(s, 0, enc_status(m), 0);
    match m {
        StatusView::State(state) => {
            lemma_window_split(s, 0, seq![0u8], enc_state(state));
            lemma_state_roundtrip(s, 1, state);
        },
        StatusView::ControllerState(state) => {
            lemma_window_split(s, 0, seq![1u8], enc_controller_state(state));
            lemma_controller_state_roundtrip(s, 1, state);
        },
        StatusView::Debug(payload) => {
            let count = enc_varint(payload.len() as int);
            lemma_window_split(s, 0, seq![2u8] + count, payload);
            lemma_window_split(s, 0, seq![2u8], count);
            lemma_varint_roundtrip(s, 1, payload.len() as int, limit_u64());
        },
    }
}

/// A status message is never taken from a buffer that holds only a part of
/// it: where a message is taken from a buffer, the buffer cut anywhere
/// inside the message is found too short.
pub proof fn lemma_status_truncate(s: Seq<u8>, k: int)
    requires
        0 <= k <= s.len(),
    ensures
        cut_agrees(decode_status(s), decode_status(s.take(k)), k, s.len() as int),
        decode_status(s) matches Parse::Done { next, .. } ==> 0 < next,
{
    if let Parse::Done { value: tag, next } = parse_varint(s, 0, limit_u32()) {
        lemma_varint_truncate(s, 0, limit_u32(), k);
        if tag == 0 {
            lemma_state_truncate(s, next, k);
        } else if tag == 1 {
            lemma_controller_state_truncate(s, next, k);
        } else if tag == 2 {
            if let Parse::Done { value: count, next: start } = parse_varint(
                s,
                next,
                limit_u64(),
            ) {
                lemma_varint_truncate(s, next, limit_u64(), k);
                if k >= start && count >= 0 && start + count <= k {
                    assert(s.take(k).subrange(start, start + count) =~= s.subrange(
                        start,
                        start + count,
                    ));
                }
            }
        }
    }
}

/// A leading byte that is a whole tag and names no status message is told
/// as such, whatever follows it.
pub proof fn lemma_status_malformed_lead(s: Seq<u8>)
    requires
        s.len() >= 1,
        status_variants() <= s[0] < 128,
    ensures
        decode_status(s) is Invalid,
{
}

/// A word read back from its four bytes.
pub proof fn lemma_word_roundtrip(s: Seq<u8>, pos: int, w: u32)
    requires
        window(s, pos, enc_word(w)),
    ensures
        parse_word(s, pos) == (Parse::Done { value: w, next: pos + 4 }),
{
    let e = enc_word(w);
    lemma_window_byte(s, pos, e, 0);
    lemma_window_byte(s, pos, e, 1);
    lemma_window_byte(s, pos, e, 2);
    lemma_window_byte(s, pos, e, 3);
}

/// A list of words read back from its bytes.
pub proof fn lemma_words_roundtrip(s: Seq<u8>, pos: int, words: Seq<u32>)
    requires
        window(s, pos, enc_words(words)),
    ensures
        parse_words(s, pos, words.len() as int) == (Parse::Done {
            value: words,
            next: pos + enc_words(words).len(),
        }),
        enc_words(words).len() == 4 * words.len(),
    decreases words.len(),
{
    if words.len() == 0 {
        assert(words =~= Seq::<u32>::empty());
    } else {
        let rest = words.drop_first();
        lemma_window_split(s, pos, enc_word(words[0]), enc_words(rest));
        lemma_word_roundtrip(s, pos, words[0]);
        lemma_words_roundtrip(s, pos + 4, rest);
        assert(seq![words[0]] + rest =~= words);
    }
}

/// Reading a list of words from a buffer cut short.
pub proof fn lemma_words_truncate(s: Seq<u8>, pos: int, count: int, k: int)
    requires
        0 <= pos <= k <= s.len(),
    ensures
        cut_agrees(
            parse_words(s, pos, count),
            parse_words(s.take(k), pos, count),
            k,
            s.len() as int,
        ),
        parse_words(s, pos, count) matches Parse::Done { next, .. } ==> pos <= next,
    decreases count,
{
    if count > 0 {
        if let Parse::Done { value, next } = parse_word(s, pos) {
            if k >= next {
                lemma_words_truncate(s, next, count - 1, k);
            } else {
                if parse_words(s, next, count - 1) is Done {
                    lemma_words_truncate(s, next, count - 1, next);
                }
            }
        }
    }
}

/// Reading back a sensor message: where its bytes stand at the front of a
/// buffer, whatever follows them, the message is taken from the buffer and
/// just its 37 bytes are used up.
pub proof fn lemma_imu_roundtrip(m: ImuMessages, s: Seq<u8>)
    requires
        window(s, 0, enc_imu(m)),
    ensures
        decode_imu(s) == (Parse::Done { value: m, next: 37 }),
        enc_imu(m).len() == 37,
{
    lemma_window_byte(s, 0, enc_imu(m), 0);
    lemma_window_split(s, 0, seq![0u8], enc_words(imu_words(m)));
    lemma_words_roundtrip(s, 1, imu_words(m));
}

/// A sensor message is never taken from a buffer that holds only a part of
/// it: where a message is taken from a buffer, the buffer cut anywhere
/// inside the message is found too short.
pub proof fn lemma_imu_truncate(s: Seq<u8>, k: int)
    requires
        0 <= k <= s.len(),
    ensures
        cut_agrees(decode_imu(s), decode_imu(s.take(k)), k, s.len() as int),
        decode_imu(s) matches Parse::Done { next, .. } ==> 0 < next,
{
    if let Parse::Done { value: tag, next } = parse_varint(s, 0, limit_u32()) {
        lemma_varint_truncate(s, 0, limit_u32(), k);
        if tag == 0 {
            lemma_words_truncate(s, next, 9, if k >= next { k } else { next });
        }
    }
}

/// A leading byte that is a whole tag and names no sensor message is told
/// as such, whatever follows it.
pub proof fn lemma_imu_malformed_lead(s: Seq<u8>)
    requires
        s.len() >= 1,
        imu_variants() <= s[0] < 128,
    ensures
        decode_imu(s) is Invalid,
{
}

/// A control message that arrives byte by byte: while the buffer holds
/// only the first `k` bytes of the message there is no message yet and
/// the buffer stays; once it holds them all, the message is taken and the
/// buffer is empty.
pub proof fn lemma_control_byte_by_byte(m: ControlView, k: int)
    requires
        m matches ControlView::SetOutput(list) ==> list.len() < limit_u64(),
        0 <= k < enc_control(m).len(),
    ensures
        decode_control(enc_control(m).take(k)) is Incomplete,
        buffer_after(enc_control(m).take(k), decode_control(enc_control(m).take(k)))
            == enc_control(m).take(k),
        decode_control(enc_control(m)) == (Parse::Done {
            value: m,
            next: enc_control(m).len() as int,
        }),
        buffer_after(enc_control(m), decode_control(enc_control(m))) == Seq::<u8>::empty(),
{
    let e = enc_control(m);
    assert(e.subrange(0, e.len() as int) =~= e);
    lemma_control_roundtrip(m, e);
    lemma_control_truncate(e, k);
    assert(e.skip(e.len() as int) =~= Seq::<u8>::empty());
}

/// A status message that arrives byte by byte: while the buffer holds
/// only the first `k` bytes of the message there is no message yet and
/// the buffer stays; once it holds them all, the message is taken and the
/// buffer is empty.
pub proof fn lemma_status_byte_by_byte(m: StatusView, k: int)
    requires
        m matches StatusView::Debug(payload) ==> payload.len() < limit_u64(),
        0 <= k < enc_status(m).len(),
    ensures
        decode_status(enc_status(m).take(k)) is Incomplete,
        buffer_after(enc_status(m).take(k), decode_status(enc_status(m).take(k)))
            == enc_status(m).take(k),
        decode_status(enc_status(m)) == (Parse::Done {
            value: m,
            next: enc_status(m).len() as int,
        }),
        buffer_after(enc_status(m), decode_status(enc_status(m))) == Seq::<u8>::empty(),
{
    let e = enc_status(m);
    assert(e.subrange(0, e.len() as int) =~= e);
    lemma_status_roundtrip(m, e);
    lemma_status_truncate(e, k);
    assert(e.skip(e.len() as int) =~= Seq::<u8>::empty());
}

/// A sensor message that arrives byte by byte: while the buffer holds
/// only the first `k` of its 37 bytes there is no message yet and the
/// buffer stays; once it holds them all, the message is taken and the
/// buffer is empty.
pub proof fn lemma_imu_byte_by_byte(m: ImuMessages, k: int)
    requires
        0 <= k < 37,
    ensures
        decode_imu(enc_imu(m).take(k)) is Incomplete,
        buffer_after(enc_imu(m).take(k), decode_imu(enc_imu(m).take(k))) == enc_imu(m).take(k),
        decode_imu(enc_imu(m)) == (Parse::Done { value: m, next: 37 }),
        buffer_after(enc_imu(m), decode_imu(enc_imu(m))) == Seq::<u8>::empty(),
{
    let e = enc_imu(m);
    lemma_enc_imu_len(m);
    assert(e.subrange(0, e.len() as int) =~= e);
    lemma_imu_roundtrip(m, e);
    lemma_imu_truncate(e, k);
    assert(e.skip(e.len() as int) =~= Seq::<u8>::empty());
}

/// A sensor message takes 37 bytes.
pub proof fn lemma_enc_imu_len(m: ImuMessages)
    ensures
        enc_imu(m).len() == 37,
{
    let e = enc_imu(m);
    assert(e.subrange(0, e.len() as int) =~= e);
    lemma_imu_roundtrip(m, e);
}

/// One stray byte in front of a control message: where the byte makes a
/// tag that names no control message, the first attempt gives no message
/// and empties the buffer, the message behind the byte with it.
pub proof fn lemma_control_resync(lead: u8, m: ControlView)
    requires
        stray_lead(lead, enc_control(m)[0], control_variants()),
    ensures
        decode_control(seq![lead] + enc_control(m)) is Invalid,
        buffer_after(seq![lead] + enc_control(m), decode_control(seq![lead] + enc_control(m)))
            == Seq::<u8>::empty(),
{
    let s = seq![lead] + enc_control(m);
    assert(s[0] == lead);
    assert(s[1] == enc_control(m)[0]);
    if lead < 128 {
        lemma_control_malformed_lead(s);
    } else {
        assert(parse_varint(s, 1, limit_u32() / 128) == (Parse::Done {
            value: s[1] as int,
            next: 2,
        }));
    }
}

/// One stray byte in front of a status message: where the byte makes a
/// tag that names no status message, the first attempt gives no message
/// and empties the buffer, the message behind the byte with it.
pub proof fn lemma_status_resync(lead: u8, m: StatusView)
    requires
        stray_lead(lead, enc_status(m)[0], status_variants()),
    ensures
        decode_status(seq![lead] + enc_status(m)) is Invalid,
        buffer_after(seq![lead] + enc_status(m), decode_status(seq![lead] + enc_status(m)))
            == Seq::<u8>::empty(),
{
    let s = seq![lead] + enc_status(m);
    assert(s[0] == lead);
    assert(s[1] == enc_status(m)[0]);
    if lead < 128 {
        lemma_status_malformed_lead(s);
    } else {
        assert(parse_varint(s, 1, limit_u32() / 128) == (Parse::Done {
            value: s[1] as int,
            next: 2,
        }));
    }
}

/// One stray byte in front of a sensor message: where the byte makes a
/// tag that names no sensor message, the first attempt gives no message
/// and empties the buffer, the message behind the byte with it.
pub proof fn lemma_imu_resync(lead: u8, m: ImuMessages)
    requires
        stray_lead(lead, enc_imu(m)[0], imu_variants()),
    ensures
        decode_imu(seq![lead] + enc_imu(m)) is Invalid,
        buffer_after(seq![lead] + enc_imu(m), decode_imu(seq![lead] + enc_imu(m)))
            == Seq::<u8>::empty(),
{
    let s = seq![lead] + enc_imu(m);
    assert(s[0] == lead);
    assert(s[1] == enc_imu(m)[0]);
    if lead < 128 {
        lemma_imu_malformed_lead(s);
    } else {
        assert(parse_varint(s, 1, limit_u32() / 128) == (Parse::Done {
            value: s[1] as int,
            next: 2,
        }));
    }
}

} // verus!
