//! The propulsion controller's end of its serial link: a receive buffer of
//! fixed size that bytes from the wire are put into one by one, control
//! messages taken from its front, and status messages written for the wire.
use crate::codec::{read_control_within, write_status};
use crate::framing::{decode_control_within, enc_status};
use crate::microcontroller_types::{MicroControlMessages, MicroStatusMessages};
use crate::packet_codec::buffer_after;
use crate::wire::{Parse, Parsed};
use vstd::prelude::*;
use vstd::slice::{slice_subrange, slice_to_vec};

verus! {

#[verifier::external_type_specification]
#[verifier::external_body]
#[verifier::reject_recursive_types(T)]
pub struct ExHeaplessVec<T, const N: usize>(heapless::Vec<T, N>);

/// Number of bytes that fill the receive buffer.
pub const MAX_VEC_LENGTH: usize = 100;

/// Number of outputs that one control message may set at most.
pub const MAX_OUTPUTS: u64 = 7;

/// The bytes that a receive buffer holds, first to last.
pub uninterp spec fn store_bytes(store: heapless::Vec<u8, 100>) -> Seq<u8>;

/// `heapless::Vec::new`: a buffer that holds nothing.
#[verifier::external_body]
fn store_new() -> (store: heapless::Vec<u8, 100>)
    ensures
        store_bytes(store) == Seq::<u8>::empty(),
{
    heapless::Vec::new()
}

/// `heapless::Vec::as_slice`: the slice holds the buffer's bytes, which
/// are never more than the buffer's fixed size.
#[verifier::external_body]
fn store_slice(store: &heapless::Vec<u8, 100>) -> (slice: &[u8])
    ensures
        slice@ == store_bytes(*store),
        slice@.len() <= 100,
{
    store.as_slice()
}

/// `heapless::Vec::push`: the byte is appended if the buffer has room for
/// it; if not, the buffer stays as it is and the byte comes back.
#[verifier::external_body]
fn store_push(store: &mut heapless::Vec<u8, 100>, byte: u8) -> (r: Result<(), u8>)
    ensures
        r == (if store_bytes(*old(store)).len() < 100 {
            Ok::<(), u8>(())
        } else {
            Err::<(), u8>(byte)
        }),
        store_bytes(*final(store)) == (if store_bytes(*old(store)).len() < 100 {
            store_bytes(*old(store)).push(byte)
        } else {
            store_bytes(*old(store))
        }),
{
    store.push(byte)
}

/// `heapless::Vec::clear`: the buffer holds nothing afterwards.
#[verifier::external_body]
fn store_clear(store: &mut heapless::Vec<u8, 100>)
    ensures
        store_bytes(*final(store)) == Seq::<u8>::empty(),
{
    store.clear()
}

/// Why the link has no message to give or could not take one.
#[derive(Clone, Copy, Debug, PartialEq, Eq, Structural)]
pub enum UsbCommsError {
    /// The receive buffer is empty.
    NothingRead,
    /// The receive buffer does not hold a whole message at its front.
    ParseError,
    /// The receive buffer ran full and was emptied.
    BufferOverflow,
    /// The message to write is longer than the link allows.
    DecodeError,
}

/// The controller's end of the link.
pub struct UsbComms {
    data_buffer: heapless::Vec<u8, 100>,
}

impl UsbComms {
    /// The bytes received and not yet used up.
    pub closed spec fn buffered(&self) -> Seq<u8> {
        store_bytes(self.data_buffer)
    }

    /// A link that has received nothing.
    pub fn new() -> (link: Self)
        ensures
            link.buffered() == Seq::<u8>::empty(),
    {
        UsbComms { data_buffer: store_new() }
    }

    /// Number of bytes received and not yet used up.
    pub fn pending(&self) -> (count: usize)
        ensures
            count == self.buffered().len(),
            count <= MAX_VEC_LENGTH,
    {
        store_slice(&self.data_buffer).len()
    }

    /// Puts one byte from the wire into the receive buffer. The byte that
    /// fills the buffer empties it, and is reported as an overflow.
    pub fn accept(&mut self, byte: u8) -> (r: Result<(), UsbCommsError>)
        ensures
            old(self).buffered().len() + 1 < MAX_VEC_LENGTH ==> r is Ok && final(self).buffered()
                == old(self).buffered().push(byte),
            old(self).buffered().len() + 1 == MAX_VEC_LENGTH ==> r == Err::<(), UsbCommsError>(
                UsbCommsError::BufferOverflow,
            ) && final(self).buffered() == Seq::<u8>::empty(),
            old(self).buffered().len() + 1 > MAX_VEC_LENGTH ==> r == Err::<(), UsbCommsError>(
                UsbCommsError::BufferOverflow,
            ) && final(self).buffered() == old(self).buffered(),
    {
        match store_push(&mut self.data_buffer, byte) {
            Ok(_) => {},
            Err(_) => {
                return Err(UsbCommsError::BufferOverflow);
            },
        }
        if store_slice(&self.data_buffer).len() == MAX_VEC_LENGTH {
            store_clear(&mut self.data_buffer);
            return Err(UsbCommsError::BufferOverflow);
        }
        Ok(())
    }

    /// Tries to take one control message from the front of the receive
    /// buffer. A message's bytes leave the buffer; a buffer that holds
    /// only the beginning of a message stays as it is; bytes that can
    /// stand in no message, or a list of more than `MAX_OUTPUTS` outputs,
    /// empty the buffer.
    pub fn poll(&mut self) -> (r: Result<MicroControlMessages, UsbCommsError>)
        ensures
            old(self).buffered().len() == 0 ==> r == Err::<MicroControlMessages, UsbCommsError>(
                UsbCommsError::NothingRead,
            ) && final(self).buffered() == old(self).buffered(),
            old(self).buffered().len() > 0 ==> {
                &&& final(self).buffered() == buffer_after(
                    old(self).buffered(),
                    decode_control_within(old(self).buffered(), MAX_OUTPUTS as int),
                )
                &&& match decode_control_within(old(self).buffered(), MAX_OUTPUTS as int) {
                    Parse::Done { value, .. } => r matches Ok(message) && message@ == value,
                    _ => r == Err::<MicroControlMessages, UsbCommsError>(
                        UsbCommsError::ParseError,
                    ),
                }
            },
    {
        let held = store_slice(&self.data_buffer);
        if held.len() == 0 {
            return Err(UsbCommsError::NothingRead);
        }
        match read_control_within(held, MAX_OUTPUTS) {
            Parsed::Done { value, next } => {
                proof {
                    crate::framing_proofs::lemma_control_within_truncate(
                        held@,
                        MAX_OUTPUTS as int,
                        held@.len() as int,
                    );
                }
                let rest = slice_to_vec(slice_subrange(held, next, held.len()));
                assert(rest@ =~= old(self).buffered().skip(next as int));
                store_clear(&mut self.data_buffer);
                let mut i: usize = 0;
                while i < rest.len()
                    invariant
                        i <= rest@.len() <= 100,
                        store_bytes(self.data_buffer) == rest@.take(i as int),
                    decreases rest@.len() - i,
                {
                    let pushed = store_push(&mut self.data_buffer, rest[i]);
                    assert(rest@.take(i as int).push(rest@[i as int]) =~= rest@.take(i + 1));
                    i = i + 1;
                }
                assert(rest@.take(i as int) =~= rest@);
                Ok(value)
            },
            Parsed::Incomplete => Err(UsbCommsError::ParseError),
            Parsed::Invalid => {
                store_clear(&mut self.data_buffer);
                Err(UsbCommsError::ParseError)
            },
            Parsed::Failed => {
                store_clear(&mut self.data_buffer);
                Err(UsbCommsError::ParseError)
            },
        }
    }

    /// The bytes of a status message for the wire. A message of more than
    /// `MAX_VEC_LENGTH` bytes is refused.
    pub fn write_packet(&self, packet: &MicroStatusMessages) -> (r: Result<
        Vec<u8>,
        UsbCommsError,
    >)
        ensures
            enc_status(packet@).len() <= MAX_VEC_LENGTH ==> r is Ok && r->Ok_0@ == enc_status(
                packet@,
            ),
            enc_status(packet@).len() > MAX_VEC_LENGTH ==> r == Err::<Vec<u8>, UsbCommsError>(
                UsbCommsError::DecodeError,
            ),
    {
        let bytes = write_status(packet);
        if bytes.len() <= MAX_VEC_LENGTH {
            Ok(bytes)
        } else {
            Err(UsbCommsError::DecodeError)
        }
    }
}

} // verus!
