//! The streaming codecs of the two serial links. Each takes messages from
//! the front of a receive buffer that the transport appends to, and writes
//! messages into a send buffer.
use crate::codec::{read_imu, read_status, write_control, write_imu};
use crate::framing::{decode_imu, decode_status, enc_control, enc_imu};
use crate::imu_types::ImuMessages;
use crate::microcontroller_types::{MicroControlMessages, MicroStatusMessages};
use crate::wire::{Parse, Parsed};
use bytes::Buf;
use vstd::prelude::*;

verus! {

#[verifier::external_type_specification]
#[verifier::external_body]
pub struct ExBytesMut(bytes::BytesMut);

/// The bytes that a buffer holds, first to last.
pub uninterp spec fn buffer_bytes(buffer: bytes::BytesMut) -> Seq<u8>;

/// `bytes::BytesMut` seen as a slice (its `AsRef<[u8]>`): the slice holds
/// the buffer's bytes.
#[verifier::external_body]
fn buffer_slice(buffer: &bytes::BytesMut) -> (slice: &[u8])
    ensures
        slice@ == buffer_bytes(*buffer),
{
    buffer.as_ref()
}

/// `bytes::BytesMut::clear`: the buffer holds nothing afterwards.
#[verifier::external_body]
fn buffer_clear(buffer: &mut bytes::BytesMut)
    ensures
        buffer_bytes(*final(buffer)) == Seq::<u8>::empty(),
{
    buffer.clear()
}

/// `bytes::Buf::advance` on `bytes::BytesMut`: the first `count` bytes
/// leave the buffer and the rest stay in their order. It panics where
/// `count` is more than the buffer holds, so that is left out.
#[verifier::external_body]
fn buffer_advance(buffer: &mut bytes::BytesMut, count: usize)
    requires
        count <= buffer_bytes(*old(buffer)).len(),
    ensures
        buffer_bytes(*final(buffer)) == buffer_bytes(*old(buffer)).skip(count as int),
{
    buffer.advance(count)
}

/// `bytes::BytesMut::extend_from_slice`: the bytes of `extend` are
/// appended to the buffer.
#[verifier::external_body]
fn buffer_extend(buffer: &mut bytes::BytesMut, extend: &[u8])
    ensures
        buffer_bytes(*final(buffer)) == buffer_bytes(*old(buffer)) + extend@,
{
    buffer.extend_from_slice(extend)
}

/// Why a codec gave up on its input.
#[derive(Clone, Copy, Debug, PartialEq, Eq, Structural)]
pub enum CodecError {
    /// The receive buffer held bytes that can stand in no message.
    Decoding,
    /// The message does not fit the link's send buffer.
    Encoding,
}

/// Most bytes that one message of the sensor link may take.
pub const IMU_CAPACITY: usize = 64;

/// Most bytes that one message of the controller link may take.
pub const MICRO_CAPACITY: usize = 250;

/// What one attempt to take a message from a receive buffer leaves in the
/// buffer: a message's bytes leave it, a buffer that is too short stays as
/// it is, and anything else empties it.
pub open spec fn buffer_after<T>(before: Seq<u8>, attempt: Parse<T>) -> Seq<u8> {
    match attempt {
        Parse::Done { next, .. } => before.skip(next),
        Parse::Incomplete => before,
        Parse::Invalid => Seq::empty(),
        Parse::Failed => Seq::empty(),
    }
}

/// Codec of the link from the sensor module.
pub struct ImuPacketCodec;

impl ImuPacketCodec {
    /// Tries to take one sensor message from the front of `src`.
    pub fn decode(&mut self, src: &mut bytes::BytesMut) -> (r: Result<
        Option<ImuMessages>,
        CodecError,
    >)
        ensures
            buffer_bytes(*final(src)) == buffer_after(
                buffer_bytes(*old(src)),
                decode_imu(buffer_bytes(*old(src))),
            ),
            r == match decode_imu(buffer_bytes(*old(src))) {
                Parse::Done { value, .. } => Ok::<Option<ImuMessages>, CodecError>(Some(value)),
                Parse::Incomplete => Ok(None),
                Parse::Invalid => Ok(None),
                Parse::Failed => Err(CodecError::Decoding),
            },
    {
        let attempt = read_imu(buffer_slice(src));
        match attempt {
            Parsed::Done { value, next } => {
                proof {
                    crate::framing_proofs::lemma_imu_truncate(
                        buffer_bytes(*src),
                        buffer_bytes(*src).len() as int,
                    );
                }
                buffer_advance(src, next);
                Ok(Some(value))
            },
            Parsed::Incomplete => Ok(None),
            Parsed::Invalid => {
                buffer_clear(src);
                Ok(None)
            },
            Parsed::Failed => {
                buffer_clear(src);
                Err(CodecError::Decoding)
            },
        }
    }

    /// Writes one sensor message into `dst`, in place of what it held. A
    /// sensor message always fits.
    pub fn encode(&mut self, item: ImuMessages, dst: &mut bytes::BytesMut) -> (r: Result<
        (),
        CodecError,
    >)
        ensures
            r is Ok,
            buffer_bytes(*final(dst)) == enc_imu(item),
            enc_imu(item).len() <= IMU_CAPACITY,
    {
        let bytes = write_imu(&item);
        proof {
            crate::framing_proofs::lemma_enc_imu_len(item);
        }
        buffer_clear(dst);
        buffer_extend(dst, bytes.as_slice());
        assert(Seq::<u8>::empty() + bytes@ =~= bytes@);
        Ok(())
    }
}

/// Codec of the link to the propulsion controller, on the host's side.
pub struct MicroPacketCodec;

impl MicroPacketCodec {
    /// Tries to take one status message from the front of `src`.
    pub fn decode(&mut self, src: &mut bytes::BytesMut) -> (r: Result<
        Option<MicroStatusMessages>,
        CodecError,
    >)
        ensures
            buffer_bytes(*final(src)) == buffer_after(
                buffer_bytes(*old(src)),
                decode_status(buffer_bytes(*old(src))),
            ),
            match decode_status(buffer_bytes(*old(src))) {
                Parse::Done { value, .. } => r matches Ok(Some(message)) && message@ == value,
                Parse::Incomplete => r == Ok::<Option<MicroStatusMessages>, CodecError>(None),
                Parse::Invalid => r == Ok::<Option<MicroStatusMessages>, CodecError>(None),
                Parse::Failed => r == Err::<Option<MicroStatusMessages>, CodecError>(
                    CodecError::Decoding,
                ),
            },
    {
        let attempt = read_status(buffer_slice(src));
        match attempt {
            Parsed::Done { value, next } => {
                proof {
                    crate::framing_proofs::lemma_status_truncate(
                        buffer_bytes(*src),
                        buffer_bytes(*src).len() as int,
                    );
                }
                buffer_advance(src, next);
                Ok(Some(value))
            },
            Parsed::Incomplete => Ok(None),
            Parsed::Invalid => {
                buffer_clear(src);
                Ok(None)
            },
            Parsed::Failed => {
                buffer_clear(src);
                Err(CodecError::Decoding)
            },
        }
    }

    /// Writes one control message into `dst`, in place of what it held. A
    /// message of more than `MICRO_CAPACITY` bytes is refused, and `dst`
    /// is left as it was.
    pub fn encode(&mut self, item: MicroControlMessages, dst: &mut bytes::BytesMut) -> (r:
        Result<(), CodecError>)
        ensures
            enc_control(item@).len() <= MICRO_CAPACITY ==> r is Ok && buffer_bytes(*final(dst))
                == enc_control(item@),
            enc_control(item@).len() > MICRO_CAPACITY ==> r == Err::<(), CodecError>(
                CodecError::Encoding,
            ) && buffer_bytes(*final(dst)) == buffer_bytes(*old(dst)),
    {
        let bytes = write_control(&item);
        if bytes.len() <= MICRO_CAPACITY {
            buffer_clear(dst);
            buffer_extend(dst, bytes.as_slice());
            assert(Seq::<u8>::empty() + bytes@ =~= bytes@);
            Ok(())
        } else {
            Err(CodecError::Encoding)
        }
    }
}

} // verus!
