//! Encrypted frames of the stream: every frame is one Noise transport
//! message, sealed under the next nonce of its direction.
//!
//! Each direction keeps its own nonce. A nonce is used for exactly one frame
//! and then advanced by one; a direction whose nonce reached `u64::MAX` can
//! send or receive no more frames.

use vstd::prelude::*;
use vstd::slice::slice_subrange;

use crate::noise::{noise_protocol_name, noise_seal, transport_read, transport_write, Transport};
use crate::packet::ProtocolError;

verus! {

/// Largest frame on the wire, in bytes (the length prefix is a `u16`).
pub const MAX_FRAME: usize = 65535;

/// Length of the authentication tag of each frame.
pub const TAG_LEN: usize = 16;

/// Largest plaintext that one frame carries.
pub const MAX_FRAME_PAYLOAD: usize = 65519;

/// Why the encrypted stream could not go on.
#[derive(Debug, Clone, Copy, PartialEq, Eq, Structural)]
pub enum StreamError {
    /// A packet is too large for a single frame.
    PacketTooLarge,
    /// The nonce of a direction is exhausted.
    NonceExhausted,
    /// The Noise library refused an operation (bad key, bad frame, bad state).
    Noise,
    /// A frame decrypted to no plaintext.
    EmptyFrame,
    /// A handshake message carried a payload.
    UnexpectedHandshakePayload,
    /// A frame did not hold a packet of this protocol.
    Protocol(ProtocolError),
}

/// Moves a nonce to the next value. A nonce may move onto `u64::MAX`, but no
/// frame is sealed or opened under that value, and it cannot move further: it
/// is exhausted.
pub fn advance_nonce(nonce: &mut u64) -> (result: Result<(), StreamError>)
    ensures
        *old(nonce) < u64::MAX ==> result is Ok && *final(nonce) == *old(nonce) + 1,
        *old(nonce) == u64::MAX ==> result == Err::<(), StreamError>(StreamError::NonceExhausted)
            && *final(nonce) == *old(nonce),
{
    match nonce.checked_add(1) {
        Some(next) => {
            *nonce = next;
            Ok(())
        },
        None => Err(StreamError::NonceExhausted),
    }
}

/// Seals a whole packet into one frame under the current nonce, then
/// advances the nonce. A plaintext longer than one frame can carry is refused
/// before anything is encrypted.
pub fn seal_frame(
    transport: &Transport,
    nonce: &mut u64,
    plaintext: &[u8],
) -> (frame: Result<Vec<u8>, StreamError>)
    ensures
        plaintext@.len() > MAX_FRAME_PAYLOAD ==> frame == Err::<Vec<u8>, StreamError>(
            StreamError::PacketTooLarge,
        ),
        plaintext@.len() <= MAX_FRAME_PAYLOAD ==> !(frame matches Err(StreamError::PacketTooLarge)),
        transport.protocol() == noise_protocol_name() && plaintext@.len() <= MAX_FRAME_PAYLOAD
            && *old(nonce) < u64::MAX ==> frame is Ok,
        *old(nonce) == u64::MAX ==> frame is Err,
        frame is Err ==> *final(nonce) == *old(nonce),
        frame matches Err(e) ==> e == StreamError::PacketTooLarge || e == StreamError::Noise,
        frame matches Ok(f) ==> f@.len() == plaintext@.len() + TAG_LEN && *old(nonce) < u64::MAX
            && *final(nonce) == *old(nonce) + 1,
        frame matches Ok(f) ==> f@ == noise_seal(transport.send_key(), *old(nonce), plaintext@),
{
    if plaintext.len() > MAX_FRAME - TAG_LEN {
        return Err(StreamError::PacketTooLarge);
    }
    let mut ciphertext: Vec<u8> = vec![0u8; MAX_FRAME];
    let length = match transport_write(transport, *nonce, plaintext, &mut ciphertext) {
        Ok(length) => length,
        Err(_) => {
            return Err(StreamError::Noise);
        },
    };
    advance_nonce(nonce)?;
    ciphertext.truncate(length);
    Ok(ciphertext)
}

/// Seals the first chunk of a write into one frame: as much of `plaintext` as
/// one frame carries. An empty write seals nothing and leaves the nonce alone.
/// Returns how many bytes were taken, with the frame that carries them.
pub fn seal_chunk(
    transport: &Transport,
    nonce: &mut u64,
    plaintext: &[u8],
) -> (chunk: Result<(usize, Option<Vec<u8>>), StreamError>)
    ensures
        plaintext@.len() == 0 ==> chunk == Ok::<(usize, Option<Vec<u8>>), StreamError>((0, None))
            && *final(nonce) == *old(nonce),
        plaintext@.len() > 0 && *old(nonce) == u64::MAX ==> chunk is Err,
        transport.protocol() == noise_protocol_name() && plaintext@.len() > 0 && *old(nonce)
            < u64::MAX ==> chunk matches Ok((_, Some(_))),
        chunk is Err ==> *final(nonce) == *old(nonce),
        chunk matches Err(e) ==> e == StreamError::Noise,
        chunk matches Ok((count, Some(f))) ==> count == chunk_len(plaintext@.len())
            && f@.len() == count + TAG_LEN && *old(nonce) < u64::MAX
            && *final(nonce) == *old(nonce) + 1,
        chunk matches Ok((count, Some(f))) ==> f@ == noise_seal(
            transport.send_key(),
            *old(nonce),
            plaintext@.take(count as int),
        ),
        chunk matches Ok((count, None)) ==> plaintext@.len() == 0,
{
    if plaintext.len() == 0 {
        return Ok((0, None));
    }
    let count: usize = if plaintext.len() < MAX_FRAME - TAG_LEN {
        plaintext.len()
    } else {
        MAX_FRAME - TAG_LEN
    };
    let mut ciphertext: Vec<u8> = vec![0u8; count + TAG_LEN];
    let taken = slice_subrange(plaintext, 0, count);
    let length = match transport_write(transport, *nonce, taken, &mut ciphertext) {
        Ok(length) => length,
        Err(_) => {
            return Err(StreamError::Noise);
        },
    };
    advance_nonce(nonce)?;
    ciphertext.truncate(length);
    Ok((count, Some(ciphertext)))
}

/// How many bytes of a write of `len` bytes the next frame carries.
pub open spec fn chunk_len(len: nat) -> nat {
    if len < MAX_FRAME_PAYLOAD {
        len
    } else {
        MAX_FRAME_PAYLOAD as nat
    }
}

/// Opens one frame under the current nonce, then advances the nonce. A frame
/// that does not authenticate under this nonce is refused and the nonce stays.
pub fn open_frame(
    transport: &Transport,
    nonce: &mut u64,
    ciphertext: &[u8],
) -> (plaintext: Result<Vec<u8>, StreamError>)
    ensures
        ciphertext@.len() < TAG_LEN ==> plaintext is Err,
        ciphertext@.len() > MAX_FRAME ==> plaintext is Err,
        *old(nonce) == u64::MAX ==> plaintext is Err,
        plaintext is Err ==> *final(nonce) == *old(nonce),
        plaintext matches Err(e) ==> e == StreamError::Noise,
        plaintext matches Ok(p) ==> p@.len() + TAG_LEN == ciphertext@.len() && *old(nonce)
            < u64::MAX && *final(nonce) == *old(nonce) + 1,
        plaintext matches Ok(p) ==> noise_seal(transport.recv_key(), *old(nonce), p@) == ciphertext@,
{
    let mut buffer: Vec<u8> = vec![0u8; MAX_FRAME];
    let length = match transport_read(transport, *nonce, ciphertext, &mut buffer) {
        Ok(length) => length,
        Err(_) => {
            return Err(StreamError::Noise);
        },
    };
    advance_nonce(nonce)?;
    buffer.truncate(length);
    Ok(buffer)
}

/// The plaintext lengths of the frames that a write of `len` bytes goes out
/// in, when it is sealed chunk by chunk until nothing is left.
pub open spec fn frame_lengths(len: nat) -> Seq<nat>
    decreases len,
{
    if len == 0 {
        Seq::empty()
    } else {
        seq![chunk_len(len)] + frame_lengths((len - chunk_len(len)) as nat)
    }
}

/// The sum of a sequence of lengths.
pub open spec fn total(lengths: Seq<nat>) -> nat
    decreases lengths.len(),
{
    if lengths.len() == 0 {
        0
    } else {
        lengths[0] + total(lengths.drop_first())
    }
}

/// A write of `len` bytes goes out in frames that together carry exactly
/// the written bytes, each carrying between 1 and `MAX_FRAME_PAYLOAD` bytes,
/// all full but the last.
pub proof fn lemma_frames_cover_write(len: nat)
    ensures
        total(frame_lengths(len)) == len,
        forall|i: int|
            0 <= i < frame_lengths(len).len() ==> 0 < #[trigger] frame_lengths(len)[i]
                <= MAX_FRAME_PAYLOAD,
        forall|i: int|
            0 <= i < frame_lengths(len).len() - 1 ==> #[trigger] frame_lengths(len)[i]
                == MAX_FRAME_PAYLOAD,
    decreases len,
{
    if len > 0 {
        let rest = (len - chunk_len(len)) as nat;
        lemma_frames_cover_write(rest);
        let lengths = frame_lengths(len);
        assert(lengths.drop_first() =~= frame_lengths(rest));
        assert forall|i: int| 0 <= i < lengths.len() implies 0 < #[trigger] lengths[i]
            <= MAX_FRAME_PAYLOAD by {
            if i > 0 {
                assert(lengths[i] == frame_lengths(rest)[i - 1]);
            }
        }
        assert forall|i: int| 0 <= i < lengths.len() - 1 implies #[trigger] lengths[i]
            == MAX_FRAME_PAYLOAD by {
            if i > 0 {
                assert(lengths[i] == frame_lengths(rest)[i - 1]);
            } else {
                assert(rest > 0);
            }
        }
    }
}

} // verus!
