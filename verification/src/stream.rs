//! The state of each half of an encrypted stream, apart from its socket:
//! the direction's nonce and, for reading, the plaintext of the last frame
//! that was not yet handed out.
//!
//! Reads hand out plaintext in the order the frames arrived: everything
//! handed out, followed by what stays buffered, is always the plaintext of
//! the frames opened so far, one after the other (`ReadStateView::in_order`).

use vstd::prelude::*;

use crate::envelope::{decode_packet, encode_packet, envelope_bytes, receive_spec, EnvelopeView};
use crate::frame::{open_frame, seal_chunk, seal_frame, chunk_len, StreamError, TAG_LEN};
use crate::noise::{noise_protocol_name, noise_seal, Transport};
use crate::packet::{Packet, PacketView, PROTOCOL_VERSION};

verus! {

/// A growable byte buffer of the `bytes` crate.
#[verifier::external_type_specification]
#[verifier::external_body]
pub struct ExBytesMut(bytes::BytesMut);

/// The bytes that a `BytesMut` holds, in order.
pub uninterp spec fn bytes_mut_contents(buffer: bytes::BytesMut) -> Seq<u8>;

/// Calls `bytes::BytesMut::new`, an empty buffer.
#[verifier::external_body]
fn bytes_mut_new() -> (buffer: bytes::BytesMut)
    ensures
        bytes_mut_contents(buffer) == Seq::<u8>::empty(),
{
    bytes::BytesMut::new()
}

/// Calls `bytes::BytesMut::len`, the number of bytes held.
#[verifier::external_body]
fn bytes_mut_len(buffer: &bytes::BytesMut) -> (len: usize)
    ensures
        len == bytes_mut_contents(*buffer).len(),
{
    buffer.len()
}

/// Calls `bytes::BytesMut::split_to`, which removes the first `at` bytes and
/// returns them (here copied into a `Vec`); it panics when `at` exceeds the
/// length.
#[verifier::external_body]
fn bytes_mut_split_to(buffer: &mut bytes::BytesMut, at: usize) -> (front: Vec<u8>)
    requires
        at <= bytes_mut_contents(*old(buffer)).len(),
    ensures
        front@ == bytes_mut_contents(*old(buffer)).take(at as int),
        bytes_mut_contents(*final(buffer)) == bytes_mut_contents(*old(buffer)).skip(at as int),
{
    buffer.split_to(at).to_vec()
}

/// Calls `bytes::BytesMut::extend_from_slice`, which appends the bytes.
#[verifier::external_body]
fn bytes_mut_extend(buffer: &mut bytes::BytesMut, data: &[u8])
    ensures
        bytes_mut_contents(*final(buffer)) == bytes_mut_contents(*old(buffer)) + data@,
{
    buffer.extend_from_slice(data)
}

/// The plaintext received but not yet handed out.
pub struct PlaintextBuffer {
    pending: bytes::BytesMut,
}

impl View for PlaintextBuffer {
    type V = Seq<u8>;

    closed spec fn view(&self) -> Seq<u8> {
        bytes_mut_contents(self.pending)
    }
}

/// What a read can do right away.
pub enum ReadStep {
    /// Hand out these bytes (none when the reader asked for none).
    Ready(Vec<u8>),
    /// Nothing is buffered: the next frame must be received first.
    NeedFrame,
}

/// The smaller of two lengths.
pub open spec fn min_len(a: int, b: int) -> int {
    if a < b {
        a
    } else {
        b
    }
}

impl PlaintextBuffer {
    /// An empty buffer.
    pub fn new() -> (buffer: PlaintextBuffer)
        ensures
            buffer@ == Seq::<u8>::empty(),
    {
        PlaintextBuffer { pending: bytes_mut_new() }
    }

    /// The number of buffered bytes.
    pub fn len(&self) -> (len: usize)
        ensures
            len == self@.len(),
    {
        bytes_mut_len(&self.pending)
    }

    /// Serves a read of up to `capacity` bytes from the buffer: as many bytes
    /// as fit, from the front. A read of no bytes is served at once; a read
    /// on an empty buffer needs a frame.
    pub fn read(&mut self, capacity: usize) -> (step: ReadStep)
        ensures
            capacity == 0 ==> (step matches ReadStep::Ready(out) && out@.len() == 0) && final(self)@ == old(self)@,
            capacity > 0 && old(self)@.len() == 0 ==> step is NeedFrame && final(self)@ == old(self)@,
            capacity > 0 && old(self)@.len() > 0 ==> (step matches ReadStep::Ready(out) && out@
                == old(self)@.take(min_len(capacity as int, old(self)@.len() as int))
                && final(self)@ == old(self)@.skip(
                min_len(capacity as int, old(self)@.len() as int),
            )),
            step matches ReadStep::Ready(out) ==> out@ + final(self)@ == old(self)@,
    {
        if capacity == 0 {
            return ReadStep::Ready(Vec::new());
        }
        let len = bytes_mut_len(&self.pending);
        if len == 0 {
            return ReadStep::NeedFrame;
        }
        let count = if capacity < len {
            capacity
        } else {
            len
        };
        let out = bytes_mut_split_to(&mut self.pending, count);
        proof {
            let old_view = old(self)@;
            assert(old_view.take(count as int) + old_view.skip(count as int) =~= old_view);
        }
        ReadStep::Ready(out)
    }

    /// Takes the plaintext of a new frame and serves a read of up to
    /// `capacity` bytes. A frame without plaintext is refused.
    pub fn push_frame(&mut self, plaintext: &[u8], capacity: usize) -> (out: Result<
        Vec<u8>,
        StreamError,
    >)
        ensures
            plaintext@.len() == 0 ==> out == Err::<Vec<u8>, StreamError>(StreamError::EmptyFrame)
                && final(self)@ == old(self)@,
            plaintext@.len() > 0 ==> (out matches Ok(o) && o@.len() == min_len(
                capacity as int,
                (old(self)@.len() + plaintext@.len()) as int,
            ) && o@ + final(self)@ == old(self)@ + plaintext@),
    {
        if plaintext.len() == 0 {
            return Err(StreamError::EmptyFrame);
        }
        bytes_mut_extend(&mut self.pending, plaintext);
        let len = bytes_mut_len(&self.pending);
        let count = if capacity < len {
            capacity
        } else {
            len
        };
        let out = bytes_mut_split_to(&mut self.pending, count);
        proof {
            let all = old(self)@ + plaintext@;
            assert(all.take(count as int) + all.skip(count as int) =~= all);
        }
        Ok(out)
    }
}

/// The receiving half's state: its nonce and its buffered plaintext, with
/// the plaintext of every frame opened so far and every byte handed out.
pub struct ReadState {
    nonce: u64,
    buffer: PlaintextBuffer,
    frames: Ghost<Seq<Seq<u8>>>,
    delivered: Ghost<Seq<u8>>,
}

/// The receiving half's state as mathematical values: the nonce, the
/// buffered plaintext, the plaintext of each frame opened so far in order,
/// and all bytes handed out so far in order.
pub struct ReadStateView {
    pub nonce: u64,
    pub pending: Seq<u8>,
    pub frames: Seq<Seq<u8>>,
    pub delivered: Seq<u8>,
}

/// The frames' plaintexts, one after the other.
pub open spec fn concat_frames(frames: Seq<Seq<u8>>) -> Seq<u8>
    decreases frames.len(),
{
    if frames.len() == 0 {
        Seq::empty()
    } else {
        concat_frames(frames.drop_last()) + frames.last()
    }
}

impl ReadStateView {
    /// Nothing lost, repeated or reordered: the bytes handed out, followed by
    /// those still buffered, are the frames' plaintexts in the order the
    /// frames were opened, and the nonce counts the frames.
    pub open spec fn in_order(self) -> bool {
        &&& self.delivered + self.pending == concat_frames(self.frames)
        &&& self.nonce == self.frames.len()
    }
}

impl View for ReadState {
    type V = ReadStateView;

    closed spec fn view(&self) -> ReadStateView {
        ReadStateView {
            nonce: self.nonce,
            pending: self.buffer@,
            frames: self.frames@,
            delivered: self.delivered@,
        }
    }
}

/// Opening one more frame appends its plaintext to the stream.
proof fn lemma_concat_push(frames: Seq<Seq<u8>>, plaintext: Seq<u8>)
    ensures
        concat_frames(frames.push(plaintext)) == concat_frames(frames) + plaintext,
{
    assert(frames.push(plaintext).drop_last() =~= frames);
}

impl ReadState {
    /// The state right after the handshake: nonce 0, nothing buffered,
    /// nothing opened or handed out.
    pub fn new() -> (state: ReadState)
        ensures
            state@.nonce == 0,
            state@.pending == Seq::<u8>::empty(),
            state@.frames == Seq::<Seq<u8>>::empty(),
            state@.delivered == Seq::<u8>::empty(),
            state@.in_order(),
    {
        let state = ReadState {
            nonce: 0,
            buffer: PlaintextBuffer::new(),
            frames: Ghost(Seq::empty()),
            delivered: Ghost(Seq::empty()),
        };
        assert(state@.delivered + state@.pending =~= concat_frames(state@.frames));
        state
    }

    /// The nonce under which the next frame must open.
    pub fn nonce(&self) -> (nonce: u64)
        ensures
            nonce == self@.nonce,
    {
        self.nonce
    }

    /// Serves a read from the buffered plaintext (see `PlaintextBuffer::read`).
    pub fn read(&mut self, capacity: usize) -> (step: ReadStep)
        ensures
            final(self)@.nonce == old(self)@.nonce,
            final(self)@.frames == old(self)@.frames,
            capacity == 0 ==> (step matches ReadStep::Ready(out) && out@.len() == 0) && final(self)@.pending == old(self)@.pending,
            capacity > 0 && old(self)@.pending.len() == 0 ==> step is NeedFrame && final(self)@.pending == old(self)@.pending,
            capacity > 0 && old(self)@.pending.len() > 0 ==> (step matches ReadStep::Ready(out)
                && out@.len() == min_len(capacity as int, old(self)@.pending.len() as int)),
            step matches ReadStep::Ready(out) ==> out@ + final(self)@.pending == old(self)@.pending
                && final(self)@.delivered == old(self)@.delivered + out@,
            step is NeedFrame ==> final(self)@.delivered == old(self)@.delivered,
            old(self)@.in_order() ==> final(self)@.in_order(),
    {
        let step = self.buffer.read(capacity);
        if let ReadStep::Ready(out) = &step {
            proof {
                let d = old(self)@.delivered;
                assert(d + out@ + self.buffer@ =~= d + (out@ + self.buffer@));
            }
            self.delivered = Ghost(self.delivered@ + out@);
        }
        step
    }

    /// Opens a newly received frame under the current nonce and serves a read
    /// of up to `capacity` bytes from the buffer with the frame's plaintext
    /// appended. A frame that does not open leaves the state alone; a frame
    /// that opens to no plaintext is refused after its nonce was used.
    pub fn accept_frame(
        &mut self,
        transport: &Transport,
        ciphertext: &[u8],
        capacity: usize,
    ) -> (out: Result<Vec<u8>, StreamError>)
        ensures
            old(self)@.nonce == u64::MAX ==> out is Err,
            ciphertext@.len() < TAG_LEN ==> out is Err,
            out matches Err(e) ==> final(self)@.pending == old(self)@.pending
                && final(self)@.delivered == old(self)@.delivered,
            out matches Err(e) ==> (e == StreamError::EmptyFrame ==> final(self)@.nonce == old(self)@.nonce + 1
                && final(self)@.frames == old(self)@.frames.push(Seq::<u8>::empty())),
            out matches Err(e) ==> (e != StreamError::EmptyFrame ==> final(self)@.nonce == old(self)@.nonce
                && final(self)@.frames == old(self)@.frames),
            out is Ok ==> final(self)@.nonce == old(self)@.nonce + 1
                && final(self)@.frames == old(self)@.frames.push(final(self)@.frames.last()),
            out matches Ok(o) ==> final(self)@.frames.last().len() > 0
                && final(self)@.frames.last().len() + TAG_LEN == ciphertext@.len()
                && o@.len() == min_len(capacity as int, (old(self)@.pending.len() + final(self)@.frames.last().len()) as int)
                && o@ + final(self)@.pending == old(self)@.pending + final(self)@.frames.last()
                && final(self)@.delivered == old(self)@.delivered + o@,
            final(self)@.frames.len() > old(self)@.frames.len() ==> noise_seal(
                transport.recv_key(),
                old(self)@.nonce,
                final(self)@.frames.last(),
            ) == ciphertext@,
            old(self)@.in_order() ==> final(self)@.in_order(),
    {
        let plaintext = open_frame(transport, &mut self.nonce, ciphertext)?;
        proof {
            lemma_concat_push(self.frames@, plaintext@);
        }
        self.frames = Ghost(self.frames@.push(plaintext@));
        let out = self.buffer.push_frame(plaintext.as_slice(), capacity);
        if let Ok(o) = &out {
            proof {
                let (d, p) = (old(self)@.delivered, old(self)@.pending);
                assert(d + o@ + self.buffer@ =~= d + (o@ + self.buffer@));
                assert(d + (p + plaintext@) =~= d + p + plaintext@);
            }
            self.delivered = Ghost(self.delivered@ + o@);
        } else {
            proof {
                assert(plaintext@ =~= Seq::<u8>::empty());
            }
        }
        out
    }

    /// Opens a newly received frame and reads the packet it carries; the
    /// frame's plaintext is handed out whole, as the packet.
    pub fn receive(&mut self, transport: &Transport, ciphertext: &[u8]) -> (packet: Result<
        Packet,
        StreamError,
    >)
        ensures
            final(self)@.pending == old(self)@.pending,
            old(self)@.nonce == u64::MAX ==> packet is Err,
            packet matches Err(StreamError::Noise) ==> final(self)@ == old(self)@,
            !(packet matches Err(StreamError::Noise)) ==> final(self)@.nonce == old(self)@.nonce + 1
                && final(self)@.frames == old(self)@.frames.push(final(self)@.frames.last())
                && final(self)@.delivered == old(self)@.delivered + final(self)@.frames.last()
                && final(self)@.frames.last().len() + TAG_LEN == ciphertext@.len()
                && noise_seal(transport.recv_key(), old(self)@.nonce, final(self)@.frames.last())
                == ciphertext@,
            packet matches Err(StreamError::Protocol(e)) ==> receive_spec(final(self)@.frames.last())
                == Err::<PacketView, crate::packet::ProtocolError>(e),
            packet matches Ok(p) ==> receive_spec(final(self)@.frames.last())
                == Ok::<PacketView, crate::packet::ProtocolError>(p@),
            packet matches Err(e) ==> e == StreamError::Noise || e is Protocol,
            old(self)@.in_order() && old(self)@.pending.len() == 0 ==> final(self)@.in_order(),
    {
        let plaintext = open_frame(transport, &mut self.nonce, ciphertext)?;
        proof {
            lemma_concat_push(self.frames@, plaintext@);
            if self.buffer@.len() == 0 {
                assert(self.delivered@ + plaintext@ + self.buffer@ =~= self.delivered@ + self.buffer@ + plaintext@);
            }
        }
        self.frames = Ghost(self.frames@.push(plaintext@));
        self.delivered = Ghost(self.delivered@ + plaintext@);
        match decode_packet(plaintext.as_slice()) {
            Ok(p) => Ok(p),
            Err(e) => Err(StreamError::Protocol(e)),
        }
    }
}

/// The sending half's state: its nonce.
pub struct WriteState {
    nonce: u64,
}

impl View for WriteState {
    type V = u64;

    closed spec fn view(&self) -> u64 {
        self.nonce
    }
}

impl WriteState {
    /// The state right after the handshake: nonce 0.
    pub fn new() -> (state: WriteState)
        ensures
            state@ == 0,
    {
        WriteState { nonce: 0 }
    }

    /// The nonce under which the next frame will be sealed.
    pub fn nonce(&self) -> (nonce: u64)
        ensures
            nonce == self@,
    {
        self.nonce
    }

    /// Seals the first chunk of a write (see `seal_chunk`).
    pub fn seal_chunk(&mut self, transport: &Transport, plaintext: &[u8]) -> (chunk: Result<
        (usize, Option<Vec<u8>>),
        StreamError,
    >)
        ensures
            plaintext@.len() == 0 ==> chunk == Ok::<(usize, Option<Vec<u8>>), StreamError>((0, None))
                && final(self)@ == old(self)@,
            plaintext@.len() > 0 && old(self)@ == u64::MAX ==> chunk is Err,
            transport.protocol() == noise_protocol_name() && plaintext@.len() > 0 && old(self)@
                < u64::MAX ==> chunk matches Ok((_, Some(_))),
            chunk is Err ==> final(self)@ == old(self)@,
            chunk matches Ok((count, Some(f))) ==> count == chunk_len(plaintext@.len())
                && f@.len() == count + TAG_LEN && final(self)@ == old(self)@ + 1,
            chunk matches Ok((count, Some(f))) ==> f@ == noise_seal(
                transport.send_key(),
                old(self)@,
                plaintext@.take(count as int),
            ),
            chunk matches Ok((count, None)) ==> plaintext@.len() == 0,
    {
        seal_chunk(transport, &mut self.nonce, plaintext)
    }

    /// Seals a packet, in its envelope, into one frame.
    pub fn seal_packet(&mut self, transport: &Transport, packet: Packet) -> (frame: Result<
        Vec<u8>,
        StreamError,
    >)
        ensures
            old(self)@ == u64::MAX ==> frame is Err,
            frame is Err ==> final(self)@ == old(self)@,
            envelope_bytes(EnvelopeView { protocol_version: PROTOCOL_VERSION, packet: packet@ }).len()
                > crate::frame::MAX_FRAME_PAYLOAD <==> frame == Err::<Vec<u8>, StreamError>(
                StreamError::PacketTooLarge,
            ),
            !(frame matches Err(StreamError::Protocol(_))),
            transport.protocol() == noise_protocol_name() && envelope_bytes(
                EnvelopeView { protocol_version: PROTOCOL_VERSION, packet: packet@ },
            ).len() <= crate::frame::MAX_FRAME_PAYLOAD && old(self)@ < u64::MAX ==> frame is Ok,
            frame matches Ok(f) ==> f@ == noise_seal(
                transport.send_key(),
                old(self)@,
                envelope_bytes(EnvelopeView { protocol_version: PROTOCOL_VERSION, packet: packet@ }),
            ),
            frame matches Ok(f) ==> final(self)@ == old(self)@ + 1 && f@.len() == envelope_bytes(
                EnvelopeView { protocol_version: PROTOCOL_VERSION, packet: packet@ },
            ).len() + TAG_LEN,
    {
        let plaintext = match encode_packet(packet) {
            Ok(bytes) => bytes,
            Err(e) => {
                return Err(StreamError::Protocol(e));
            },
        };
        seal_frame(transport, &mut self.nonce, plaintext.as_slice())
    }
}

} // verus!
