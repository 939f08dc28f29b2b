//! Transport framing: the exact byte streams the device writes for sample
//! data.
//!
//! Samples travel as untagged little-endian bytes whose length is announced
//! by a preceding `Data(len)` frame. A finished burst is chunked into
//! `Data` frames of at most 255 payload bytes each and closed by exactly one
//! `Done(duration)` frame. The serial port itself is an out-of-scope
//! collaborator; the embedding program writes these bytes to it unchanged.

use vstd::prelude::*;
use crate::codec::{spec_serialize_reply, Reply};
use crate::sampling::{drain_batch, Channel};

verus! {

/// Most payload bytes a single `Data` frame announces.
pub const MAX_CHUNK: usize = 255;

/// Byte `i` of the little-endian encoding of `data`: the low byte of sample
/// `i / 2` for even `i`, its high byte for odd `i`.
pub open spec fn spec_sample_byte(data: Seq<i16>, i: int) -> u8 {
    let w = data[i / 2] as u16;
    if i % 2 == 0 {
        ((w as int) % 256) as u8
    } else {
        ((w as int) / 256) as u8
    }
}

/// The little-endian byte stream of a sample buffer.
pub open spec fn spec_samples_bytes(data: Seq<i16>) -> Seq<u8> {
    Seq::new((2 * data.len()) as nat, |i: int| spec_sample_byte(data, i))
}

/// The byte stream of `bytes` cut into chunks of at most [`MAX_CHUNK`]
/// bytes, each preceded by the `Data` frame announcing its length.
pub open spec fn spec_chunked(bytes: Seq<u8>) -> Seq<u8>
    decreases bytes.len(),
{
    if bytes.len() == 0 {
        Seq::<u8>::empty()
    } else if bytes.len() <= 255 {
        spec_serialize_reply(Reply::Data(bytes.len() as u32)) + bytes
    } else {
        spec_serialize_reply(Reply::Data(255u32)) + bytes.subrange(0, 255) + spec_chunked(
            bytes.skip(255),
        )
    }
}

/// The full wire stream of a finished burst: the chunked sample bytes
/// followed by exactly one `Done` frame carrying the (truncated) elapsed
/// microseconds.
pub open spec fn spec_burst_wire(data: Seq<i16>, duration: u64) -> Seq<u8> {
    spec_chunked(spec_samples_bytes(data)) + spec_serialize_reply(Reply::Done(duration as u32))
}

/// Encodes a sample buffer as the little-endian bytes the device transmits.
pub fn samples_to_bytes(data: &Vec<i16>) -> (out: Vec<u8>)
    ensures
        out@ == spec_samples_bytes(data@),
{
    let mut out: Vec<u8> = Vec::new();
    let mut i: usize = 0;
    while i < data.len()
        invariant
            i <= data@.len(),
            out@.len() == 2 * i,
            forall|j: int| 0 <= j < out@.len() ==> out@[j] == spec_sample_byte(data@, j),
        decreases data@.len() - i,
    {
        let w = data[i] as u16;
        out.push((w % 256) as u8);
        out.push((w / 256) as u8);
        i += 1;
    }
    proof {
        assert(out@ =~= spec_samples_bytes(data@));
    }
    out
}

/// The bytes written for one continuous-mode batch: a `Data` frame
/// announcing the byte length, then the batch's little-endian sample bytes,
/// in queue order.
pub fn data_frame_bytes(data: &Vec<i16>) -> (wire: Vec<u8>)
    requires
        2 * data@.len() <= u32::MAX,
    ensures
        wire@ == spec_serialize_reply(Reply::Data((2 * data@.len()) as u32)) + spec_samples_bytes(
            data@,
        ),
{
    let mut bytes = samples_to_bytes(data);
    let blen = bytes.len();
    let mut wire = Reply::Data(blen as u32).serialize();
    wire.append(&mut bytes);
    wire
}

/// One turn of the sender task: if a full batch of eight samples is queued,
/// takes it off the queue and returns the bytes to write — a `Data` frame
/// announcing sixteen payload bytes, then the batch in queue order, so
/// samples are never reordered. With fewer than eight queued it leaves the
/// queue alone and the sender suspends.
pub fn send_data(channel: &mut Channel) -> (wire: Option<Vec<u8>>)
    ensures
        match wire {
            Some(w) => {
                &&& old(channel).buf@.len() >= 8
                &&& final(channel).buf@ == old(channel).buf@.skip(8)
                &&& w@ == spec_serialize_reply(Reply::Data(16)) + spec_samples_bytes(
                    old(channel).buf@.subrange(0, 8),
                )
            },
            None => old(channel).buf@.len() < 8 && *final(channel) == *old(channel),
        },
{
    match drain_batch(channel) {
        Some(batch) => Some(data_frame_bytes(&batch)),
        None => None,
    }
}

/// The bytes written for one finished burst: the sample bytes cut into
/// `Data` chunks of at most 255 bytes, then one `Done` frame with the
/// elapsed microseconds, truncated to 32 bits as the frame requires.
pub fn burst_wire_bytes(data: &Vec<i16>, duration: u64) -> (wire: Vec<u8>)
    ensures
        wire@ == spec_burst_wire(data@, duration),
{
    let bytes = samples_to_bytes(data);
    let blen = bytes.len();
    let mut wire: Vec<u8> = Vec::new();
    let mut pos: usize = 0;
    proof {
        assert(bytes@.skip(0) =~= bytes@);
        assert(wire@ + spec_chunked(bytes@) =~= spec_chunked(bytes@));
    }
    while pos < bytes.len()
        invariant
            pos <= blen,
            blen == bytes@.len(),
            wire@ + spec_chunked(bytes@.skip(pos as int)) =~= spec_chunked(bytes@),
        decreases bytes@.len() - pos,
    {
        let rem = bytes.len() - pos;
        let chunk_len = if rem < MAX_CHUNK {
            rem
        } else {
            MAX_CHUNK
        };
        let ghost rest = bytes@.skip(pos as int);
        let ghost wire0 = wire@;
        let mut header = Reply::Data(chunk_len as u32).serialize();
        wire.append(&mut header);
        let ghost wire_mid = wire@;
        let mut k: usize = 0;
        while k < chunk_len
            invariant
                k <= chunk_len,
                pos + chunk_len <= blen,
                blen == bytes@.len(),
                wire@ == wire_mid + bytes@.subrange(pos as int, pos + k),
            decreases chunk_len - k,
        {
            let b = bytes[pos + k];
            wire.push(b);
            proof {
                assert(wire@ =~= wire_mid + bytes@.subrange(pos as int, pos + k + 1));
            }
            k += 1;
        }
        proof {
            assert(rest.len() == bytes@.len() - pos);
            assert(rest.subrange(0, chunk_len as int) =~= bytes@.subrange(
                pos as int,
                pos + chunk_len,
            ));
            assert(rest.skip(chunk_len as int) =~= bytes@.skip(pos + chunk_len));
            if rest.len() <= 255 {
                assert(spec_chunked(rest) == spec_serialize_reply(
                    Reply::Data(rest.len() as u32),
                ) + rest);
                assert(bytes@.skip(pos + chunk_len).len() == 0);
                assert(spec_chunked(bytes@.skip(pos + chunk_len)) == Seq::<u8>::empty());
                assert(rest.subrange(0, chunk_len as int) =~= rest);
            } else {
                assert(spec_chunked(rest) == spec_serialize_reply(Reply::Data(255u32))
                    + rest.subrange(0, 255) + spec_chunked(rest.skip(255)));
            }
            assert(wire@ + spec_chunked(bytes@.skip(pos + chunk_len)) =~= wire0 + spec_chunked(
                rest,
            ));
            assert(wire@ + spec_chunked(bytes@.skip(pos + chunk_len)) =~= spec_chunked(bytes@));
        }
        pos += chunk_len;
    }
    proof {
        assert(bytes@.skip(bytes@.len() as int) =~= Seq::<u8>::empty());
        assert(wire@ =~= spec_chunked(bytes@));
    }
    let truncated: u32 = #[verifier::truncate] (duration as u32);
    let mut done = Reply::Done(truncated).serialize();
    wire.append(&mut done);
    proof {
        assert(wire@ =~= spec_burst_wire(data@, duration));
    }
    wire
}

} // verus!
