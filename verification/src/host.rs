//! Host capture client: consumes the device's reply stream and reconstructs
//! the captured sample buffer.
//!
//! The host reads fixed six-byte `Reply` frames in a loop: transient
//! acknowledgements are ignored, a fault aborts the session, `Data(len)`
//! announces exactly `len` raw payload bytes that follow outside the frame
//! channel, and `Done(duration)` ends the burst. The accumulated payload is
//! then reinterpreted as little-endian 16-bit raw samples; scaling raw
//! samples to volts is the embedding program's concern.

use vstd::prelude::*;
use crate::codec::{spec_deserialize_reply, ConfigErr, Reply};
use crate::communications::{spec_burst_wire, spec_chunked, spec_samples_bytes};

verus! {

/// The 16-bit words read from a little-endian byte stream; a trailing odd
/// byte is dropped, as the device's stream never produces one.
pub open spec fn spec_bytes_to_u16s(b: Seq<u8>) -> Seq<u16> {
    Seq::new((b.len() / 2) as nat, |i: int| ((b[2 * i] as int) + 256 * (b[2 * i + 1] as int)) as u16)
}

/// Reinterprets an accumulated payload as little-endian 16-bit raw samples.
pub fn bytes_to_samples(bytes: &Vec<u8>) -> (out: Vec<u16>)
    ensures
        out@ == spec_bytes_to_u16s(bytes@),
{
    let mut out: Vec<u16> = Vec::new();
    let blen = bytes.len();
    let half = blen / 2;
    proof {
        vstd::arithmetic::div_mod::lemma_fundamental_div_mod(blen as int, 2);
    }
    let mut i: usize = 0;
    while i < half
        invariant
            i <= half,
            blen == bytes@.len(),
            half == blen / 2,
            2 * half <= blen,
            out@.len() == i,
            forall|j: int| 0 <= j < out@.len() ==> out@[j] == spec_bytes_to_u16s(bytes@)[j],
        decreases half - i,
    {
        let lo = bytes[2 * i];
        let hi = bytes[2 * i + 1];
        let w: u16 = lo as u16 + 256 * (hi as u16);
        out.push(w);
        i += 1;
    }
    proof {
        assert(out@ =~= spec_bytes_to_u16s(bytes@));
    }
    out
}

/// Reading the transmitted sample bytes back as 16-bit words recovers every
/// sample's two's-complement bit pattern, in order.
pub proof fn lemma_samples_bytes_round_trip(data: Seq<i16>)
    ensures
        spec_bytes_to_u16s(spec_samples_bytes(data)).len() == data.len(),
        forall|i: int|
            0 <= i < data.len() ==> spec_bytes_to_u16s(spec_samples_bytes(data))[i] == data[i] as u16,
{
    let b = spec_samples_bytes(data);
    assert forall|i: int| 0 <= i < data.len() implies spec_bytes_to_u16s(b)[i] == data[i] as u16 by {
        let w = data[i] as u16;
        assert(b[2 * i] == ((w as int) % 256) as u8);
        assert(b[2 * i + 1] == ((w as int) / 256) as u8);
        vstd::arithmetic::div_mod::lemma_fundamental_div_mod(w as int, 256);
    }
}

/// What the host's reply loop makes of a byte stream, given the payload
/// accumulated so far: the captured payload and the reported duration on a
/// clean `Done`, the device's error on a fault, and `CommunicationProblem`
/// on a truncated or undecodable stream.
pub open spec fn spec_parse_burst(b: Seq<u8>, acc: Seq<u8>) -> Result<(Seq<u8>, u32), ConfigErr>
    decreases b.len(),
{
    if b.len() < 6 {
        Result::Err(ConfigErr::CommunicationProblem)
    } else {
        match spec_deserialize_reply(b.subrange(0, 6)) {
            Result::Err(_) => Result::Err(ConfigErr::CommunicationProblem),
            Result::Ok(Reply::Accepted) => spec_parse_burst(b.skip(6), acc),
            Result::Ok(Reply::Fault(e)) => Result::Err(e),
            Result::Ok(Reply::Done(d)) => Result::Ok((acc, d)),
            Result::Ok(Reply::Data(n)) => if b.len() - 6 < n {
                Result::Err(ConfigErr::CommunicationProblem)
            } else {
                spec_parse_burst(b.skip(6 + n as int), acc + b.subrange(6, 6 + n as int))
            },
        }
    }
}

/// Consumes a burst's reply stream: skips acknowledgements, accumulates
/// every announced payload, stops at `Done` with the payload and duration,
/// and reports a fault or a malformed stream as an error.
pub fn parse_burst_stream(bytes: &Vec<u8>) -> (out: Result<(Vec<u8>, u32), ConfigErr>)
    ensures
        match (out, spec_parse_burst(bytes@, Seq::<u8>::empty())) {
            (Result::Ok(pair), Result::Ok(spec_pair)) => pair.0@ == spec_pair.0 && pair.1
                == spec_pair.1,
            (Result::Err(e), Result::Err(spec_e)) => e == spec_e,
            _ => false,
        },
{
    let len = bytes.len();
    let mut acc: Vec<u8> = Vec::new();
    let mut pos: usize = 0;
    proof {
        assert(bytes@.skip(0) =~= bytes@);
    }
    loop
        invariant
            pos <= len,
            len == bytes@.len(),
            spec_parse_burst(bytes@, Seq::<u8>::empty()) == spec_parse_burst(
                bytes@.skip(pos as int),
                acc@,
            ),
        decreases len - pos,
    {
        let ghost rest = bytes@.skip(pos as int);
        if len - pos < 6 {
            return Result::Err(ConfigErr::CommunicationProblem);
        }
        let mut fr: Vec<u8> = Vec::new();
        fr.push(bytes[pos]);
        fr.push(bytes[pos + 1]);
        fr.push(bytes[pos + 2]);
        fr.push(bytes[pos + 3]);
        fr.push(bytes[pos + 4]);
        fr.push(bytes[pos + 5]);
        proof {
            assert(fr@ =~= rest.subrange(0, 6));
        }
        match Reply::try_from(&fr) {
            Result::Err(_) => {
                return Result::Err(ConfigErr::CommunicationProblem);
            }
            Result::Ok(Reply::Accepted) => {
                proof {
                    assert(bytes@.skip(pos + 6) =~= rest.skip(6));
                }
                pos += 6;
            }
            Result::Ok(Reply::Fault(e)) => {
                return Result::Err(e);
            }
            Result::Ok(Reply::Done(d)) => {
                return Result::Ok((acc, d));
            }
            Result::Ok(Reply::Data(n)) => {
                let n_us = n as usize;
                if len - pos - 6 < n_us {
                    proof {
                        assert(rest.len() - 6 < n);
                    }
                    return Result::Err(ConfigErr::CommunicationProblem);
                }
                let ghost acc0 = acc@;
                let mut k: usize = 0;
                while k < n_us
                    invariant
                        k <= n_us,
                        pos + 6 + n_us <= len,
                        len == bytes@.len(),
                        acc@ == acc0 + bytes@.subrange(pos + 6, pos + 6 + k),
                    decreases n_us - k,
                {
                    acc.push(bytes[pos + 6 + k]);
                    proof {
                        assert(acc@ =~= acc0 + bytes@.subrange(pos + 6, pos + 6 + k + 1));
                    }
                    k += 1;
                }
                proof {
                    assert(rest.len() - 6 >= n);
                    assert(bytes@.subrange(pos + 6, pos + 6 + n_us) =~= rest.subrange(
                        6,
                        6 + n as int,
                    ));
                    assert(bytes@.skip(pos + 6 + n_us) =~= rest.skip(6 + n as int));
                }
                pos += 6 + n_us;
            }
        }
    }
}

/// A burst's wire stream parses back to exactly the transmitted sample
/// bytes and the reported duration: the `Data` frames total the captured
/// buffer and the single `Done` frame ends it, whatever the chunking.
pub proof fn lemma_burst_wire_parses(data: Seq<i16>, duration: u64)
    ensures
        spec_parse_burst(spec_burst_wire(data, duration), Seq::<u8>::empty()) == Result::<
            (Seq<u8>, u32),
            ConfigErr,
        >::Ok((spec_samples_bytes(data), duration as u32)),
{
    lemma_chunked_parses(spec_samples_bytes(data), duration, Seq::<u8>::empty());
    assert(Seq::<u8>::empty() + spec_samples_bytes(data) =~= spec_samples_bytes(data));
}

#[verifier::rlimit(50)]
proof fn lemma_chunked_parses(bytes: Seq<u8>, duration: u64, acc: Seq<u8>)
    ensures
        spec_parse_burst(
            spec_chunked(bytes) + crate::codec::spec_serialize_reply(
                Reply::Done(duration as u32),
            ),
            acc,
        ) == Result::<(Seq<u8>, u32), ConfigErr>::Ok((acc + bytes, duration as u32)),
    decreases bytes.len(),
{
    reveal_with_fuel(spec_parse_burst, 3);
    let done = crate::codec::spec_serialize_reply(Reply::Done(duration as u32));
    crate::codec::lemma_reply_round_trip(Reply::Done(duration as u32));
    if bytes.len() == 0 {
        let s = spec_chunked(bytes) + done;
        assert(s =~= done);
        assert(s.subrange(0, 6) =~= done);
        assert(acc + bytes =~= acc);
    } else if bytes.len() <= 255 {
        let hdr = crate::codec::spec_serialize_reply(Reply::Data(bytes.len() as u32));
        crate::codec::lemma_reply_round_trip(Reply::Data(bytes.len() as u32));
        let s = spec_chunked(bytes) + done;
        assert(s.subrange(0, 6) =~= hdr);
        assert(s.subrange(6, 6 + bytes.len() as int) =~= bytes);
        assert(s.skip(6 + bytes.len() as int) =~= done);
        assert(done.subrange(0, 6) =~= done);
    } else {
        let hdr = crate::codec::spec_serialize_reply(Reply::Data(255u32));
        crate::codec::lemma_reply_round_trip(Reply::Data(255u32));
        let s = spec_chunked(bytes) + done;
        assert(s.subrange(0, 6) =~= hdr);
        assert(s.subrange(6, 261) =~= bytes.subrange(0, 255));
        assert(s.skip(261int) =~= spec_chunked(bytes.skip(255)) + done);
        lemma_chunked_parses(bytes.skip(255), duration, acc + bytes.subrange(0, 255));
        assert(acc + bytes.subrange(0, 255) + bytes.skip(255) =~= acc + bytes);
    }
}

} // verus!
