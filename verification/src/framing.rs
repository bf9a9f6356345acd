//! Length-prefixed framing of encoded samples.
//!
//! The wire carries frames back to back: a 4-byte big-endian length, then
//! exactly that many payload bytes.  A zero length is legal and is skipped
//! without consuming any payload; a payload that fails to decode is counted
//! and skipped, never desynchronizing the stream, because the prefix is
//! always consumed in full before any payload.  A stream that ends between
//! frames (or inside a length prefix) ends cleanly; one that ends inside a
//! payload is truncated.

use vstd::prelude::*;
use vstd::arithmetic::div_mod::lemma_div_denominator;
use vstd::arithmetic::div_mod::lemma_fundamental_div_mod;
use vstd::slice::slice_subrange;
use crate::codec::decode;
use crate::codec::decode_spec;
use crate::codec::encode;
use crate::codec::encode_spec;
use crate::codec::fixed32_field;
use crate::codec::lemma_encode_decode_round_trip;
use crate::codec::lemma_varint_enc_len;
use crate::sample::ImuData;
use crate::sample::zero_sample;

verus! {

/// Big-endian 4-byte encoding of `v`.
pub open spec fn be32_enc(v: u32) -> Seq<u8> {
    seq![
        (v / 0x100_0000) as u8,
        ((v / 0x1_0000) % 256) as u8,
        ((v / 256) % 256) as u8,
        (v % 256) as u8,
    ]
}

/// The value held by the first four bytes of `s`, big endian.
pub open spec fn be32_dec(s: Seq<u8>) -> u32
    recommends
        s.len() >= 4,
{
    (s[0] * 0x100_0000 + s[1] * 0x1_0000 + s[2] * 0x100 + s[3]) as u32
}

/// Reading back four big-endian bytes restores the value.
proof fn lemma_be32_round_trip(v: u32)
    ensures
        be32_dec(be32_enc(v)) == v,
{
    lemma_fundamental_div_mod(v as int, 256);
    lemma_fundamental_div_mod(v as int / 256, 256);
    lemma_fundamental_div_mod(v as int / 0x1_0000, 256);
    lemma_div_denominator(v as int, 256, 256);
    lemma_div_denominator(v as int, 0x1_0000, 256);
    assert(v / 0x100_0000 < 256);
}

/// Append the four big-endian bytes of `v` to `out`.
pub fn write_be32(out: &mut Vec<u8>, v: u32)
    ensures
        final(out)@ == old(out)@ + be32_enc(v),
{
    out.push((v / 0x100_0000) as u8);
    out.push(((v / 0x1_0000) % 256) as u8);
    out.push(((v / 256) % 256) as u8);
    out.push((v % 256) as u8);
    assert(out@ =~= old(out)@ + be32_enc(v));
}

/// Read four big-endian bytes of `bytes` starting at `pos`.
pub fn read_be32(bytes: &[u8], pos: usize) -> (r: u32)
    requires
        pos + 4 <= bytes@.len(),
    ensures
        r == be32_dec(bytes@.skip(pos as int)),
{
    let b0 = bytes[pos] as u32;
    let b1 = bytes[pos + 1] as u32;
    let b2 = bytes[pos + 2] as u32;
    let b3 = bytes[pos + 3] as u32;
    let r = b0 * 0x100_0000 + b1 * 0x1_0000 + b2 * 0x100 + b3;
    proof {
        let s = bytes@.skip(pos as int);
        assert(s[0] == b0 && s[1] == b1 && s[2] == b2 && s[3] == b3);
    }
    r
}

/// An encoded sample never outgrows its frame: at most eleven bytes per
/// varint field and five per binary32 field.
pub proof fn lemma_encode_len(d: ImuData)
    ensures
        encode_spec(d).len() <= 132,
{
    lemma_varint_enc_len(d.timestamp_acc as u64);
    lemma_varint_enc_len(d.x_gyro as u64);
    lemma_varint_enc_len(d.y_gyro as u64);
    lemma_varint_enc_len(d.z_gyro as u64);
    lemma_varint_enc_len(d.timestamp_gyro as u64);
    lemma_varint_enc_len(d.timestamp_mag as u64);
}

/// A sample with any nonzero field encodes to at least one byte.
pub proof fn lemma_encode_nonempty(d: ImuData)
    requires
        d != zero_sample(),
    ensures
        encode_spec(d).len() > 0,
{
    if d.x_acc != 0 {
        assert(fixed32_field(1, d.x_acc).len() == 5);
    } else if d.y_acc != 0 {
        assert(fixed32_field(2, d.y_acc).len() == 5);
    } else if d.z_acc != 0 {
        assert(fixed32_field(3, d.z_acc).len() == 5);
    } else if d.timestamp_acc != 0 {
        lemma_varint_enc_len(d.timestamp_acc as u64);
    } else if d.x_gyro != 0 {
        lemma_varint_enc_len(d.x_gyro as u64);
    } else if d.y_gyro != 0 {
        lemma_varint_enc_len(d.y_gyro as u64);
    } else if d.z_gyro != 0 {
        lemma_varint_enc_len(d.z_gyro as u64);
    } else if d.timestamp_gyro != 0 {
        lemma_varint_enc_len(d.timestamp_gyro as u64);
    } else if d.x_mag != 0 {
        assert(fixed32_field(9, d.x_mag).len() == 5);
    } else if d.y_mag != 0 {
        assert(fixed32_field(10, d.y_mag).len() == 5);
    } else if d.z_mag != 0 {
        assert(fixed32_field(11, d.z_mag).len() == 5);
    } else {
        assert(d.timestamp_mag != 0);
        lemma_varint_enc_len(d.timestamp_mag as u64);
    }
}

/// A framed sample: its encoded length, big endian, then the encoding.
pub open spec fn frame_spec(d: ImuData) -> Seq<u8> {
    be32_enc(encode_spec(d).len() as u32) + encode_spec(d)
}

/// Frame one sample for the wire.
pub fn frame_sample(d: &ImuData) -> (r: Vec<u8>)
    ensures
        r@ == frame_spec(*d),
{
    let payload = encode(d);
    proof {
        lemma_encode_len(*d);
    }
    let mut out: Vec<u8> = Vec::new();
    write_be32(&mut out, payload.len() as u32);
    let mut i: usize = 0;
    while i < payload.len()
        invariant
            i <= payload@.len(),
            out@ == be32_enc(payload@.len() as u32) + payload@.take(i as int),
        decreases payload@.len() - i,
    {
        out.push(payload[i]);
        proof {
            assert(payload@.take(i + 1) =~= payload@.take(i as int) + seq![payload@[i as int]]);
            assert(out@ =~= be32_enc(payload@.len() as u32) + payload@.take(i + 1));
        }
        i = i + 1;
    }
    proof {
        assert(payload@.take(payload@.len() as int) =~= payload@);
    }
    out
}

/// The payload of a frame: everything after the length prefix.
pub fn frame_payload(frame: &[u8]) -> (r: &[u8])
    requires
        frame@.len() >= 4,
    ensures
        r@ == frame@.skip(4),
{
    slice_subrange(frame, 4, frame.len())
}

/// How a scanned stream ended.
#[derive(Clone, Copy, Debug, PartialEq, Eq, Structural)]
pub enum StreamEnd {
    /// The stream ended between frames or inside a length prefix.
    Clean,
    /// The stream ended in the middle of a payload.
    Truncated,
}

/// What scanning a captured byte stream yields.
pub struct ScanResult {
    /// The samples of the payloads that decoded, in stream order.
    pub samples: Seq<ImuData>,
    /// How many payloads failed to decode and were skipped.
    pub rejected: nat,
    /// How the stream ended.
    pub end: StreamEnd,
}

/// Scan a captured stream frame by frame: skip zero lengths, decode each
/// payload, count the payloads that do not decode, stop cleanly when fewer
/// than four bytes remain, and report truncation when a payload is cut off.
pub open spec fn scan_spec(s: Seq<u8>) -> ScanResult
    decreases s.len(),
{
    if s.len() < 4 {
        ScanResult { samples: seq![], rejected: 0, end: StreamEnd::Clean }
    } else {
        let len = be32_dec(s) as int;
        let body = s.skip(4);
        if len == 0 {
            scan_spec(body)
        } else if body.len() < len {
            ScanResult { samples: seq![], rejected: 0, end: StreamEnd::Truncated }
        } else {
            let tail = scan_spec(body.skip(len));
            match decode_spec(body.take(len)) {
                Some(d) => ScanResult {
                    samples: seq![d] + tail.samples,
                    rejected: tail.rejected,
                    end: tail.end,
                },
                None => ScanResult {
                    samples: tail.samples,
                    rejected: (tail.rejected + 1) as nat,
                    end: tail.end,
                },
            }
        }
    }
}

/// A length-prefixed payload at the head of a stream is consumed whole:
/// scanning continues behind it, delivering its sample when it decodes and
/// counting it when it does not.
pub proof fn lemma_scan_payload(payload: Seq<u8>, rest: Seq<u8>)
    requires
        0 < payload.len() < 0x1_0000_0000,
    ensures
        scan_spec(be32_enc(payload.len() as u32) + payload + rest) == (match decode_spec(
            payload,
        ) {
            Some(d) => ScanResult {
                samples: seq![d] + scan_spec(rest).samples,
                rejected: scan_spec(rest).rejected,
                end: scan_spec(rest).end,
            },
            None => ScanResult {
                samples: scan_spec(rest).samples,
                rejected: (scan_spec(rest).rejected + 1) as nat,
                end: scan_spec(rest).end,
            },
        }),
{
    let n = payload.len() as int;
    let s = be32_enc(payload.len() as u32) + payload + rest;
    assert(s.len() >= 4);
    assert(s[0] == be32_enc(n as u32)[0] && s[1] == be32_enc(n as u32)[1] && s[2] == be32_enc(
        n as u32,
    )[2] && s[3] == be32_enc(n as u32)[3]);
    lemma_be32_round_trip(n as u32);
    assert(be32_dec(s) == be32_dec(be32_enc(n as u32)));
    let body = s.skip(4);
    assert(body =~= payload + rest);
    assert(body.take(n) =~= payload);
    assert(body.skip(n) =~= rest);
}

/// A well-formed frame at the head of a stream yields exactly its sample,
/// and scanning continues behind it.  The sample must have a nonzero field:
/// the all-zero sample encodes to an empty payload, so its frame is a
/// zero-length frame and is skipped by design.
pub proof fn lemma_scan_frame(d: ImuData, rest: Seq<u8>)
    requires
        d != zero_sample(),
    ensures
        scan_spec(frame_spec(d) + rest) == (ScanResult {
            samples: seq![d] + scan_spec(rest).samples,
            rejected: scan_spec(rest).rejected,
            end: scan_spec(rest).end,
        }),
{
    lemma_encode_len(d);
    lemma_encode_nonempty(d);
    lemma_encode_decode_round_trip(d);
    lemma_scan_payload(encode_spec(d), rest);
}

/// Zero-length-frame skip: a zero length prefix followed by one well-formed
/// frame yields exactly that frame's sample.
pub proof fn lemma_zero_length_frame_skipped(d: ImuData)
    requires
        d != zero_sample(),
    ensures
        scan_spec(be32_enc(0) + frame_spec(d)) == (ScanResult {
            samples: seq![d],
            rejected: 0,
            end: StreamEnd::Clean,
        }),
{
    let s = be32_enc(0) + frame_spec(d);
    lemma_encode_nonempty(d);
    assert(s.len() >= 4);
    assert(s[0] == 0 && s[1] == 0 && s[2] == 0 && s[3] == 0);
    assert(be32_dec(s) == 0);
    assert(s.skip(4) =~= frame_spec(d) + Seq::<u8>::empty());
    lemma_scan_frame(d, Seq::<u8>::empty());
    assert(scan_spec(s) == scan_spec(frame_spec(d) + Seq::<u8>::empty()));
    assert(seq![d] + scan_spec(Seq::<u8>::empty()).samples =~= seq![d]);
}

/// Malformed-payload resilience: a length-prefixed payload that does not
/// decode is counted and skipped, and the well-formed frame after it still
/// yields its sample.
pub proof fn lemma_malformed_payload_skipped(g: Seq<u8>, d: ImuData)
    requires
        decode_spec(g) is None,
        g.len() < 0x1_0000_0000,
        d != zero_sample(),
    ensures
        scan_spec(be32_enc(g.len() as u32) + g + frame_spec(d)) == (ScanResult {
            samples: seq![d],
            rejected: 1,
            end: StreamEnd::Clean,
        }),
{
    assert(g.len() != 0);
    lemma_scan_payload(g, frame_spec(d));
    lemma_scan_frame(d, Seq::<u8>::empty());
    assert(frame_spec(d) + Seq::<u8>::empty() =~= frame_spec(d));
    assert(seq![d] + scan_spec(Seq::<u8>::empty()).samples =~= seq![d]);
}

/// The wire bytes of a run of frames, back to back.
pub open spec fn frames_spec(ds: Seq<ImuData>) -> Seq<u8>
    decreases ds.len(),
{
    if ds.len() == 0 {
        Seq::empty()
    } else {
        frame_spec(ds[0]) + frames_spec(ds.skip(1))
    }
}

/// In-order delivery: a stream of well-formed frames yields exactly its
/// samples, in stream order, with nothing rejected and a clean end.
pub proof fn lemma_frames_in_order(ds: Seq<ImuData>)
    requires
        forall|i: int| 0 <= i < ds.len() ==> ds[i] != zero_sample(),
    ensures
        scan_spec(frames_spec(ds)) == (ScanResult {
            samples: ds,
            rejected: 0,
            end: StreamEnd::Clean,
        }),
    decreases ds.len(),
{
    if ds.len() == 0 {
        assert(scan_spec(frames_spec(ds)).samples =~= ds);
    } else {
        let tail = ds.skip(1);
        assert(forall|i: int| 0 <= i < tail.len() ==> tail[i] == ds[i + 1]);
        lemma_frames_in_order(tail);
        lemma_scan_frame(ds[0], frames_spec(tail));
        assert(seq![ds[0]] + tail =~= ds);
    }
}

/// What scanning a captured byte stream produced.
pub struct ScanOutcome {
    /// The samples that decoded, in stream order.
    pub samples: Vec<ImuData>,
    /// How many payloads failed to decode.
    pub rejected: usize,
    /// Whether the stream ended between frames rather than inside a payload.
    pub clean: bool,
}

/// Scan a whole captured stream, as the read side does frame by frame.
pub fn parse_stream(bytes: &[u8]) -> (r: ScanOutcome)
    ensures
        r.samples@ == scan_spec(bytes@).samples,
        r.rejected == scan_spec(bytes@).rejected,
        r.clean == (scan_spec(bytes@).end == StreamEnd::Clean),
{
    let mut samples: Vec<ImuData> = Vec::new();
    let mut rejected: usize = 0;
    let mut pos: usize = 0;
    proof {
        assert(bytes@.skip(0) =~= bytes@);
    }
    loop
        invariant
            pos <= bytes@.len(),
            rejected <= pos,
            scan_spec(bytes@).samples == samples@ + scan_spec(bytes@.skip(pos as int)).samples,
            scan_spec(bytes@).rejected == rejected + scan_spec(bytes@.skip(pos as int)).rejected,
            scan_spec(bytes@).end == scan_spec(bytes@.skip(pos as int)).end,
        decreases bytes@.len() - pos,
    {
        let ghost s = bytes@.skip(pos as int);
        if bytes.len() - pos < 4 {
            proof {
                assert(samples@ + scan_spec(s).samples =~= samples@);
            }
            return ScanOutcome { samples, rejected, clean: true };
        }
        let len = read_be32(bytes, pos);
        let body_start = pos + 4;
        proof {
            assert(s.skip(4) =~= bytes@.skip(body_start as int));
        }
        if len == 0 {
            pos = body_start;
            continue;
        }
        let len_us = len as usize;
        if bytes.len() - body_start < len_us {
            proof {
                assert(samples@ + scan_spec(s).samples =~= samples@);
            }
            return ScanOutcome { samples, rejected, clean: false };
        }
        let payload = slice_subrange(bytes, body_start, body_start + len_us);
        let next = body_start + len_us;
        proof {
            assert(payload@ =~= bytes@.skip(body_start as int).take(len as int));
            assert(bytes@.skip(body_start as int).skip(len as int) =~= bytes@.skip(next as int));
        }
        match decode(payload) {
            Ok(d) => {
                let ghost before = samples@;
                samples.push(d);
                proof {
                    let tail = scan_spec(bytes@.skip(next as int)).samples;
                    assert(samples@ =~= before + seq![d]);
                    assert(before + (seq![d] + tail) =~= (before + seq![d]) + tail);
                }
            },
            Err(_) => {
                rejected = rejected + 1;
            },
        }
        pos = next;
    }
}

} // verus!
