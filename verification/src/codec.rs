//! Binary codec for one sensor sample.
//!
//! A sample is encoded as a record of twelve tagged fields in the common
//! base-128 wire style: each field starts with a one-byte tag holding the
//! field number and a wire type, followed by either a little-endian 4-byte
//! value (the binary32 axes) or a base-128 varint (timestamps and gyroscope
//! axes, the latter sign-extended to 64 bits).  A field whose value is zero
//! is omitted; a decoder starts from the all-zero sample, so the round trip
//! is exact.

use vstd::prelude::*;
use vstd::arithmetic::div_mod::lemma_div_denominator;
use vstd::arithmetic::div_mod::lemma_fundamental_div_mod;
use crate::sample::ImuData;
use crate::sample::zero_sample;

verus! {

/// Why a payload failed to decode.
#[derive(Clone, Copy, Debug, PartialEq, Eq, Structural)]
pub enum DecodeError {
    /// The payload ended in the middle of a value.
    Truncated,
    /// A base-128 varint ran past ten bytes or overflowed 64 bits.
    BadVarint,
    /// A tag named a field this record does not have.
    BadTag,
    /// A known field carried the wrong wire type.
    BadWireType,
}

/// Little-endian base-128 encoding of `v`: seven value bits per byte, the
/// high bit marking continuation.
pub open spec fn varint_enc(v: u64) -> Seq<u8>
    decreases v,
{
    if v < 128 {
        seq![v as u8]
    } else {
        seq![(v % 128 + 128) as u8] + varint_enc(v / 128)
    }
}

/// Parse a base-128 varint from the front of `s`, consuming at most `max`
/// bytes; yields the value and the unconsumed suffix.  Fails on an empty or
/// unterminated run and on a value that overflows 64 bits.
pub open spec fn varint_dec(s: Seq<u8>, max: nat) -> Option<(u64, Seq<u8>)>
    decreases max,
{
    if max == 0 || s.len() == 0 {
        None
    } else if s[0] < 128 {
        Some((s[0] as u64, s.skip(1)))
    } else {
        match varint_dec(s.skip(1), (max - 1) as nat) {
            Some(p) => {
                if (s[0] - 128) + 128 * p.0 <= u64::MAX {
                    Some((((s[0] - 128) + 128 * p.0) as u64, p.1))
                } else {
                    None
                }
            },
            None => None,
        }
    }
}

/// 128 raised to `k`.
spec fn pow128(k: nat) -> int
    decreases k,
{
    if k == 0 {
        1
    } else {
        128 * pow128((k - 1) as nat)
    }
}

/// A value below `128^k` encodes in at most `k` bytes.
proof fn lemma_varint_enc_len_bound(v: u64, k: nat)
    requires
        1 <= k,
        v < pow128(k),
    ensures
        varint_enc(v).len() <= k,
    decreases k,
{
    if v < 128 {
    } else {
        assert(pow128(k) == 128 * pow128((k - 1) as nat));
        assert(v / 128 < pow128((k - 1) as nat)) by (nonlinear_arith)
            requires
                v < 128 * pow128((k - 1) as nat),
                v >= 128,
        {}
        lemma_varint_enc_len_bound(v / 128, (k - 1) as nat);
    }
}

/// Every 64-bit value encodes in one to ten bytes.
pub proof fn lemma_varint_enc_len(v: u64)
    ensures
        1 <= varint_enc(v).len() <= 10,
{
    assert(pow128(0) == 1);
    assert(pow128(1) == 128);
    assert(pow128(2) == 0x4000);
    assert(pow128(3) == 0x20_0000);
    assert(pow128(4) == 0x1000_0000);
    assert(pow128(5) == 0x8_0000_0000);
    assert(pow128(6) == 0x400_0000_0000);
    assert(pow128(7) == 0x2_0000_0000_0000);
    assert(pow128(8) == 0x100_0000_0000_0000);
    assert(pow128(9) == 0x8000_0000_0000_0000);
    assert(pow128(10) == 0x40_0000_0000_0000_0000);
    lemma_varint_enc_len_bound(v, 10);
}

/// Decoding an encoded value, with anything after it, gives the value back
/// and leaves the trailing bytes untouched.
proof fn lemma_varint_round_trip(v: u64, rest: Seq<u8>, max: nat)
    requires
        varint_enc(v).len() <= max,
    ensures
        varint_dec(varint_enc(v) + rest, max) == Some((v, rest)),
    decreases v,
{
    let s = varint_enc(v) + rest;
    if v < 128 {
        assert(s[0] == v as u8);
        assert(s.skip(1) =~= rest);
    } else {
        let b0 = (v % 128 + 128) as u8;
        assert(s[0] == b0);
        assert(s.skip(1) =~= varint_enc(v / 128) + rest);
        lemma_varint_round_trip(v / 128, rest, (max - 1) as nat);
        lemma_fundamental_div_mod(v as int, 128);
        assert((b0 - 128) + 128 * (v / 128) == v);
    }
}

/// Append the base-128 encoding of `v` to `out`.
pub fn write_varint(out: &mut Vec<u8>, v: u64)
    ensures
        final(out)@ == old(out)@ + varint_enc(v),
    decreases v,
{
    if v < 128 {
        out.push(v as u8);
        assert(out@ =~= old(out)@ + varint_enc(v));
    } else {
        let b: u64 = v % 128 + 128;
        out.push(b as u8);
        let ghost mid = out@;
        write_varint(out, v / 128);
        assert(mid =~= old(out)@ + seq![(v % 128 + 128) as u8]);
        assert(out@ =~= old(out)@ + varint_enc(v));
    }
}

/// Parse a base-128 varint from `bytes` starting at `pos`, consuming at most
/// `max` bytes.
pub fn read_varint(bytes: &[u8], pos: usize, max: u32) -> (r: Result<(u64, usize), DecodeError>)
    requires
        pos <= bytes@.len(),
    ensures
        match r {
            Ok(p) => varint_dec(bytes@.skip(pos as int), max as nat) == Some(
                (p.0, bytes@.skip(p.1 as int)),
            ) && pos < p.1 <= bytes@.len(),
            Err(_) => varint_dec(bytes@.skip(pos as int), max as nat) is None,
        },
    decreases max,
{
    if max == 0 {
        return Err(DecodeError::BadVarint);
    }
    if pos >= bytes.len() {
        return Err(DecodeError::Truncated);
    }
    let b = bytes[pos];
    let ghost s = bytes@.skip(pos as int);
    assert(s[0] == b);
    if b < 128 {
        assert(s.skip(1) =~= bytes@.skip(pos as int + 1));
        Ok((b as u64, pos + 1))
    } else {
        assert(s.skip(1) =~= bytes@.skip(pos as int + 1));
        match read_varint(bytes, pos + 1, max - 1) {
            Ok(p) => {
                let hi = p.0;
                let lo: u64 = (b - 128) as u64;
                let wide: u128 = lo as u128 + 128u128 * (hi as u128);
                if wide > u64::MAX as u128 {
                    Err(DecodeError::BadVarint)
                } else {
                    Ok((wide as u64, p.1))
                }
            },
            Err(e) => Err(e),
        }
    }
}

/// Little-endian 4-byte encoding of `v`.
pub open spec fn le32_enc(v: u32) -> Seq<u8> {
    seq![
        (v % 256) as u8,
        ((v / 256) % 256) as u8,
        ((v / 0x1_0000) % 256) as u8,
        ((v / 0x100_0000) % 256) as u8,
    ]
}

/// The value held by the first four bytes of `s`, little endian.
pub open spec fn le32_dec(s: Seq<u8>) -> u32
    recommends
        s.len() >= 4,
{
    (s[0] + s[1] * 0x100 + s[2] * 0x1_0000 + s[3] * 0x100_0000) as u32
}

/// Reading back four little-endian bytes restores the value.
proof fn lemma_le32_round_trip(v: u32)
    ensures
        le32_dec(le32_enc(v)) == v,
{
    lemma_fundamental_div_mod(v as int, 256);
    lemma_fundamental_div_mod(v as int / 256, 256);
    lemma_fundamental_div_mod(v as int / 0x1_0000, 256);
    lemma_div_denominator(v as int, 256, 256);
    lemma_div_denominator(v as int, 0x1_0000, 256);
    assert(v / 0x100_0000 < 256);
}

/// Append the four little-endian bytes of `v` to `out`.
pub fn write_le32(out: &mut Vec<u8>, v: u32)
    ensures
        final(out)@ == old(out)@ + le32_enc(v),
{
    out.push((v % 256) as u8);
    out.push(((v / 256) % 256) as u8);
    out.push(((v / 0x1_0000) % 256) as u8);
    out.push(((v / 0x100_0000) % 256) as u8);
    assert(out@ =~= old(out)@ + le32_enc(v));
}

/// Read four little-endian bytes of `bytes` starting at `pos`.
pub fn read_le32(bytes: &[u8], pos: usize) -> (r: u32)
    requires
        pos + 4 <= bytes@.len(),
    ensures
        r == le32_dec(bytes@.skip(pos as int)),
{
    let b0 = bytes[pos] as u32;
    let b1 = bytes[pos + 1] as u32;
    let b2 = bytes[pos + 2] as u32;
    let b3 = bytes[pos + 3] as u32;
    let r = b0 + b1 * 0x100 + b2 * 0x1_0000 + b3 * 0x100_0000;
    proof {
        let s = bytes@.skip(pos as int);
        assert(s[0] == b0 && s[1] == b1 && s[2] == b2 && s[3] == b3);
    }
    r
}

/// The one-byte tag of field `num` with wire type `wt`.
pub open spec fn tag_byte(num: u64, wt: u64) -> u8
    recommends
        1 <= num <= 15,
        wt <= 7,
{
    (num * 8 + wt) as u8
}

/// A binary32 field: tag plus four little-endian bytes; omitted when the bit
/// pattern is all zero.
pub open spec fn fixed32_field(num: u64, bits: u32) -> Seq<u8> {
    if bits == 0 {
        seq![]
    } else {
        seq![tag_byte(num, 5)] + le32_enc(bits)
    }
}

/// An unsigned varint field; omitted when zero.
pub open spec fn uint32_field(num: u64, v: u32) -> Seq<u8> {
    if v == 0 {
        seq![]
    } else {
        seq![tag_byte(num, 0)] + varint_enc(v as u64)
    }
}

/// A signed varint field, sign-extended to 64 bits; omitted when zero.
pub open spec fn int32_field(num: u64, v: i32) -> Seq<u8> {
    if v == 0 {
        seq![]
    } else {
        seq![tag_byte(num, 0)] + varint_enc(v as u64)
    }
}

/// The full encoding of a sample: fields one to twelve in order, zero-valued
/// fields omitted.
pub open spec fn encode_spec(d: ImuData) -> Seq<u8> {
    fixed32_field(1, d.x_acc) + fixed32_field(2, d.y_acc) + fixed32_field(3, d.z_acc)
        + uint32_field(4, d.timestamp_acc) + int32_field(5, d.x_gyro) + int32_field(6, d.y_gyro)
        + int32_field(7, d.z_gyro) + uint32_field(8, d.timestamp_gyro) + fixed32_field(
        9,
        d.x_mag,
    ) + fixed32_field(10, d.y_mag) + fixed32_field(11, d.z_mag) + uint32_field(
        12,
        d.timestamp_mag,
    )
}

fn write_fixed32_field(out: &mut Vec<u8>, num: u64, bits: u32)
    requires
        1 <= num <= 15,
    ensures
        final(out)@ == old(out)@ + fixed32_field(num, bits),
{
    if bits != 0 {
        out.push((num * 8 + 5) as u8);
        let ghost mid = out@;
        write_le32(out, bits);
        assert(out@ =~= old(out)@ + fixed32_field(num, bits));
    } else {
        assert(out@ =~= old(out)@ + fixed32_field(num, bits));
    }
}

fn write_uint32_field(out: &mut Vec<u8>, num: u64, v: u32)
    requires
        1 <= num <= 15,
    ensures
        final(out)@ == old(out)@ + uint32_field(num, v),
{
    if v != 0 {
        out.push((num * 8) as u8);
        write_varint(out, v as u64);
        assert(out@ =~= old(out)@ + uint32_field(num, v));
    } else {
        assert(out@ =~= old(out)@ + uint32_field(num, v));
    }
}

fn write_int32_field(out: &mut Vec<u8>, num: u64, v: i32)
    requires
        1 <= num <= 15,
    ensures
        final(out)@ == old(out)@ + int32_field(num, v),
{
    if v != 0 {
        out.push((num * 8) as u8);
        write_varint(out, v as u64);
        assert(out@ =~= old(out)@ + int32_field(num, v));
    } else {
        assert(out@ =~= old(out)@ + int32_field(num, v));
    }
}

/// Encode one sample.
pub fn encode(d: &ImuData) -> (r: Vec<u8>)
    ensures
        r@ == encode_spec(*d),
{
    let mut out: Vec<u8> = Vec::new();
    write_fixed32_field(&mut out, 1, d.x_acc);
    write_fixed32_field(&mut out, 2, d.y_acc);
    write_fixed32_field(&mut out, 3, d.z_acc);
    write_uint32_field(&mut out, 4, d.timestamp_acc);
    write_int32_field(&mut out, 5, d.x_gyro);
    write_int32_field(&mut out, 6, d.y_gyro);
    write_int32_field(&mut out, 7, d.z_gyro);
    write_uint32_field(&mut out, 8, d.timestamp_gyro);
    write_fixed32_field(&mut out, 9, d.x_mag);
    write_fixed32_field(&mut out, 10, d.y_mag);
    write_fixed32_field(&mut out, 11, d.z_mag);
    write_uint32_field(&mut out, 12, d.timestamp_mag);
    assert(out@ =~= encode_spec(*d));
    out
}

/// The wire type each field number carries: 5 (32-bit) for the binary32
/// axes, 0 (varint) for timestamps and gyroscope axes.
pub open spec fn expected_wire(num: u64) -> u64 {
    if num == 1 || num == 2 || num == 3 || num == 9 || num == 10 || num == 11 {
        5
    } else {
        0
    }
}

/// Store a decoded raw value into field `num` of `d`; 32-bit fields truncate,
/// gyroscope fields reinterpret the low 32 bits as signed.
pub open spec fn set_field(d: ImuData, num: u64, raw: u64) -> ImuData {
    if num == 1 {
        ImuData { x_acc: raw as u32, ..d }
    } else if num == 2 {
        ImuData { y_acc: raw as u32, ..d }
    } else if num == 3 {
        ImuData { z_acc: raw as u32, ..d }
    } else if num == 4 {
        ImuData { timestamp_acc: raw as u32, ..d }
    } else if num == 5 {
        ImuData { x_gyro: raw as i32, ..d }
    } else if num == 6 {
        ImuData { y_gyro: raw as i32, ..d }
    } else if num == 7 {
        ImuData { z_gyro: raw as i32, ..d }
    } else if num == 8 {
        ImuData { timestamp_gyro: raw as u32, ..d }
    } else if num == 9 {
        ImuData { x_mag: raw as u32, ..d }
    } else if num == 10 {
        ImuData { y_mag: raw as u32, ..d }
    } else if num == 11 {
        ImuData { z_mag: raw as u32, ..d }
    } else {
        ImuData { timestamp_mag: raw as u32, ..d }
    }
}

/// Parse one tagged field off the front of `s`: the field number, the raw
/// value, and the unconsumed suffix.  Fails on a bad tag varint, a field
/// number outside one to twelve, a wrong wire type, or a short value.
pub open spec fn parse_field(s: Seq<u8>) -> Option<(u64, u64, Seq<u8>)> {
    match varint_dec(s, 10) {
        Some(t) => {
            let num = t.0 / 8;
            let wt = t.0 % 8;
            let r1 = t.1;
            if num < 1 || num > 12 {
                None
            } else if wt != expected_wire(num) {
                None
            } else if wt == 5 {
                if r1.len() < 4 {
                    None
                } else {
                    Some((num, le32_dec(r1) as u64, r1.skip(4)))
                }
            } else {
                match varint_dec(r1, 10) {
                    Some(v) => Some((num, v.0, v.1)),
                    None => None,
                }
            }
        },
        None => None,
    }
}

/// Fold fields off the front of `s` into `acc` until the bytes run out.
/// `fuel` bounds the recursion; every field consumes at least one byte, so a
/// fuel of `s.len()` never cuts a parse short.
pub open spec fn decode_rec(s: Seq<u8>, acc: ImuData, fuel: nat) -> Option<ImuData>
    decreases fuel,
{
    if s.len() == 0 {
        Some(acc)
    } else if fuel == 0 {
        None
    } else {
        match parse_field(s) {
            Some(f) => decode_rec(f.2, set_field(acc, f.0, f.1), (fuel - 1) as nat),
            None => None,
        }
    }
}

/// The sample a payload decodes to, if it decodes: fields folded into the
/// all-zero sample.
pub open spec fn decode_spec(s: Seq<u8>) -> Option<ImuData> {
    decode_rec(s, zero_sample(), s.len())
}

/// A successful varint parse consumes at least one byte.
proof fn lemma_varint_dec_consumes(s: Seq<u8>, max: nat)
    requires
        varint_dec(s, max) is Some,
    ensures
        varint_dec(s, max).unwrap().1.len() < s.len(),
    decreases max,
{
    if s[0] < 128 {
    } else {
        lemma_varint_dec_consumes(s.skip(1), (max - 1) as nat);
    }
}

/// A successful field parse consumes at least one byte.
proof fn lemma_parse_field_consumes(s: Seq<u8>)
    requires
        parse_field(s) is Some,
    ensures
        parse_field(s).unwrap().2.len() < s.len(),
{
    let t = varint_dec(s, 10).unwrap();
    lemma_varint_dec_consumes(s, 10);
    if t.0 % 8 == 5 {
    } else {
        lemma_varint_dec_consumes(t.1, 10);
    }
}

/// Any fuel at least `s.len()` decodes `s` the same way.
proof fn lemma_decode_fuel(s: Seq<u8>, acc: ImuData, fuel: nat)
    requires
        fuel >= s.len(),
    ensures
        decode_rec(s, acc, fuel) == decode_rec(s, acc, s.len()),
    decreases s.len(),
{
    if s.len() == 0 {
    } else {
        match parse_field(s) {
            Some(f) => {
                lemma_parse_field_consumes(s);
                let acc2 = set_field(acc, f.0, f.1);
                lemma_decode_fuel(f.2, acc2, (fuel - 1) as nat);
                lemma_decode_fuel(f.2, acc2, (s.len() - 1) as nat);
            },
            None => {},
        }
    }
}

/// Parsing an encoded binary32 field gives the number and bits back.
proof fn lemma_parse_fixed32(num: u64, bits: u32, rest: Seq<u8>)
    requires
        1 <= num <= 12,
        expected_wire(num) == 5,
        bits != 0,
    ensures
        parse_field(fixed32_field(num, bits) + rest) == Some((num, bits as u64, rest)),
{
    let s = fixed32_field(num, bits) + rest;
    let tag = tag_byte(num, 5);
    assert(s[0] == tag);
    assert(tag < 128);
    assert(s.skip(1) =~= le32_enc(bits) + rest);
    assert((tag as u64) / 8 == num && (tag as u64) % 8 == 5);
    let r1 = le32_enc(bits) + rest;
    lemma_le32_round_trip(bits);
    assert(le32_dec(r1) == le32_dec(le32_enc(bits)));
    assert(r1.skip(4) =~= rest);
}

/// Parsing an encoded varint field gives the number and value back.
proof fn lemma_parse_varint_field(num: u64, raw: u64, rest: Seq<u8>)
    requires
        1 <= num <= 12,
        expected_wire(num) == 0,
        raw != 0,
    ensures
        parse_field(seq![tag_byte(num, 0)] + varint_enc(raw) + rest) == Some((num, raw, rest)),
{
    let s = seq![tag_byte(num, 0)] + varint_enc(raw) + rest;
    let tag = tag_byte(num, 0);
    assert(s[0] == tag);
    assert(tag < 128);
    assert(s.skip(1) =~= varint_enc(raw) + rest);
    assert((tag as u64) / 8 == num && (tag as u64) % 8 == 0);
    lemma_varint_enc_len(raw);
    lemma_varint_round_trip(raw, rest, 10);
}

/// One decoding step over an encoded binary32 field.  The field of `acc`
/// must still hold its zero default, so that an omitted field leaves `acc`
/// as `set_field` would.
proof fn lemma_step_fixed32(num: u64, bits: u32, rest: Seq<u8>, acc: ImuData)
    requires
        1 <= num <= 12,
        expected_wire(num) == 5,
        set_field(acc, num, 0) == acc,
    ensures
        decode_rec(fixed32_field(num, bits) + rest, acc, (fixed32_field(num, bits) + rest).len())
            == decode_rec(rest, set_field(acc, num, bits as u64), rest.len()),
{
    if bits == 0 {
        assert(fixed32_field(num, bits) + rest =~= rest);
    } else {
        let s = fixed32_field(num, bits) + rest;
        lemma_parse_fixed32(num, bits, rest);
        lemma_decode_fuel(rest, set_field(acc, num, bits as u64), (s.len() - 1) as nat);
    }
}

/// One decoding step over an encoded unsigned varint field, under the same
/// zero-default premise.
proof fn lemma_step_uint32(num: u64, v: u32, rest: Seq<u8>, acc: ImuData)
    requires
        1 <= num <= 12,
        expected_wire(num) == 0,
        set_field(acc, num, 0) == acc,
    ensures
        decode_rec(uint32_field(num, v) + rest, acc, (uint32_field(num, v) + rest).len())
            == decode_rec(rest, set_field(acc, num, v as u64), rest.len()),
{
    if v == 0 {
        assert(uint32_field(num, v) + rest =~= rest);
    } else {
        let s = uint32_field(num, v) + rest;
        assert(s =~= seq![tag_byte(num, 0)] + varint_enc(v as u64) + rest);
        lemma_parse_varint_field(num, v as u64, rest);
        lemma_decode_fuel(rest, set_field(acc, num, v as u64), (s.len() - 1) as nat);
    }
}

/// One decoding step over an encoded signed varint field, under the same
/// zero-default premise.
proof fn lemma_step_int32(num: u64, v: i32, rest: Seq<u8>, acc: ImuData)
    requires
        1 <= num <= 12,
        expected_wire(num) == 0,
        set_field(acc, num, 0) == acc,
    ensures
        decode_rec(int32_field(num, v) + rest, acc, (int32_field(num, v) + rest).len())
            == decode_rec(rest, set_field(acc, num, v as u64), rest.len()),
{
    if v == 0 {
        assert(int32_field(num, v) + rest =~= rest);
    } else {
        let s = int32_field(num, v) + rest;
        assert(s =~= seq![tag_byte(num, 0)] + varint_enc(v as u64) + rest);
        assert(v as u64 != 0) by (bit_vector)
            requires
                v != 0,
        ;
        lemma_parse_varint_field(num, v as u64, rest);
        lemma_decode_fuel(rest, set_field(acc, num, v as u64), (s.len() - 1) as nat);
    }
}

/// A gyroscope value survives sign extension to 64 bits and truncation back.
proof fn lemma_sign_extend_round(v: i32)
    ensures
        (v as u64) as i32 == v,
{
    assert((v as u64) as i32 == v) by (bit_vector);
}

/// The accumulator after folding every field of `d` into the zero sample.
spec fn folded_sample(d: ImuData) -> ImuData {
    set_field(
        set_field(
            set_field(
                set_field(
                    set_field(
                        set_field(
                            set_field(
                                set_field(
                                    set_field(
                                        set_field(
                                            set_field(
                                                set_field(zero_sample(), 1, d.x_acc as u64),
                                                2,
                                                d.y_acc as u64,
                                            ),
                                            3,
                                            d.z_acc as u64,
                                        ),
                                        4,
                                        d.timestamp_acc as u64,
                                    ),
                                    5,
                                    d.x_gyro as u64,
                                ),
                                6,
                                d.y_gyro as u64,
                            ),
                            7,
                            d.z_gyro as u64,
                        ),
                        8,
                        d.timestamp_gyro as u64,
                    ),
                    9,
                    d.x_mag as u64,
                ),
                10,
                d.y_mag as u64,
            ),
            11,
            d.z_mag as u64,
        ),
        12,
        d.timestamp_mag as u64,
    )
}

/// Decoding steps over the four accel fields of `d`, starting from an
/// accumulator whose accel fields still hold their zero defaults.
#[verifier::rlimit(100)]
#[verifier::spinoff_prover]
proof fn lemma_chain_accel(d: ImuData, acc: ImuData, rest: Seq<u8>)
    requires
        acc.x_acc == 0,
        acc.y_acc == 0,
        acc.z_acc == 0,
        acc.timestamp_acc == 0,
    ensures
        ({
            let r5 = rest;
            let r4 = uint32_field(4, d.timestamp_acc) + r5;
            let r3 = fixed32_field(3, d.z_acc) + r4;
            let r2 = fixed32_field(2, d.y_acc) + r3;
            let r1 = fixed32_field(1, d.x_acc) + r2;
            decode_rec(r1, acc, r1.len()) == decode_rec(rest, set_field(set_field(set_field(set_field(acc, 1, d.x_acc as u64), 2, d.y_acc as u64), 3, d.z_acc as u64), 4, d.timestamp_acc as u64), rest.len())
        }),
{
    let f1 = fixed32_field(1, d.x_acc);
    let f2 = fixed32_field(2, d.y_acc);
    let f3 = fixed32_field(3, d.z_acc);
    let f4 = uint32_field(4, d.timestamp_acc);
    let r5 = rest;
    let r4 = f4 + r5;
    let r3 = f3 + r4;
    let r2 = f2 + r3;
    let r1 = f1 + r2;
    lemma_step_fixed32(1, d.x_acc, r2, acc);
    let a1 = set_field(acc, 1, d.x_acc as u64);
    lemma_step_fixed32(2, d.y_acc, r3, a1);
    let a2 = set_field(a1, 2, d.y_acc as u64);
    lemma_step_fixed32(3, d.z_acc, r4, a2);
    let a3 = set_field(a2, 3, d.z_acc as u64);
    lemma_step_uint32(4, d.timestamp_acc, r5, a3);
}

/// Decoding steps over the four gyro fields of `d`, starting from an
/// accumulator whose gyro fields still hold their zero defaults.
#[verifier::rlimit(100)]
#[verifier::spinoff_prover]
proof fn lemma_chain_gyro(d: ImuData, acc: ImuData, rest: Seq<u8>)
    requires
        acc.x_gyro == 0,
        acc.y_gyro == 0,
        acc.z_gyro == 0,
        acc.timestamp_gyro == 0,
    ensures
        ({
            let r9 = rest;
            let r8 = uint32_field(8, d.timestamp_gyro) + r9;
            let r7 = int32_field(7, d.z_gyro) + r8;
            let r6 = int32_field(6, d.y_gyro) + r7;
            let r5 = int32_field(5, d.x_gyro) + r6;
            decode_rec(r5, acc, r5.len()) == decode_rec(rest, set_field(set_field(set_field(set_field(acc, 5, d.x_gyro as u64), 6, d.y_gyro as u64), 7, d.z_gyro as u64), 8, d.timestamp_gyro as u64), rest.len())
        }),
{
    let f5 = int32_field(5, d.x_gyro);
    let f6 = int32_field(6, d.y_gyro);
    let f7 = int32_field(7, d.z_gyro);
    let f8 = uint32_field(8, d.timestamp_gyro);
    let r9 = rest;
    let r8 = f8 + r9;
    let r7 = f7 + r8;
    let r6 = f6 + r7;
    let r5 = f5 + r6;
    lemma_step_int32(5, d.x_gyro, r6, acc);
    let a1 = set_field(acc, 5, d.x_gyro as u64);
    lemma_step_int32(6, d.y_gyro, r7, a1);
    let a2 = set_field(a1, 6, d.y_gyro as u64);
    lemma_step_int32(7, d.z_gyro, r8, a2);
    let a3 = set_field(a2, 7, d.z_gyro as u64);
    lemma_step_uint32(8, d.timestamp_gyro, r9, a3);
}

/// Decoding steps over the four mag fields of `d`, starting from an
/// accumulator whose mag fields still hold their zero defaults.
#[verifier::rlimit(100)]
#[verifier::spinoff_prover]
proof fn lemma_chain_mag(d: ImuData, acc: ImuData, rest: Seq<u8>)
    requires
        acc.x_mag == 0,
        acc.y_mag == 0,
        acc.z_mag == 0,
        acc.timestamp_mag == 0,
    ensures
        ({
            let r13 = rest;
            let r12 = uint32_field(12, d.timestamp_mag) + r13;
            let r11 = fixed32_field(11, d.z_mag) + r12;
            let r10 = fixed32_field(10, d.y_mag) + r11;
            let r9 = fixed32_field(9, d.x_mag) + r10;
            decode_rec(r9, acc, r9.len()) == decode_rec(rest, set_field(set_field(set_field(set_field(acc, 9, d.x_mag as u64), 10, d.y_mag as u64), 11, d.z_mag as u64), 12, d.timestamp_mag as u64), rest.len())
        }),
{
    let f9 = fixed32_field(9, d.x_mag);
    let f10 = fixed32_field(10, d.y_mag);
    let f11 = fixed32_field(11, d.z_mag);
    let f12 = uint32_field(12, d.timestamp_mag);
    let r13 = rest;
    let r12 = f12 + r13;
    let r11 = f11 + r12;
    let r10 = f10 + r11;
    let r9 = f9 + r10;
    lemma_step_fixed32(9, d.x_mag, r10, acc);
    let a1 = set_field(acc, 9, d.x_mag as u64);
    lemma_step_fixed32(10, d.y_mag, r11, a1);
    let a2 = set_field(a1, 10, d.y_mag as u64);
    lemma_step_fixed32(11, d.z_mag, r12, a2);
    let a3 = set_field(a2, 11, d.z_mag as u64);
    lemma_step_uint32(12, d.timestamp_mag, r13, a3);
}

/// The encoding of `d` as a right-nested chain of its twelve fields.
spec fn enc_chain(d: ImuData) -> Seq<u8> {
    fixed32_field(1, d.x_acc) + (fixed32_field(2, d.y_acc) + (fixed32_field(3, d.z_acc) + (uint32_field(4, d.timestamp_acc) + (int32_field(5, d.x_gyro) + (int32_field(6, d.y_gyro) + (int32_field(7, d.z_gyro) + (uint32_field(8, d.timestamp_gyro) + (fixed32_field(9, d.x_mag) + (fixed32_field(10, d.y_mag) + (fixed32_field(11, d.z_mag) + (uint32_field(12, d.timestamp_mag) + (Seq::<u8>::empty()))))))))))))
}

/// Twelve concatenations associate either way.
#[verifier::rlimit(100)]
#[verifier::spinoff_prover]
proof fn lemma_assoc12(
    s1: Seq<u8>,
    s2: Seq<u8>,
    s3: Seq<u8>,
    s4: Seq<u8>,
    s5: Seq<u8>,
    s6: Seq<u8>,
    s7: Seq<u8>,
    s8: Seq<u8>,
    s9: Seq<u8>,
    s10: Seq<u8>,
    s11: Seq<u8>,
    s12: Seq<u8>,
)
    ensures
        (((((((((((s1 + s2) + s3) + s4) + s5) + s6) + s7) + s8) + s9) + s10) + s11) + s12) == (s1 + (s2 + (s3 + (s4 + (s5 + (s6 + (s7 + (s8 + (s9 + (s10 + (s11 + (s12 + Seq::<u8>::empty())))))))))))),
{
    assert((((((((((((s1 + s2) + s3) + s4) + s5) + s6) + s7) + s8) + s9) + s10) + s11) + s12) =~= (s1 + (s2 + (s3 + (s4 + (s5 + (s6 + (s7 + (s8 + (s9 + (s10 + (s11 + (s12 + Seq::<u8>::empty())))))))))))));
}

/// Concatenation of the twelve fields associates either way.
#[verifier::rlimit(100)]
#[verifier::spinoff_prover]
proof fn lemma_encode_reassoc(d: ImuData)
    ensures
        encode_spec(d) == enc_chain(d),
{
    lemma_assoc12(
        fixed32_field(1, d.x_acc),
        fixed32_field(2, d.y_acc),
        fixed32_field(3, d.z_acc),
        uint32_field(4, d.timestamp_acc),
        int32_field(5, d.x_gyro),
        int32_field(6, d.y_gyro),
        int32_field(7, d.z_gyro),
        uint32_field(8, d.timestamp_gyro),
        fixed32_field(9, d.x_mag),
        fixed32_field(10, d.y_mag),
        fixed32_field(11, d.z_mag),
        uint32_field(12, d.timestamp_mag),
    );
}

/// Walking the decoder over the twelve encoded fields of `d` folds each one
/// into the accumulator in turn.
#[verifier::rlimit(100)]
#[verifier::spinoff_prover]
proof fn lemma_decode_field_chain(d: ImuData)
    ensures
        decode_rec(encode_spec(d), zero_sample(), encode_spec(d).len()) == Some(folded_sample(d)),
{
    lemma_encode_reassoc(d);
    let f1 = fixed32_field(1, d.x_acc);
    let f2 = fixed32_field(2, d.y_acc);
    let f3 = fixed32_field(3, d.z_acc);
    let f4 = uint32_field(4, d.timestamp_acc);
    let f5 = int32_field(5, d.x_gyro);
    let f6 = int32_field(6, d.y_gyro);
    let f7 = int32_field(7, d.z_gyro);
    let f8 = uint32_field(8, d.timestamp_gyro);
    let f9 = fixed32_field(9, d.x_mag);
    let f10 = fixed32_field(10, d.y_mag);
    let f11 = fixed32_field(11, d.z_mag);
    let f12 = uint32_field(12, d.timestamp_mag);
    let r13 = Seq::<u8>::empty();
    let r12 = f12 + r13;
    let r11 = f11 + r12;
    let r10 = f10 + r11;
    let r9 = f9 + r10;
    let r8 = f8 + r9;
    let r7 = f7 + r8;
    let r6 = f6 + r7;
    let r5 = f5 + r6;
    let r4 = f4 + r5;
    let r3 = f3 + r4;
    let r2 = f2 + r3;
    let r1 = f1 + r2;
    assert(enc_chain(d) == r1);
    let a0 = zero_sample();
    lemma_chain_accel(d, a0, r5);
    let a4 = set_field(set_field(set_field(set_field(a0, 1, d.x_acc as u64), 2, d.y_acc as u64), 3, d.z_acc as u64), 4, d.timestamp_acc as u64);
    lemma_chain_gyro(d, a4, r9);
    let a8 = set_field(set_field(set_field(set_field(a4, 5, d.x_gyro as u64), 6, d.y_gyro as u64), 7, d.z_gyro as u64), 8, d.timestamp_gyro as u64);
    lemma_chain_mag(d, a8, r13);
    let a12 = set_field(set_field(set_field(set_field(a8, 9, d.x_mag as u64), 10, d.y_mag as u64), 11, d.z_mag as u64), 12, d.timestamp_mag as u64);
    assert(decode_rec(r13, a12, r13.len()) == Some(a12));
    assert(a12 == folded_sample(d));
}

/// Round trip: decoding an encoded sample restores it exactly, for every
/// combination of field values.
#[verifier::rlimit(100)]
#[verifier::spinoff_prover]
pub proof fn lemma_encode_decode_round_trip(d: ImuData)
    ensures
        decode_spec(encode_spec(d)) == Some(d),
{
    lemma_decode_field_chain(d);
    lemma_sign_extend_round(d.x_gyro);
    lemma_sign_extend_round(d.y_gyro);
    lemma_sign_extend_round(d.z_gyro);
    assert(folded_sample(d) == d);
}

/// Map a field number to its wire type.
fn field_wire_type(num: u64) -> (r: u64)
    ensures
        r == expected_wire(num),
{
    if num == 1 || num == 2 || num == 3 || num == 9 || num == 10 || num == 11 {
        5
    } else {
        0
    }
}

/// Store a decoded raw value into field `num`.
fn store_field(d: ImuData, num: u64, raw: u64) -> (r: ImuData)
    requires
        1 <= num <= 12,
    ensures
        r == set_field(d, num, raw),
{
    let small: u32 = #[verifier::truncate] (raw as u32);
    let signed: i32 = #[verifier::truncate] (raw as i32);
    if num == 1 {
        ImuData { x_acc: small, ..d }
    } else if num == 2 {
        ImuData { y_acc: small, ..d }
    } else if num == 3 {
        ImuData { z_acc: small, ..d }
    } else if num == 4 {
        ImuData { timestamp_acc: small, ..d }
    } else if num == 5 {
        ImuData { x_gyro: signed, ..d }
    } else if num == 6 {
        ImuData { y_gyro: signed, ..d }
    } else if num == 7 {
        ImuData { z_gyro: signed, ..d }
    } else if num == 8 {
        ImuData { timestamp_gyro: small, ..d }
    } else if num == 9 {
        ImuData { x_mag: small, ..d }
    } else if num == 10 {
        ImuData { y_mag: small, ..d }
    } else if num == 11 {
        ImuData { z_mag: small, ..d }
    } else {
        ImuData { timestamp_mag: small, ..d }
    }
}

/// Decode a payload into a sample.  Succeeds exactly when the whole payload
/// is a well-formed run of known fields.
pub fn decode(bytes: &[u8]) -> (r: Result<ImuData, DecodeError>)
    ensures
        match r {
            Ok(d) => decode_spec(bytes@) == Some(d),
            Err(_) => decode_spec(bytes@) is None,
        },
{
    let mut acc = ImuData::default();
    let mut pos: usize = 0;
    proof {
        assert(bytes@.skip(0) =~= bytes@);
    }
    loop
        invariant
            pos <= bytes@.len(),
            decode_rec(bytes@.skip(pos as int), acc, (bytes@.len() - pos) as nat) == decode_spec(
                bytes@,
            ),
        decreases bytes@.len() - pos,
    {
        let ghost s = bytes@.skip(pos as int);
        if pos == bytes.len() {
            assert(s.len() == 0);
            return Ok(acc);
        }
        let (tag, p1) = match read_varint(bytes, pos, 10) {
            Ok(p) => p,
            Err(e) => {
                return Err(e);
            },
        };
        let num = tag / 8;
        let wt = tag % 8;
        if num < 1 || 12 < num {
            return Err(DecodeError::BadTag);
        }
        if wt != field_wire_type(num) {
            return Err(DecodeError::BadWireType);
        }
        let ghost r1 = bytes@.skip(p1 as int);
        if wt == 5 {
            if bytes.len() - p1 < 4 {
                return Err(DecodeError::Truncated);
            }
            let bits = read_le32(bytes, p1);
            proof {
                assert(r1.skip(4) =~= bytes@.skip(p1 as int + 4));
                assert(parse_field(s) == Some((num, bits as u64, bytes@.skip(p1 as int + 4))));
                lemma_parse_field_consumes(s);
                lemma_decode_fuel(
                    bytes@.skip(p1 as int + 4),
                    set_field(acc, num, bits as u64),
                    (bytes@.len() - pos - 1) as nat,
                );
            }
            acc = store_field(acc, num, bits as u64);
            pos = p1 + 4;
        } else {
            let (raw, p2) = match read_varint(bytes, p1, 10) {
                Ok(p) => p,
                Err(e) => {
                    return Err(e);
                },
            };
            proof {
                assert(parse_field(s) == Some((num, raw, bytes@.skip(p2 as int))));
                lemma_parse_field_consumes(s);
                lemma_decode_fuel(
                    bytes@.skip(p2 as int),
                    set_field(acc, num, raw),
                    (bytes@.len() - pos - 1) as nat,
                );
            }
            acc = store_field(acc, num, raw);
            pos = p2;
        }
    }
}

} // verus!
