//! The canonical binary wire format of the service's messages.
//!
//! Messages travel as the usual tag/length-prefixed binary encoding:
//! little-endian base-128 varints for keys, lengths, integers and booleans,
//! eight little-endian bytes for double-precision bit patterns, and
//! length-prefixed bytes for strings and nested messages, with fields in
//! ascending field order and default-valued fields omitted. [`WireMessage`]
//! ties a message type to its encoding: a spec-level encoder and parser, an
//! executable pair proved to match them, and the law that parsing undoes
//! encoding.
//!
//! Throughout, a *key byte* is the single byte that opens a field: field
//! number shifted left three times, joined with the wire type. Every field
//! this crate speaks of has a field number small enough for its key to fit
//! one byte.

use vstd::prelude::*;

use vstd::arithmetic::div_mod::lemma_fundamental_div_mod;
use vstd::slice::slice_to_vec;
use vstd::utf8::decode_utf8;
use vstd::utf8::encode_utf8;
use vstd::utf8::encode_utf8_decode_utf8;
use vstd::utf8::encode_utf8_valid_utf8;
use vstd::utf8::valid_utf8;

verus! {

/// A failure to parse bytes as the expected schema.
#[derive(Debug, Clone, Copy, PartialEq, Eq)]
pub struct WireError {}

/// A message type with a canonical binary encoding.
///
/// `spec_parse` is the whole truth about `decode_wire`: decoding succeeds
/// exactly when the spec parser does, with the value it gives. The law
/// `lemma_round_trip` makes the contract two-sided — every encoded value
/// parses back, so decoding fails only on bytes that no value encodes to.
pub trait WireMessage: View + Sized {
    /// The canonical encoding of a message value.
    spec fn spec_encode(v: Self::V) -> Seq<u8>;

    /// The value the given bytes parse to, if any; parsing consumes the
    /// whole byte sequence.
    spec fn spec_parse(bytes: Seq<u8>) -> Option<Self::V>;

    /// Parsing undoes encoding, for every value whose encoding the wire's
    /// length prefixes can measure — as the encoding of any value that fits
    /// in memory can be, by `encode_wire`'s contract.
    proof fn lemma_round_trip(v: Self::V)
        requires
            Self::spec_encode(v).len() <= u64::MAX,
        ensures
            Self::spec_parse(Self::spec_encode(v)) == Some(v),
    ;

    /// Encodes this message canonically.
    fn encode_wire(&self) -> (r: Vec<u8>)
        ensures
            r@ == Self::spec_encode(self@),
            Self::spec_encode(self@).len() <= u64::MAX,
    ;

    /// Decodes a message of this type from the given bytes.
    fn decode_wire(bytes: &[u8]) -> (r: Result<Self, WireError>)
        ensures
            match r {
                Ok(v) => Self::spec_parse(bytes@) == Some(v@),
                Err(e) => Self::spec_parse(bytes@) is None,
            },
    ;
}

// ------------------------------------------------------------------
// Varints
// ------------------------------------------------------------------

/// The little-endian base-128 encoding of `n`: seven value bits per byte,
/// least significant group first, the high bit marking continuation.
pub open spec fn varint(n: u64) -> Seq<u8>
    decreases n,
{
    if n < 128 {
        seq![n as u8]
    } else {
        seq![(n % 128 + 128) as u8] + varint((n / 128) as u64)
    }
}

/// Reads one varint off the front of `b`, giving its value and what
/// follows; `None` when the bytes run out or the value overflows 64 bits.
pub open spec fn take_varint(b: Seq<u8>) -> Option<(u64, Seq<u8>)>
    decreases b.len(),
{
    if b.len() == 0 {
        None
    } else if b[0] < 128 {
        Some(((b[0] as u64), b.drop_first()))
    } else {
        match take_varint(b.drop_first()) {
            Some(t) => {
                if t.0 < 0x0200_0000_0000_0000 {
                    Some((((t.0 * 128 + (b[0] - 128)) as u64), t.1))
                } else {
                    None
                }
            },
            None => None,
        }
    }
}

/// Reading a varint undoes writing one, whatever follows it.
pub proof fn lemma_varint_round_trip(n: u64, rest: Seq<u8>)
    ensures
        take_varint(varint(n) + rest) == Some((n, rest)),
    decreases n,
{
    if n < 128 {
        assert((varint(n) + rest)[0] == n as u8);
        assert((varint(n) + rest).drop_first() =~= rest);
    } else {
        let m = (n / 128) as u64;
        lemma_varint_round_trip(m, rest);
        assert((varint(n) + rest)[0] == (n % 128 + 128) as u8);
        assert((varint(n) + rest).drop_first() =~= varint(m) + rest);
        lemma_fundamental_div_mod(n as int, 128);
        assert(m < 0x0200_0000_0000_0000);
        assert(m * 128 + ((n % 128 + 128) as u8 - 128) == n);
    }
}

/// A varint that parses took at least one byte off the front.
pub proof fn lemma_take_varint_shrinks(b: Seq<u8>)
    ensures
        take_varint(b) matches Some(t) ==> t.1.len() < b.len(),
    decreases b.len(),
{
    if b.len() != 0 && b[0] >= 128 {
        lemma_take_varint_shrinks(b.drop_first());
    }
}

/// Appends the varint encoding of `n` to `out`.
pub fn encode_varint(out: &mut Vec<u8>, n: u64)
    ensures
        final(out)@ == old(out)@ + varint(n),
    decreases n,
{
    if n < 128 {
        out.push(n as u8);
        proof {
            assert(out@ =~= old(out)@ + varint(n));
        }
    } else {
        out.push((n % 128 + 128) as u8);
        encode_varint(out, n / 128);
        proof {
            assert(out@ =~= old(out)@ + varint(n));
        }
    }
}

/// Reads one varint from `bytes` at `pos`, giving its value and the
/// position just past it.
pub fn read_varint(bytes: &[u8], pos: usize) -> (r: Option<(u64, usize)>)
    requires
        pos <= bytes@.len(),
    ensures
        match r {
            Some(t) => {
                &&& pos < t.1 <= bytes@.len()
                &&& take_varint(bytes@.skip(pos as int)) == Some((t.0, bytes@.skip(t.1 as int)))
            },
            None => take_varint(bytes@.skip(pos as int)) is None,
        },
    decreases bytes@.len() - pos,
{
    proof {
        assert(bytes@.skip(pos as int).len() == bytes@.len() - pos);
    }
    if pos == bytes.len() {
        None
    } else {
        let x = bytes[pos];
        proof {
            assert(bytes@.skip(pos as int)[0] == bytes@[pos as int]);
            assert(bytes@.skip(pos as int).drop_first() =~= bytes@.skip(pos as int + 1));
        }
        if x < 128 {
            Some((x as u64, pos + 1))
        } else {
            match read_varint(bytes, pos + 1) {
                Some((hi, end)) => {
                    if hi < 0x0200_0000_0000_0000 {
                        Some((hi * 128 + ((x - 128) as u64), end))
                    } else {
                        None
                    }
                },
                None => None,
            }
        }
    }
}

// ------------------------------------------------------------------
// Length-prefixed payloads
// ------------------------------------------------------------------

/// A payload preceded by its length as a varint.
pub open spec fn len_prefixed(payload: Seq<u8>) -> Seq<u8> {
    varint(payload.len() as u64) + payload
}

/// Reads one length-prefixed payload off the front of `b`.
pub open spec fn take_len_prefixed(b: Seq<u8>) -> Option<(Seq<u8>, Seq<u8>)> {
    match take_varint(b) {
        Some(t) => {
            if t.0 <= t.1.len() {
                Some((t.1.take(t.0 as int), t.1.skip(t.0 as int)))
            } else {
                None
            }
        },
        None => None,
    }
}

/// Reading a length-prefixed payload undoes writing one, whatever follows.
pub proof fn lemma_len_prefixed_round_trip(payload: Seq<u8>, rest: Seq<u8>)
    requires
        payload.len() <= u64::MAX,
    ensures
        take_len_prefixed(len_prefixed(payload) + rest) == Some((payload, rest)),
{
    lemma_varint_round_trip(payload.len() as u64, payload + rest);
    assert(len_prefixed(payload) + rest =~= varint(payload.len() as u64) + (payload + rest));
    assert((payload + rest).take(payload.len() as int) =~= payload);
    assert((payload + rest).skip(payload.len() as int) =~= rest);
}

/// A length-prefixed payload that parses is shorter than what it was read
/// from, and so is what follows it.
pub proof fn lemma_take_len_prefixed_shrinks(b: Seq<u8>)
    ensures
        take_len_prefixed(b) matches Some(t) ==> t.0.len() < b.len() && t.1.len() < b.len(),
{
    lemma_take_varint_shrinks(b);
}

/// Appends `payload` to `out`, preceded by its length as a varint.
pub fn write_len_prefixed(out: &mut Vec<u8>, payload: &[u8])
    ensures
        final(out)@ == old(out)@ + len_prefixed(payload@),
{
    encode_varint(out, payload.len() as u64);
    write_bytes(out, payload);
    proof {
        assert(out@ =~= old(out)@ + len_prefixed(payload@));
    }
}

/// Reads one length-prefixed payload from `bytes` at `pos`, giving the
/// bounds of the payload; its end is also the position just past the whole
/// item.
pub fn read_len_prefixed(bytes: &[u8], pos: usize) -> (r: Option<(usize, usize)>)
    requires
        pos <= bytes@.len(),
    ensures
        match r {
            Some(t) => {
                &&& pos < t.0 <= t.1 <= bytes@.len()
                &&& take_len_prefixed(bytes@.skip(pos as int)) == Some(
                    (bytes@.subrange(t.0 as int, t.1 as int), bytes@.skip(t.1 as int)),
                )
            },
            None => take_len_prefixed(bytes@.skip(pos as int)) is None,
        },
{
    match read_varint(bytes, pos) {
        Some((n, start)) => {
            if n <= (bytes.len() - start) as u64 {
                let end = start + (n as usize);
                proof {
                    let rem = bytes@.skip(start as int);
                    assert(rem.take(n as int) =~= bytes@.subrange(start as int, end as int));
                    assert(rem.skip(n as int) =~= bytes@.skip(end as int));
                }
                Some((start, end))
            } else {
                None
            }
        },
        None => None,
    }
}

/// Appends a byte slice to `out`.
pub fn write_bytes(out: &mut Vec<u8>, payload: &[u8])
    ensures
        final(out)@ == old(out)@ + payload@,
{
    let n = payload.len();
    let mut i: usize = 0;
    while i < n
        invariant
            i <= n,
            n == payload@.len(),
            out@ == old(out)@ + payload@.take(i as int),
        decreases n - i,
    {
        out.push(payload[i]);
        i = i + 1;
        proof {
            assert(out@ =~= old(out)@ + payload@.take(i as int));
        }
    }
    proof {
        assert(payload@.take(n as int) =~= payload@);
    }
}

// ------------------------------------------------------------------
// Fixed-width 64-bit values
// ------------------------------------------------------------------

/// The eight little-endian bytes of `n`.
pub open spec fn fixed64(n: u64) -> Seq<u8> {
    seq![
        n as u8,
        (n >> 8) as u8,
        (n >> 16) as u8,
        (n >> 24) as u8,
        (n >> 32) as u8,
        (n >> 40) as u8,
        (n >> 48) as u8,
        (n >> 56) as u8,
    ]
}

/// The value eight little-endian bytes stand for.
pub open spec fn fixed64_value(b: Seq<u8>) -> u64
    recommends
        b.len() >= 8,
{
    (b[0] as u64) | ((b[1] as u64) << 8) | ((b[2] as u64) << 16) | ((b[3] as u64) << 24) | ((
    b[4] as u64) << 32) | ((b[5] as u64) << 40) | ((b[6] as u64) << 48) | ((b[7] as u64) << 56)
}

/// Reads eight little-endian bytes off the front of `b`.
pub open spec fn take_fixed64(b: Seq<u8>) -> Option<(u64, Seq<u8>)> {
    if b.len() < 8 {
        None
    } else {
        Some((fixed64_value(b), b.skip(8)))
    }
}

/// Reading a fixed 64-bit value undoes writing one, whatever follows.
pub proof fn lemma_fixed64_round_trip(n: u64, rest: Seq<u8>)
    ensures
        take_fixed64(fixed64(n) + rest) == Some((n, rest)),
{
    let b = fixed64(n) + rest;
    assert(b.skip(8) =~= rest);
    assert(b[0] == n as u8);
    assert(b[1] == (n >> 8) as u8);
    assert(b[2] == (n >> 16) as u8);
    assert(b[3] == (n >> 24) as u8);
    assert(b[4] == (n >> 32) as u8);
    assert(b[5] == (n >> 40) as u8);
    assert(b[6] == (n >> 48) as u8);
    assert(b[7] == (n >> 56) as u8);
    assert(((n as u8) as u64) | (((n >> 8) as u8 as u64) << 8) | (((n >> 16) as u8 as u64) << 16)
        | (((n >> 24) as u8 as u64) << 24) | (((n >> 32) as u8 as u64) << 32) | (((
    n >> 40) as u8 as u64) << 40) | (((n >> 48) as u8 as u64) << 48) | (((n >> 56) as u8 as u64)
        << 56) == n) by (bit_vector);
}

/// Appends the eight little-endian bytes of `n` to `out`.
pub fn encode_fixed64(out: &mut Vec<u8>, n: u64)
    ensures
        final(out)@ == old(out)@ + fixed64(n),
{
    out.push(n as u8);
    out.push((n >> 8) as u8);
    out.push((n >> 16) as u8);
    out.push((n >> 24) as u8);
    out.push((n >> 32) as u8);
    out.push((n >> 40) as u8);
    out.push((n >> 48) as u8);
    out.push((n >> 56) as u8);
    proof {
        assert(out@ =~= old(out)@ + fixed64(n));
    }
}

/// Reads a fixed 64-bit value from `bytes` at `pos`, giving the value and
/// the position just past it.
pub fn read_fixed64(bytes: &[u8], pos: usize) -> (r: Option<(u64, usize)>)
    requires
        pos <= bytes@.len(),
    ensures
        match r {
            Some(t) => {
                &&& pos < t.1 <= bytes@.len()
                &&& take_fixed64(bytes@.skip(pos as int)) == Some((t.0, bytes@.skip(t.1 as int)))
            },
            None => take_fixed64(bytes@.skip(pos as int)) is None,
        },
{
    if bytes.len() - pos < 8 {
        None
    } else {
        let v = (bytes[pos] as u64) | ((bytes[pos + 1] as u64) << 8u64) | ((bytes[pos
            + 2] as u64) << 16u64) | ((bytes[pos + 3] as u64) << 24u64) | ((bytes[pos
            + 4] as u64) << 32u64) | ((bytes[pos + 5] as u64) << 40u64) | ((bytes[pos
            + 6] as u64) << 48u64) | ((bytes[pos + 7] as u64) << 56u64);
        proof {
            let rem = bytes@.skip(pos as int);
            assert(rem.len() >= 8);
            assert(rem[0] == bytes@[pos as int]);
            assert(rem[1] == bytes@[pos as int + 1]);
            assert(rem[2] == bytes@[pos as int + 2]);
            assert(rem[3] == bytes@[pos as int + 3]);
            assert(rem[4] == bytes@[pos as int + 4]);
            assert(rem[5] == bytes@[pos as int + 5]);
            assert(rem[6] == bytes@[pos as int + 6]);
            assert(rem[7] == bytes@[pos as int + 7]);
            assert(rem.skip(8) =~= bytes@.skip(pos as int + 8));
        }
        Some((v, pos + 8))
    }
}

// ------------------------------------------------------------------
// Optional fields with single-byte keys
// ------------------------------------------------------------------

/// A string field: absent when empty, else the key byte and the
/// length-prefixed UTF-8 bytes of the text.
pub open spec fn string_field(s: Seq<char>, key: u8) -> Seq<u8> {
    if s.len() == 0 {
        Seq::empty()
    } else {
        seq![key] + len_prefixed(encode_utf8(s))
    }
}

/// Reads an optional string field with the given key byte off the front of
/// `b`: absent means the empty string; a present field must hold valid
/// UTF-8.
pub open spec fn take_string_field(b: Seq<u8>, key: u8) -> Option<(Seq<char>, Seq<u8>)> {
    if b.len() == 0 || b[0] != key {
        Some((Seq::empty(), b))
    } else {
        match take_len_prefixed(b.drop_first()) {
            Some(t) => {
                if valid_utf8(t.0) {
                    Some((decode_utf8(t.0), t.1))
                } else {
                    None
                }
            },
            None => None,
        }
    }
}

/// Reading a string field undoes writing one, as long as what follows does
/// not itself open with this field's key byte.
pub proof fn lemma_string_field_round_trip(s: Seq<char>, key: u8, rest: Seq<u8>)
    requires
        encode_utf8(s).len() <= u64::MAX,
        rest.len() == 0 || rest[0] != key,
    ensures
        take_string_field(string_field(s, key) + rest, key) == Some((s, rest)),
{
    broadcast use encode_utf8_valid_utf8;

    if s.len() == 0 {
        assert(string_field(s, key) + rest =~= rest);
    } else {
        let payload = encode_utf8(s);
        let b = string_field(s, key) + rest;
        assert(b[0] == key);
        assert(b.len() > 0);
        assert(b.drop_first() =~= len_prefixed(payload) + rest);
        lemma_len_prefixed_round_trip(payload, rest);
        encode_utf8_decode_utf8(s);
    }
}

/// A varint-valued field (an integer, a boolean, an enum number): absent
/// when zero, else the key byte and the value as a varint.
pub open spec fn varint_field(v: u64, key: u8) -> Seq<u8> {
    if v == 0 {
        Seq::empty()
    } else {
        seq![key] + varint(v)
    }
}

/// Reads an optional varint-valued field with the given key byte off the
/// front of `b`: absent means zero.
pub open spec fn take_varint_field(b: Seq<u8>, key: u8) -> Option<(u64, Seq<u8>)> {
    if b.len() == 0 || b[0] != key {
        Some((0u64, b))
    } else {
        take_varint(b.drop_first())
    }
}

/// Reading a varint-valued field undoes writing one, as long as what
/// follows does not itself open with this field's key byte.
pub proof fn lemma_varint_field_round_trip(v: u64, key: u8, rest: Seq<u8>)
    requires
        rest.len() == 0 || rest[0] != key,
    ensures
        take_varint_field(varint_field(v, key) + rest, key) == Some((v, rest)),
{
    if v == 0 {
        assert(varint_field(v, key) + rest =~= rest);
    } else {
        let b = varint_field(v, key) + rest;
        assert(b[0] == key);
        assert(b.drop_first() =~= varint(v) + rest);
        lemma_varint_round_trip(v, rest);
    }
}

/// Appends a varint-valued field to `out`.
pub fn write_varint_field(out: &mut Vec<u8>, v: u64, key: u8)
    ensures
        final(out)@ == old(out)@ + varint_field(v, key),
{
    if v != 0 {
        out.push(key);
        encode_varint(out, v);
    }
    proof {
        assert(out@ =~= old(out)@ + varint_field(v, key));
    }
}

/// Relies on `String::from_utf8`: it succeeds exactly on valid UTF-8,
/// decoding those bytes, and fails on anything else.
#[verifier::external_body]
pub(crate) fn string_from_utf8(bytes: Vec<u8>) -> (r: Option<String>)
    ensures
        r matches Some(s) ==> valid_utf8(bytes@) && s@ == decode_utf8(bytes@),
        r is None ==> !valid_utf8(bytes@),
{
    String::from_utf8(bytes).ok()
}

/// Appends a string field to `out`.
pub fn write_string_field(out: &mut Vec<u8>, s: &String, key: u8)
    ensures
        final(out)@ == old(out)@ + string_field(s@, key),
{
    if s.as_str().is_empty() {
        proof {
            assert(out@ =~= old(out)@ + string_field(s@, key));
        }
    } else {
        out.push(key);
        write_len_prefixed(out, s.as_str().as_bytes());
        proof {
            assert(out@ =~= old(out)@ + string_field(s@, key));
        }
    }
}

/// Reads an optional string field with the given key byte from `bytes` at
/// `pos`, giving the text and the position just past the field.
pub fn read_string_field(bytes: &[u8], pos: usize, key: u8) -> (r: Option<(String, usize)>)
    requires
        pos <= bytes@.len(),
    ensures
        match r {
            Some(t) => {
                &&& pos <= t.1 <= bytes@.len()
                &&& take_string_field(bytes@.skip(pos as int), key) == Some(
                    (t.0@, bytes@.skip(t.1 as int)),
                )
            },
            None => take_string_field(bytes@.skip(pos as int), key) is None,
        },
{
    proof {
        assert(bytes@.skip(pos as int).len() == bytes@.len() - pos);
    }
    if pos == bytes.len() || bytes[pos] != key {
        proof {
            if pos < bytes@.len() {
                assert(bytes@.skip(pos as int)[0] == bytes@[pos as int]);
            }
        }
        Some((String::new(), pos))
    } else {
        proof {
            assert(bytes@.skip(pos as int)[0] == bytes@[pos as int]);
            assert(bytes@.skip(pos as int).drop_first() =~= bytes@.skip(pos as int + 1));
        }
        match read_len_prefixed(bytes, pos + 1) {
            Some((start, end)) => {
                let payload = slice_to_vec(&bytes[start..end]);
                match string_from_utf8(payload) {
                    Some(s) => Some((s, end)),
                    None => None,
                }
            },
            None => None,
        }
    }
}

/// Reads an optional varint-valued field with the given key byte from
/// `bytes` at `pos`, giving the value and the position just past the field.
pub fn read_varint_field(bytes: &[u8], pos: usize, key: u8) -> (r: Option<(u64, usize)>)
    requires
        pos <= bytes@.len(),
    ensures
        match r {
            Some(t) => {
                &&& pos <= t.1 <= bytes@.len()
                &&& take_varint_field(bytes@.skip(pos as int), key) == Some(
                    (t.0, bytes@.skip(t.1 as int)),
                )
            },
            None => take_varint_field(bytes@.skip(pos as int), key) is None,
        },
{
    proof {
        assert(bytes@.skip(pos as int).len() == bytes@.len() - pos);
    }
    if pos == bytes.len() || bytes[pos] != key {
        proof {
            if pos < bytes@.len() {
                assert(bytes@.skip(pos as int)[0] == bytes@[pos as int]);
            }
        }
        Some((0u64, pos))
    } else {
        proof {
            assert(bytes@.skip(pos as int)[0] == bytes@[pos as int]);
            assert(bytes@.skip(pos as int).drop_first() =~= bytes@.skip(pos as int + 1));
        }
        read_varint(bytes, pos + 1)
    }
}

} // verus!
