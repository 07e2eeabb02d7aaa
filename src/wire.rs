//! Reading protobuf fields through prost's encoding primitives.
use vstd::prelude::*;

use prost::encoding::{DecodeContext, WireType};
use prost::DecodeError;

verus! {

#[verifier::external_type_specification]
#[verifier::external_body]
pub struct ExDecodeError(prost::DecodeError);

/// The wire type of a varint field.
pub const WIRE_VARINT: u8 = 0;

/// The wire type of a length-delimited field.
pub const WIRE_LEN: u8 = 2;

/// The value of a sequence of base-128 groups, least significant first.
pub open spec fn leb128(b: Seq<u8>) -> nat
    decreases b.len(),
{
    if b.len() == 0 {
        0
    } else {
        (b[0] % 128) as nat + 128 * leb128(b.drop_first())
    }
}

/// The length of the varint that starts at index `i`'s group: one past the
/// first byte from `i` on whose high bit is clear, looking at ten bytes at most.
pub open spec fn varint_end(b: Seq<u8>, i: nat) -> Option<nat>
    decreases 10 - i,
{
    if i >= 10 || i >= b.len() {
        None
    } else if b[i as int] < 128 {
        Some(i + 1)
    } else {
        varint_end(b, i + 1)
    }
}

/// The varint at the start of `b`, with the number of bytes it takes. A
/// tenth byte above 1 would overflow 64 bits and is refused.
pub open spec fn varint_prefix(b: Seq<u8>) -> Option<(u64, nat)> {
    match varint_end(b, 0) {
        Some(n) => if n == 10 && b[9] >= 2 {
            None
        } else {
            Some((leb128(b.take(n as int)) as u64, n))
        },
        None => None,
    }
}

/// The field key at the start of `b`: its tag, its wire type and its length.
/// The key must fit in 32 bits, name a wire type up to 5, and a tag of at least 1.
pub open spec fn key_prefix(b: Seq<u8>) -> Option<(u32, u8, nat)> {
    match varint_prefix(b) {
        Some((k, n)) => if k > u32::MAX || k % 8 > 5 || k / 8 < 1 {
            None
        } else {
            Some(((k / 8) as u32, (k % 8) as u8, n))
        },
        None => None,
    }
}

/// The low 32 bits of a 64-bit value, read as a two's complement integer.
pub open spec fn low_i32(v: u64) -> i32 {
    let m = v % 0x1_0000_0000;
    if m < 0x8000_0000 {
        m as i32
    } else {
        (m - 0x1_0000_0000) as i32
    }
}

/// An `int32` field's value at the start of `b`, with its length.
pub open spec fn int32_prefix(wire_type: u8, b: Seq<u8>) -> Option<(i32, nat)> {
    if wire_type != WIRE_VARINT {
        None
    } else {
        match varint_prefix(b) {
            Some((v, n)) => Some((low_i32(v), n)),
            None => None,
        }
    }
}

/// The text that a byte sequence holds as UTF-8, if it is well formed.
pub uninterp spec fn utf8_text(b: Seq<u8>) -> Option<Seq<char>>;

/// A `string` field's value at the start of `b`, with its length.
pub open spec fn string_prefix(wire_type: u8, b: Seq<u8>) -> Option<(Seq<char>, nat)> {
    if wire_type != WIRE_LEN {
        None
    } else {
        match varint_prefix(b) {
            Some((len, n)) => if n + len > b.len() {
                None
            } else {
                match utf8_text(b.subrange(n as int, n + len)) {
                    Some(s) => Some((s, (n + len) as nat)),
                    None => None,
                }
            },
            None => None,
        }
    }
}

/// The length of the value of an unknown field at the start of `b`.
pub uninterp spec fn skipped_len(wire_type: u8, tag: u32, b: Seq<u8>) -> Option<nat>;

/// Relies on prost::encoding::decode_key: reads one field key.
#[verifier::external_body]
pub(crate) fn read_key(data: &[u8], pos: usize) -> (r: Result<(u32, u8, usize), DecodeError>)
    requires
        pos <= data.len(),
    ensures
        match r {
            Ok((tag, wt, rest)) => rest <= data.len() - pos && key_prefix(data@.skip(pos as int))
                == Some((tag, wt, (data.len() - pos - rest) as nat)),
            Err(_) => key_prefix(data@.skip(pos as int)) is None,
        },
{
    let mut buf = &data[pos..];
    match prost::encoding::decode_key(&mut buf) {
        Ok((tag, wire_type)) => Ok((tag, wire_type as u8, buf.len())),
        Err(e) => Err(e),
    }
}

/// Relies on prost::encoding::int32::merge: a varint field taken as `int32`.
#[verifier::external_body]
pub(crate) fn merge_int32(wire_type: u8, data: &[u8], pos: usize) -> (r: Result<(i32, usize), DecodeError>)
    requires
        pos <= data.len(),
    ensures
        match r {
            Ok((v, rest)) => rest <= data.len() - pos && int32_prefix(wire_type, data@.skip(pos as int))
                == Some((v, (data.len() - pos - rest) as nat)),
            Err(_) => int32_prefix(wire_type, data@.skip(pos as int)) is None,
        },
{
    let wire_type = WireType::try_from(wire_type as u64)?;
    let mut buf = &data[pos..];
    let mut value: i32 = 0;
    prost::encoding::int32::merge(wire_type, &mut value, &mut buf, DecodeContext::default())?;
    Ok((value, buf.len()))
}

/// Relies on prost::encoding::string::merge: a length-delimited field that
/// must hold UTF-8.
#[verifier::external_body]
pub(crate) fn merge_string(wire_type: u8, data: &[u8], pos: usize) -> (r: Result<(String, usize), DecodeError>)
    requires
        pos <= data.len(),
    ensures
        match r {
            Ok((s, rest)) => rest <= data.len() - pos && string_prefix(wire_type, data@.skip(pos as int))
                == Some((s@, (data.len() - pos - rest) as nat)) && exists|a: int, b: int|
                pos <= a <= b <= data.len() && utf8_text(#[trigger] data@.subrange(a, b)) == Some(s@),
            Err(_) => string_prefix(wire_type, data@.skip(pos as int)) is None,
        },
{
    let wire_type = WireType::try_from(wire_type as u64)?;
    let mut buf = &data[pos..];
    let mut value = String::new();
    prost::encoding::string::merge(wire_type, &mut value, &mut buf, DecodeContext::default())?;
    Ok((value, buf.len()))
}

/// Relies on prost::encoding::skip_field: passes over the value of a field
/// that the record does not have, groups included.
#[verifier::external_body]
pub(crate) fn skip_field(wire_type: u8, tag: u32, data: &[u8], pos: usize) -> (r: Result<usize, DecodeError>)
    requires
        pos <= data.len(),
    ensures
        match r {
            Ok(rest) => rest <= data.len() - pos && skipped_len(wire_type, tag, data@.skip(pos as int))
                == Some((data.len() - pos - rest) as nat),
            Err(_) => skipped_len(wire_type, tag, data@.skip(pos as int)) is None,
        },
{
    let wire_type = WireType::try_from(wire_type as u64)?;
    let mut buf = &data[pos..];
    prost::encoding::skip_field(wire_type, tag, &mut buf, DecodeContext::default())?;
    Ok(buf.len())
}

} // verus!
