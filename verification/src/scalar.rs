//! Numbers as attribute values: one, four or eight bytes, and nothing else.

use crate::error::{Cause, DecodeFailure, Field};
use crate::wire::{i64_of_bytes, read_i64, u32_of_bytes};
use netlink_packet_utils::parsers::{parse_u32, parse_u8};
use vstd::prelude::*;

verus! {

/// The failure of a number whose value has another width than the number.
pub open spec fn invalid_width(field: Field) -> DecodeFailure {
    DecodeFailure { field, cause: Cause::InvalidWidth }
}

/// The byte that a value of one byte holds.
pub open spec fn decode_u8(value: Seq<u8>, field: Field) -> Result<u8, DecodeFailure> {
    if value.len() == 1 {
        Ok(value[0])
    } else {
        Err(invalid_width(field))
    }
}

/// The 32-bit number that a value of four bytes holds.
pub open spec fn decode_u32(value: Seq<u8>, field: Field) -> Result<u32, DecodeFailure> {
    if value.len() == 4 {
        Ok(u32_of_bytes(value))
    } else {
        Err(invalid_width(field))
    }
}

/// The signed 64-bit number that a value of eight bytes holds.
pub open spec fn decode_i64(value: Seq<u8>, field: Field) -> Result<i64, DecodeFailure> {
    if value.len() == 8 {
        Ok(i64_of_bytes(value))
    } else {
        Err(invalid_width(field))
    }
}

/// Reads the value of a one-byte attribute.
pub fn parse_u8_field(payload: &[u8], field: Field) -> (r: Result<u8, DecodeFailure>)
    ensures
        r == decode_u8(payload@, field),
{
    match parse_u8(payload) {
        Ok(n) => Ok(n),
        Err(_) => Err(DecodeFailure { field, cause: Cause::InvalidWidth }),
    }
}

/// Reads the value of a four-byte attribute.
pub fn parse_u32_field(payload: &[u8], field: Field) -> (r: Result<u32, DecodeFailure>)
    ensures
        r == decode_u32(payload@, field),
{
    match parse_u32(payload) {
        Ok(n) => Ok(n),
        Err(_) => Err(DecodeFailure { field, cause: Cause::InvalidWidth }),
    }
}

/// Reads the value of an eight-byte signed attribute.
pub fn parse_i64_field(payload: &[u8], field: Field) -> (r: Result<i64, DecodeFailure>)
    ensures
        r == decode_i64(payload@, field),
{
    if payload.len() != 8 {
        return Err(DecodeFailure { field, cause: Cause::InvalidWidth });
    }
    let n: i64 = read_i64(payload);
    assert(payload@.subrange(0, 8) == payload@);
    Ok(n)
}

} // verus!
