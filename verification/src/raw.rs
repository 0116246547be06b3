//! What this codec takes from `netlink_packet_utils`: the attribute that
//! keeps an unrecognised kind with its bytes, and the parsers of numbers.
//! Nothing in this file is proved: each contract restates what the outside
//! source does.

use crate::wire::u32_of_bytes;
use netlink_packet_utils::nla::{DefaultNla, Nla};
use vstd::prelude::*;

verus! {

/// `netlink_packet_utils::nla::DefaultNla`: a kind and the bytes of a value,
/// both private to the outside crate.
#[verifier::external_type_specification]
#[verifier::external_body]
pub struct ExDefaultNla(DefaultNla);

/// `netlink_packet_utils::DecodeError`: the failure of an outside parser. It
/// wraps a message and is only ever passed on.
#[verifier::external_type_specification]
#[verifier::external_body]
pub struct ExDecodeError(netlink_packet_utils::DecodeError);

/// The kind that a `DefaultNla` was made with.
pub uninterp spec fn nla_kind(nla: DefaultNla) -> u16;

/// The bytes that a `DefaultNla` was made with.
pub uninterp spec fn nla_value(nla: DefaultNla) -> Seq<u8>;

/// `DefaultNla::new` stores the kind and the bytes it is given, unchanged.
pub assume_specification[ DefaultNla::new ](kind: u16, value: Vec<u8>) -> (nla: DefaultNla)
    ensures
        nla_kind(nla) == kind,
        nla_value(nla) == value@,
;

/// The derived `Clone` of `DefaultNla` copies the kind and the bytes.
pub assume_specification[ <DefaultNla as Clone>::clone ](nla: &DefaultNla) -> (copy: DefaultNla)
    ensures
        nla_kind(copy) == nla_kind(*nla),
        nla_value(copy) == nla_value(*nla),
;

/// `DefaultNla::kind` (its impl of `Nla`) returns the stored kind.
#[verifier::external_body]
pub(crate) fn raw_kind(nla: &DefaultNla) -> (kind: u16)
    ensures
        kind == nla_kind(*nla),
{
    nla.kind()
}

/// `DefaultNla::value_len` (its impl of `Nla`) returns the number of stored
/// bytes.
#[verifier::external_body]
pub(crate) fn raw_value_len(nla: &DefaultNla) -> (len: usize)
    ensures
        len == nla_value(*nla).len(),
{
    nla.value_len()
}

/// `DefaultNla::emit_value` (its impl of `Nla`) copies the stored bytes over
/// the whole of `buffer`. The outside function panics unless `buffer` is
/// exactly as long as the stored bytes.
#[verifier::external_body]
pub(crate) fn raw_emit_value(nla: &DefaultNla, buffer: &mut [u8])
    requires
        old(buffer)@.len() == nla_value(*nla).len(),
    ensures
        final(buffer)@ == nla_value(*nla),
{
    nla.emit_value(buffer)
}

/// `parsers::parse_u8` accepts a value of exactly one byte and returns that
/// byte.
pub assume_specification[ netlink_packet_utils::parsers::parse_u8 ](payload: &[u8]) -> (r: Result<
    u8,
    netlink_packet_utils::DecodeError,
>)
    ensures
        r is Ok <==> payload@.len() == 1,
        r matches Ok(n) ==> n == payload@[0],
;

/// `parsers::parse_u32` accepts a value of exactly four bytes and reads them
/// in the machine's byte order.
pub assume_specification[ netlink_packet_utils::parsers::parse_u32 ](payload: &[u8]) -> (r: Result<
    u32,
    netlink_packet_utils::DecodeError,
>)
    ensures
        r is Ok <==> payload@.len() == 4,
        r matches Ok(n) ==> n == u32_of_bytes(payload@),
;

} // verus!
