//! Attributes in general: a 16-bit length, a 16-bit kind, a value, and zero
//! bytes up to the next multiple of four. A list of attributes is the
//! concatenation of its records.

use crate::error::{Cause, DecodeFailure, Field};
use crate::wire::{
    align, align4, lemma_u16_bytes, padding, read_u16, u16_bytes, u16_of_bytes, write_u16, zeros,
    HEADER_SIZE,
};
use vstd::prelude::*;
use vstd::slice::slice_subrange;

verus! {

/// The bit of a kind that marks a value which is itself a list of attributes.
pub const NLA_F_NESTED: u16 = 0x8000;

/// The bits of a kind that tell attributes apart: all fifteen but the
/// nested flag.
pub const NLA_KIND_MASK: u16 = 0x7fff;

/// The largest number of bytes that the value of an attribute can have: the
/// length in the header counts the header too, and is a 16-bit number.
pub const MAX_VALUE_LEN: usize = 0xfffb;

/// A typed attribute. The view of a value is its mathematical model; the
/// spec functions say how a model is written and read, and the executable
/// methods do so on bytes.
pub trait Attribute: Sized + View {
    /// Whether a kind, the nested flag aside, is one that this type of
    /// attribute knows.
    spec fn recognized(kind: u16) -> bool;

    /// The kind under which the model is written, the nested flag included.
    spec fn kind_of(model: Self::V) -> u16;

    /// The bytes of the model's value, without header and padding.
    spec fn value_of(model: Self::V) -> Seq<u8>;

    /// Whether the model can be written: its value, and the value of every
    /// attribute inside it, fits the 16-bit length of a header.
    spec fn encodable(model: Self::V) -> bool;

    /// Whether the model is one that reading produces: an attribute kept
    /// under an unrecognised kind has a kind that is indeed not recognised,
    /// here and in every attribute inside it.
    spec fn canonical(model: Self::V) -> bool;

    /// The model that a kind and the bytes of a value stand for.
    spec fn decode(kind: u16, value: Seq<u8>) -> Result<Self::V, DecodeFailure>;

    /// The value of a model that can be written fits a header's length.
    proof fn lemma_encodable_len(model: Self::V)
        requires
            Self::encodable(model),
        ensures
            Self::value_of(model).len() <= MAX_VALUE_LEN,
    ;

    /// Reading what was written gives the model back.
    proof fn lemma_round_trip(model: Self::V)
        requires
            Self::encodable(model),
            Self::canonical(model),
        ensures
            Self::decode(Self::kind_of(model), Self::value_of(model)) == Ok::<
                Self::V,
                DecodeFailure,
            >(model),
    ;

    /// Whatever is read is canonical.
    proof fn lemma_decode_canonical(kind: u16, value: Seq<u8>)
        ensures
            Self::decode(kind, value) matches Ok(model) ==> Self::canonical(model),
    ;

    /// An attribute of a kind that is not recognised is read without
    /// failure, whatever its value, and keeps the kind, the nested flag
    /// included, and the value as they were.
    proof fn lemma_unknown_kind(kind: u16, value: Seq<u8>)
        requires
            !Self::recognized(kind),
        ensures
            Self::decode(kind, value) matches Ok(model) && Self::kind_of(model) == kind
                && Self::value_of(model) == value && Self::canonical(model) && (value.len()
                <= MAX_VALUE_LEN ==> Self::encodable(model)),
    ;

    /// The number of bytes of the value, without header and padding.
    fn value_len(&self) -> (len: usize)
        requires
            Self::value_of(self@).len() <= usize::MAX,
        ensures
            len == Self::value_of(self@).len(),
    ;

    /// The number of bytes of the value, unless it is more than the machine
    /// can count.
    fn checked_value_len(&self) -> (len: Option<usize>)
        ensures
            match len {
                Some(n) => n == Self::value_of(self@).len(),
                None => Self::value_of(self@).len() > usize::MAX,
            },
    ;

    /// Whether the attribute can be written: [`emit_value`](Self::emit_value)
    /// and [`emit`] ask for it.
    fn is_encodable(&self) -> (fits: bool)
        ensures
            fits == Self::encodable(self@),
    ;

    /// The kind under which the attribute is written, the nested flag
    /// included.
    fn kind(&self) -> (kind: u16)
        ensures
            kind == Self::kind_of(self@),
    ;

    /// Writes the value over the whole of `buffer`.
    fn emit_value(&self, buffer: &mut [u8])
        requires
            Self::encodable(self@),
            old(buffer)@.len() == Self::value_of(self@).len(),
        ensures
            final(buffer)@ == Self::value_of(self@),
    ;

    /// Reads an attribute from the kind in its header, the nested flag
    /// included, and the bytes of its value.
    fn parse(kind: u16, payload: &[u8]) -> (r: Result<Self, DecodeFailure>)
        ensures
            match r {
                Ok(attribute) => Self::decode(kind, payload@) == Ok::<Self::V, DecodeFailure>(
                    attribute@,
                ),
                Err(e) => Self::decode(kind, payload@) == Err::<Self::V, DecodeFailure>(e),
            },
    ;
}

/// The models of a sequence of attributes, in order.
pub open spec fn views<A: Attribute>(s: Seq<A>) -> Seq<A::V> {
    Seq::new(s.len(), |i: int| s[i]@)
}

/// Whether every model of a list can be written.
pub open spec fn all_encodable<A: Attribute>(s: Seq<A::V>) -> bool {
    forall|i: int| 0 <= i < s.len() ==> A::encodable(#[trigger] s[i])
}

/// Whether every model of a list is one that reading produces.
pub open spec fn all_canonical<A: Attribute>(s: Seq<A::V>) -> bool {
    forall|i: int| 0 <= i < s.len() ==> A::canonical(#[trigger] s[i])
}

/// The bytes of one attribute given by kind and value: the length of header
/// and value, the kind, the value, and zero bytes up to a multiple of four.
pub open spec fn raw_record(kind: u16, value: Seq<u8>) -> Seq<u8> {
    u16_bytes((value.len() + 4) as u16) + u16_bytes(kind) + value + zeros(
        padding(value.len() as int),
    )
}

/// The bytes of one attribute in a list.
pub open spec fn record<A: Attribute>(model: A::V) -> Seq<u8> {
    raw_record(A::kind_of(model), A::value_of(model))
}

/// The bytes of a list of attributes: one record after the other.
pub open spec fn encode_list<A: Attribute>(s: Seq<A::V>) -> Seq<u8>
    decreases s.len(),
{
    if s.len() == 0 {
        Seq::empty()
    } else {
        record::<A>(s[0]) + encode_list::<A>(s.drop_first())
    }
}

/// What a list decodes to when the attributes `done` were read from its front
/// and `rest` is what the bytes behind them decode to.
pub open spec fn prepend<M>(done: Seq<M>, rest: Result<Seq<M>, DecodeFailure>) -> Result<
    Seq<M>,
    DecodeFailure,
> {
    match rest {
        Ok(more) => Ok(done + more),
        Err(e) => Err(e),
    }
}

/// What a list decodes to when its first attribute decodes to `first` and
/// `rest` is what the bytes behind it decode to.
pub open spec fn chain<M>(
    first: Result<M, DecodeFailure>,
    rest: Result<Seq<M>, DecodeFailure>,
) -> Result<Seq<M>, DecodeFailure> {
    match first {
        Err(e) => Err(e),
        Ok(m) => prepend(seq![m], rest),
    }
}

/// Where the record after one with `len` bytes of header and value starts in
/// a list of `total` bytes: past the padding, or at the end of the list where
/// the last record's padding is cut short.
pub open spec fn next_record(len: int, total: int) -> int {
    if align4(len) < total {
        align4(len)
    } else {
        total
    }
}

/// The list of attributes that the bytes `b` stand for: no bytes are the
/// empty list; otherwise a header, of which the length says where the value
/// ends, the attribute that kind and value stand for, and the list that the
/// bytes from the next record on stand for. The first failure on the way is
/// the failure of the whole. `container` is the attribute whose value `b` is:
/// a record that does not fit is a failure under its name.
pub open spec fn decode_list<A: Attribute>(b: Seq<u8>, container: Field) -> Result<
    Seq<A::V>,
    DecodeFailure,
>
    decreases b.len(),
{
    if b.len() == 0 {
        Ok(Seq::empty())
    } else if b.len() < 4 {
        Err(DecodeFailure { field: container, cause: Cause::TruncatedHeader })
    } else {
        let len = u16_of_bytes(b.subrange(0, 2)) as int;
        let kind = u16_of_bytes(b.subrange(2, 4));
        if b.len() < len {
            Err(DecodeFailure { field: container, cause: Cause::LengthExceedsBuffer })
        } else if len < 4 {
            Err(DecodeFailure { field: container, cause: Cause::LengthBelowHeader })
        } else {
            chain(
                A::decode(kind, b.subrange(4, len)),
                decode_list::<A>(b.skip(next_record(len, b.len() as int)), container),
            )
        }
    }
}

/// An attribute takes four bytes of header and its value rounded up to a
/// multiple of four, whatever its kind and value.
pub proof fn lemma_raw_record_len(kind: u16, value: Seq<u8>)
    ensures
        raw_record(kind, value).len() == 4 + align4(value.len() as int),
        raw_record(kind, value).len() == align4(4 + value.len() as int),
        raw_record(kind, value).len() % 4 == 0,
{
    lemma_u16_bytes((value.len() + 4) as u16);
    lemma_u16_bytes(kind);
}

/// A list is as long as its records together, and so a multiple of four.
pub proof fn lemma_encode_list_len<A: Attribute>(s: Seq<A::V>)
    ensures
        encode_list::<A>(s).len() % 4 == 0,
        s.len() > 0 ==> encode_list::<A>(s).len() == record::<A>(s[0]).len() + encode_list::<A>(
            s.drop_first(),
        ).len(),
    decreases s.len(),
{
    if s.len() > 0 {
        lemma_raw_record_len(A::kind_of(s[0]), A::value_of(s[0]));
        lemma_encode_list_len::<A>(s.drop_first());
    }
}

/// Writing two lists one after the other writes their concatenation.
pub proof fn lemma_encode_list_concat<A: Attribute>(a: Seq<A::V>, b: Seq<A::V>)
    ensures
        encode_list::<A>(a + b) == encode_list::<A>(a) + encode_list::<A>(b),
    decreases a.len(),
{
    if a.len() == 0 {
        assert(a + b =~= b);
        assert(encode_list::<A>(a) + encode_list::<A>(b) =~= encode_list::<A>(b));
    } else {
        lemma_encode_list_concat::<A>(a.drop_first(), b);
        assert((a + b).drop_first() =~= a.drop_first() + b);
        assert((a + b)[0] == a[0]);
        assert(encode_list::<A>(a + b) =~= encode_list::<A>(a) + encode_list::<A>(b));
    }
}

/// The first `i + 1` attributes of a list are written as the first `i`
/// followed by the record of the next one.
pub proof fn lemma_encode_list_take<A: Attribute>(s: Seq<A::V>, i: int)
    requires
        0 <= i < s.len(),
    ensures
        encode_list::<A>(s.take(i + 1)) == encode_list::<A>(s.take(i)) + record::<A>(s[i]),
        encode_list::<A>(s) == encode_list::<A>(s.take(i + 1)) + encode_list::<A>(s.skip(i + 1)),
{
    let one = seq![s[i]];
    assert(s.take(i + 1) =~= s.take(i) + one);
    lemma_encode_list_concat::<A>(s.take(i), one);
    assert(one.drop_first() =~= Seq::<A::V>::empty());
    assert(encode_list::<A>(one.drop_first()) =~= Seq::<u8>::empty());
    assert(encode_list::<A>(one) =~= record::<A>(s[i]));
    assert(s =~= s.take(i + 1) + s.skip(i + 1));
    lemma_encode_list_concat::<A>(s.take(i + 1), s.skip(i + 1));
}

/// The parts of a record followed by the rest of a list can be cut out of
/// the whole again.
proof fn lemma_record_parts(
    length: Seq<u8>,
    kind: Seq<u8>,
    value: Seq<u8>,
    pad: Seq<u8>,
    rest: Seq<u8>,
)
    requires
        length.len() == 2,
        kind.len() == 2,
    ensures
        ({
            let b = length + kind + value + pad + rest;
            &&& b.len() == 4 + value.len() + pad.len() + rest.len()
            &&& b.subrange(0, 2) == length
            &&& b.subrange(2, 4) == kind
            &&& b.subrange(4, 4 + value.len() as int) == value
            &&& b.skip(4 + value.len() as int + pad.len() as int) == rest
        }),
{
    let b = length + kind + value + pad + rest;
    assert(b.subrange(0, 2) =~= length);
    assert(b.subrange(2, 4) =~= kind);
    assert(b.subrange(4, 4 + value.len() as int) =~= value);
    assert(b.skip(4 + value.len() as int + pad.len() as int) =~= rest);
}

/// One step of reading a list: a header with the length of header and value,
/// the value, as many bytes of padding as alignment takes, whatever they
/// hold, and then the rest of the list.
pub proof fn lemma_decode_step<A: Attribute>(
    kind: u16,
    value: Seq<u8>,
    pad: Seq<u8>,
    rest: Seq<u8>,
    container: Field,
)
    requires
        value.len() <= MAX_VALUE_LEN,
        pad.len() == padding(value.len() as int),
    ensures
        decode_list::<A>(
            u16_bytes((value.len() + 4) as u16) + u16_bytes(kind) + value + pad + rest,
            container,
        ) == chain(A::decode(kind, value), decode_list::<A>(rest, container)),
{
    let len = (value.len() + 4) as u16;
    let b = u16_bytes(len) + u16_bytes(kind) + value + pad + rest;
    lemma_u16_bytes(len);
    lemma_u16_bytes(kind);
    lemma_record_parts(u16_bytes(len), u16_bytes(kind), value, pad, rest);
    let next = next_record(len as int, b.len() as int);
    assert(next == 4 + value.len() + pad.len() || (rest.len() == 0 && next == b.len()));
    assert(b.skip(b.len() as int) =~= Seq::<u8>::empty());
    assert(b.skip(next) == rest);
}

/// Reading a list that was written gives the list back, provided that each
/// attribute can be written and is one that reading produces.
pub proof fn lemma_list_round_trip<A: Attribute>(s: Seq<A::V>, container: Field)
    requires
        all_encodable::<A>(s),
        all_canonical::<A>(s),
    ensures
        decode_list::<A>(encode_list::<A>(s), container) == Ok::<Seq<A::V>, DecodeFailure>(s),
    decreases s.len(),
{
    if s.len() == 0 {
        assert(s =~= Seq::<A::V>::empty());
    } else {
        let first = s[0];
        let rest = s.drop_first();
        let value = A::value_of(first);
        A::lemma_encodable_len(first);
        A::lemma_round_trip(first);
        assert forall|i: int| 0 <= i < rest.len() implies A::encodable(#[trigger] rest[i])
            && A::canonical(rest[i]) by {
            assert(rest[i] == s[i + 1]);
        }
        lemma_list_round_trip::<A>(rest, container);
        lemma_decode_step::<A>(
            A::kind_of(first),
            value,
            zeros(padding(value.len() as int)),
            encode_list::<A>(rest),
            container,
        );
        assert(seq![first] + rest =~= s);
    }
}

/// Every attribute of a list that was read is canonical.
pub proof fn lemma_decode_list_canonical<A: Attribute>(b: Seq<u8>, container: Field)
    ensures
        decode_list::<A>(b, container) matches Ok(list) ==> all_canonical::<A>(list),
    decreases b.len(),
{
    if let Ok(list) = decode_list::<A>(b, container) {
        if b.len() > 0 {
            let len = u16_of_bytes(b.subrange(0, 2)) as int;
            let kind = u16_of_bytes(b.subrange(2, 4));
            let tail = b.skip(next_record(len, b.len() as int));
            A::lemma_decode_canonical(kind, b.subrange(4, len));
            lemma_decode_list_canonical::<A>(tail, container);
            let first = A::decode(kind, b.subrange(4, len))->Ok_0;
            let rest = decode_list::<A>(tail, container)->Ok_0;
            assert forall|i: int| 0 <= i < list.len() implies A::canonical(#[trigger] list[i]) by {
                if i > 0 {
                    assert(list[i] == rest[i - 1]);
                }
            }
        }
    }
}

/// An attribute of a kind that is not recognised is read and written again
/// as the bytes that it was read from, wherever it stands in a list: at the
/// front of any list it is read without failure, and what was read is
/// written as the same record, followed by what the rest of the list is
/// written as.
pub proof fn lemma_unknown_kind_fidelity<A: Attribute>(
    kind: u16,
    value: Seq<u8>,
    rest: Seq<u8>,
    container: Field,
)
    requires
        !A::recognized(kind),
        value.len() <= MAX_VALUE_LEN,
    ensures
        match decode_list::<A>(rest, container) {
            Ok(more) => decode_list::<A>(raw_record(kind, value) + rest, container) matches Ok(
                list,
            ) && encode_list::<A>(list) == raw_record(kind, value) + encode_list::<A>(more),
            Err(e) => decode_list::<A>(raw_record(kind, value) + rest, container) == Err::<
                Seq<A::V>,
                DecodeFailure,
            >(e),
        },
{
    A::lemma_unknown_kind(kind, value);
    lemma_decode_step::<A>(kind, value, zeros(padding(value.len() as int)), rest, container);
    if let Ok(more) = decode_list::<A>(rest, container) {
        let first = seq![A::decode(kind, value)->Ok_0];
        lemma_encode_list_concat::<A>(first, more);
        assert(first.drop_first() =~= Seq::<A::V>::empty());
        assert(encode_list::<A>(first.drop_first()) =~= Seq::<u8>::empty());
        assert(encode_list::<A>(first) =~= raw_record(kind, value));
    }
}

/// The bytes of padding are not looked at: two lists that differ only in
/// what the padding of their first record holds decode alike.
pub proof fn lemma_padding_ignored<A: Attribute>(
    kind: u16,
    value: Seq<u8>,
    pad: Seq<u8>,
    rest: Seq<u8>,
    container: Field,
)
    requires
        value.len() <= MAX_VALUE_LEN,
        pad.len() == padding(value.len() as int),
    ensures
        decode_list::<A>(
            u16_bytes((value.len() + 4) as u16) + u16_bytes(kind) + value + pad + rest,
            container,
        ) == decode_list::<A>(raw_record(kind, value) + rest, container),
{
    lemma_decode_step::<A>(kind, value, pad, rest, container);
    lemma_decode_step::<A>(kind, value, zeros(padding(value.len() as int)), rest, container);
}

/// Sets the first `n` bytes of `buffer` to zero.
fn zero_fill(buffer: &mut [u8], n: usize)
    requires
        n <= old(buffer)@.len(),
    ensures
        final(buffer)@ == zeros(n as int) + old(buffer)@.skip(n as int),
{
    let mut i: usize = 0;
    while i < n
        invariant
            i <= n <= buffer@.len(),
            buffer@.len() == old(buffer)@.len(),
            buffer@ =~= zeros(i as int) + old(buffer)@.skip(i as int),
        decreases n - i,
    {
        buffer[i] = 0;
        i += 1;
    }
}

/// The number of bytes that the attribute takes in a list: header, value and
/// padding.
pub fn buffer_len<A: Attribute>(attribute: &A) -> (len: usize)
    requires
        record::<A>(attribute@).len() <= usize::MAX,
    ensures
        len == record::<A>(attribute@).len(),
        len == align4(4 + A::value_of(attribute@).len() as int),
{
    proof {
        lemma_raw_record_len(A::kind_of(attribute@), A::value_of(attribute@));
    }
    align(attribute.value_len()) + HEADER_SIZE
}

/// Writes the attribute to the front of `buffer`: the length of header and
/// value, the kind as the attribute gives it, the nested flag included, the
/// value, and zero padding. What lies behind stays as it was.
pub fn emit<A: Attribute>(attribute: &A, buffer: &mut [u8])
    requires
        A::encodable(attribute@),
        old(buffer)@.len() >= record::<A>(attribute@).len(),
    ensures
        final(buffer)@ == record::<A>(attribute@) + old(buffer)@.skip(
            record::<A>(attribute@).len() as int,
        ),
{
    proof {
        A::lemma_encodable_len(attribute@);
        lemma_raw_record_len(A::kind_of(attribute@), A::value_of(attribute@));
    }
    let value_len: usize = attribute.value_len();
    let kind: u16 = attribute.kind();
    let (head, body) = buffer.split_at_mut(HEADER_SIZE);
    let (length_field, kind_field) = head.split_at_mut(2);
    write_u16(length_field, (value_len + HEADER_SIZE) as u16);
    write_u16(kind_field, kind);
    let (value, tail) = body.split_at_mut(value_len);
    attribute.emit_value(value);
    zero_fill(tail, align(value_len) - value_len);
    proof {
        lemma_u16_bytes((value_len + 4) as u16);
        lemma_u16_bytes(kind);
        assert(final(buffer)@ =~= record::<A>(attribute@) + old(buffer)@.skip(
            record::<A>(attribute@).len() as int,
        ));
    }
}

/// Writes the attribute to the front of `buffer` and says how many bytes it
/// took, if the attribute can be written and `buffer` has room for it.
/// Otherwise `buffer` stays as it was.
pub fn try_emit<A: Attribute>(attribute: &A, buffer: &mut [u8]) -> (written: Option<usize>)
    ensures
        match written {
            Some(len) => {
                &&& A::encodable(attribute@)
                &&& len == record::<A>(attribute@).len()
                &&& len <= old(buffer)@.len()
                &&& final(buffer)@ == record::<A>(attribute@) + old(buffer)@.skip(len as int)
            },
            None => {
                &&& !(A::encodable(attribute@) && record::<A>(attribute@).len() <= old(
                    buffer,
                )@.len())
                &&& final(buffer)@ == old(buffer)@
            },
        },
{
    if !attribute.is_encodable() {
        return None;
    }
    proof {
        A::lemma_encodable_len(attribute@);
        lemma_raw_record_len(A::kind_of(attribute@), A::value_of(attribute@));
    }
    let len: usize = buffer_len(attribute);
    if buffer.len() < len {
        return None;
    }
    emit(attribute, buffer);
    Some(len)
}

/// The number of bytes that a list of attributes takes.
pub fn list_buffer_len<A: Attribute>(list: &[A]) -> (len: usize)
    requires
        encode_list::<A>(views(list@)).len() <= usize::MAX,
    ensures
        len == encode_list::<A>(views(list@)).len(),
{
    let ghost models = views(list@);
    let mut len: usize = 0;
    let mut i: usize = 0;
    while i < list.len()
        invariant
            i <= list.len(),
            models == views(list@),
            encode_list::<A>(models).len() <= usize::MAX,
            len == encode_list::<A>(models.take(i as int)).len(),
        decreases list.len() - i,
    {
        proof {
            lemma_encode_list_take::<A>(models, i as int);
            assert(models[i as int] == list@[i as int]@);
        }
        len += buffer_len(&list[i]);
        i += 1;
    }
    assert(models.take(i as int) =~= models);
    len
}

/// The number of bytes that a list of attributes takes, unless it is more
/// than the machine can count.
pub fn checked_list_buffer_len<A: Attribute>(list: &[A]) -> (len: Option<usize>)
    ensures
        match len {
            Some(n) => n == encode_list::<A>(views(list@)).len(),
            None => encode_list::<A>(views(list@)).len() > usize::MAX,
        },
{
    let ghost models = views(list@);
    let mut len: usize = 0;
    let mut i: usize = 0;
    while i < list.len()
        invariant
            i <= list.len(),
            models == views(list@),
            len == encode_list::<A>(models.take(i as int)).len(),
        decreases list.len() - i,
    {
        proof {
            lemma_encode_list_take::<A>(models, i as int);
            assert(models[i as int] == list@[i as int]@);
            lemma_raw_record_len(A::kind_of(models[i as int]), A::value_of(models[i as int]));
        }
        let value_len: usize = match list[i].checked_value_len() {
            Some(n) => n,
            None => {
                return None;
            },
        };
        if value_len > usize::MAX - 3 {
            return None;
        }
        let aligned: usize = align(value_len);
        if aligned > usize::MAX - HEADER_SIZE {
            return None;
        }
        let record_len: usize = aligned + HEADER_SIZE;
        if record_len > usize::MAX - len {
            return None;
        }
        len += record_len;
        i += 1;
    }
    assert(models.take(i as int) =~= models);
    Some(len)
}

/// Whether each attribute of a list can be written and the list takes at
/// most `limit` bytes.
pub fn list_fits<A: Attribute>(list: &[A], limit: usize) -> (fits: bool)
    requires
        limit <= MAX_VALUE_LEN,
    ensures
        fits == (all_encodable::<A>(views(list@)) && encode_list::<A>(views(list@)).len()
            <= limit),
{
    let ghost models = views(list@);
    let mut len: usize = 0;
    let mut i: usize = 0;
    while i < list.len()
        invariant
            i <= list.len(),
            limit <= MAX_VALUE_LEN,
            models == views(list@),
            all_encodable::<A>(models.take(i as int)),
            len == encode_list::<A>(models.take(i as int)).len(),
            len <= limit,
        decreases list.len() - i,
    {
        proof {
            lemma_encode_list_take::<A>(models, i as int);
            assert(models[i as int] == list@[i as int]@);
        }
        if !list[i].is_encodable() {
            return false;
        }
        proof {
            A::lemma_encodable_len(models[i as int]);
            lemma_raw_record_len(A::kind_of(models[i as int]), A::value_of(models[i as int]));
        }
        len += buffer_len(&list[i]);
        if len > limit {
            return false;
        }
        i += 1;
        assert forall|j: int| 0 <= j < i implies A::encodable(
            #[trigger] models.take(i as int)[j],
        ) by {
            if j < i - 1 {
                assert(models.take(i as int)[j] == models.take(i - 1)[j]);
            }
        }
    }
    assert(models.take(i as int) =~= models);
    true
}

/// Writes a list of attributes to the front of `buffer`, one record after
/// the other. What lies behind stays as it was.
pub fn emit_list<A: Attribute>(list: &[A], buffer: &mut [u8])
    requires
        all_encodable::<A>(views(list@)),
        old(buffer)@.len() >= encode_list::<A>(views(list@)).len(),
    ensures
        final(buffer)@ == encode_list::<A>(views(list@)) + old(buffer)@.skip(
            encode_list::<A>(views(list@)).len() as int,
        ),
{
    let ghost models = views(list@);
    let capacity: usize = buffer.len();
    let mut start: usize = 0;
    let mut i: usize = 0;
    while i < list.len()
        invariant
            i <= list.len(),
            models == views(list@),
            all_encodable::<A>(models),
            buffer@.len() == old(buffer)@.len(),
            capacity == buffer@.len(),
            capacity >= encode_list::<A>(models).len(),
            start == encode_list::<A>(models.take(i as int)).len(),
            buffer@ == encode_list::<A>(models.take(i as int)) + old(buffer)@.skip(start as int),
        decreases list.len() - i,
    {
        proof {
            lemma_encode_list_take::<A>(models, i as int);
            assert(models[i as int] == list@[i as int]@);
        }
        let record_len: usize = buffer_len(&list[i]);
        let (_, rest) = buffer.split_at_mut(start);
        emit(&list[i], rest);
        start += record_len;
        i += 1;
        assert(buffer@ =~= encode_list::<A>(models.take(i as int)) + old(buffer)@.skip(
            start as int,
        ));
    }
    assert(models.take(i as int) =~= models);
}

/// Writes a list of attributes to the front of `buffer` and says how many
/// bytes it took, if each attribute can be written, the list fits the value
/// of an attribute, and `buffer` has room for it. Otherwise `buffer` stays as
/// it was.
pub fn try_emit_list<A: Attribute>(list: &[A], buffer: &mut [u8]) -> (written: Option<usize>)
    ensures
        match written {
            Some(len) => {
                &&& all_encodable::<A>(views(list@))
                &&& len == encode_list::<A>(views(list@)).len()
                &&& len <= old(buffer)@.len()
                &&& len <= MAX_VALUE_LEN
                &&& final(buffer)@ == encode_list::<A>(views(list@)) + old(buffer)@.skip(
                    len as int,
                )
            },
            None => {
                &&& !(all_encodable::<A>(views(list@)) && encode_list::<A>(views(list@)).len()
                    <= old(buffer)@.len() && encode_list::<A>(views(list@)).len()
                    <= MAX_VALUE_LEN)
                &&& final(buffer)@ == old(buffer)@
            },
        },
{
    let room: usize = buffer.len();
    let limit: usize = if room < MAX_VALUE_LEN {
        room
    } else {
        MAX_VALUE_LEN
    };
    if !list_fits(list, limit) {
        return None;
    }
    let len: usize = list_buffer_len(list);
    emit_list(list, buffer);
    Some(len)
}

/// Reads a list of attributes from the whole of `buffer`. `container` is the
/// attribute whose value `buffer` is.
pub fn parse_list<A: Attribute>(buffer: &[u8], container: Field) -> (r: Result<
    Vec<A>,
    DecodeFailure,
>)
    ensures
        match r {
            Ok(list) => decode_list::<A>(buffer@, container) == Ok::<Seq<A::V>, DecodeFailure>(
                views(list@),
            ),
            Err(e) => decode_list::<A>(buffer@, container) == Err::<Seq<A::V>, DecodeFailure>(e),
        },
{
    let mut list: Vec<A> = Vec::new();
    let mut position: usize = 0;
    assert(buffer@.skip(0) =~= buffer@);
    assert(views(list@) =~= Seq::<A::V>::empty());
    while position < buffer.len()
        invariant
            position <= buffer.len(),
            decode_list::<A>(buffer@, container) == prepend(
                views(list@),
                decode_list::<A>(buffer@.skip(position as int), container),
            ),
        decreases buffer.len() - position,
    {
        let ghost rest = buffer@.skip(position as int);
        let ghost done = views(list@);
        let remaining: usize = buffer.len() - position;
        if remaining < HEADER_SIZE {
            return Err(DecodeFailure { field: container, cause: Cause::TruncatedHeader });
        }
        let length: usize = read_u16(slice_subrange(buffer, position, position + 2)) as usize;
        let kind: u16 = read_u16(slice_subrange(buffer, position + 2, position + 4));
        assert(buffer@.subrange(position as int, position + 2).subrange(0, 2) =~= rest.subrange(
            0,
            2,
        ));
        assert(buffer@.subrange(position + 2, position + 4).subrange(0, 2) =~= rest.subrange(
            2,
            4,
        ));
        if remaining < length {
            return Err(DecodeFailure { field: container, cause: Cause::LengthExceedsBuffer });
        }
        if length < HEADER_SIZE {
            return Err(DecodeFailure { field: container, cause: Cause::LengthBelowHeader });
        }
        let payload = slice_subrange(buffer, position + HEADER_SIZE, position + length);
        assert(payload@ =~= rest.subrange(4, length as int));
        match A::parse(kind, payload) {
            Err(e) => {
                return Err(e);
            },
            Ok(attribute) => {
                list.push(attribute);
            },
        }
        let aligned: usize = align(length);
        let ghost next = next_record(length as int, remaining as int);
        if aligned < remaining {
            position += aligned;
        } else {
            position = buffer.len();
        }
        proof {
            assert(rest.skip(next) =~= buffer@.skip(position as int));
            let more = decode_list::<A>(buffer@.skip(position as int), container);
            assert(views(list@) =~= done + seq![list@[list@.len() - 1]@]);
            if let Ok(tail) = more {
                assert(done + (seq![list@[list@.len() - 1]@] + tail) =~= views(list@) + tail);
            }
        }
    }
    assert(buffer@.skip(position as int) =~= Seq::<u8>::empty());
    assert(views(list@) + Seq::<A::V>::empty() =~= views(list@));
    Ok(list)
}

} // verus!
