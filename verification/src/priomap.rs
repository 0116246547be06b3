//! The fixed record that maps priorities to traffic classes and traffic
//! classes to queues. It has no framing of its own: 82 bytes at fixed places.

use crate::error::{Cause, DecodeFailure, Field};
use crate::wire::{lemma_u16_bytes, read_u16, u16_bytes, u16_of_bytes, write_u16};
use vstd::prelude::*;
use vstd::slice::slice_subrange;

verus! {

/// The number of priorities, and the largest number of traffic classes.
pub const TC_MAX: usize = 16;

/// How priorities map to traffic classes, and which queues each traffic
/// class has.
#[derive(Debug, PartialEq, Eq, Clone)]
#[non_exhaustive]
pub struct TcPriomap {
    /// The number of traffic classes in use.
    pub num_tc: u8,
    /// The traffic class of each priority.
    pub prio_tc_map: [u8; 16],
    /// Whether the hardware is asked to do the mapping.
    pub hw: u8,
    /// The number of queues of each traffic class.
    pub count: [u16; 16],
    /// The first queue of each traffic class.
    pub offset: [u16; 16],
}

/// The model of a [`TcPriomap`]: its fields, the arrays as sequences.
pub struct PriomapModel {
    pub num_tc: u8,
    pub prio_tc_map: Seq<u8>,
    pub hw: u8,
    pub count: Seq<u16>,
    pub offset: Seq<u16>,
}

impl View for TcPriomap {
    type V = PriomapModel;

    open spec fn view(&self) -> PriomapModel {
        PriomapModel {
            num_tc: self.num_tc,
            prio_tc_map: self.prio_tc_map@,
            hw: self.hw,
            count: self.count@,
            offset: self.offset@,
        }
    }
}

/// The bytes of a sequence of 16-bit numbers, two for each, in order.
pub open spec fn u16_seq_bytes(s: Seq<u16>) -> Seq<u8> {
    Seq::new(2 * s.len(), |i: int| u16_bytes(s[i / 2])[i % 2])
}

/// The 16-bit numbers that a sequence of bytes holds, two bytes for each.
pub open spec fn u16_seq_of_bytes(b: Seq<u8>) -> Seq<u16> {
    Seq::new(b.len() / 2, |i: int| u16_of_bytes(b.subrange(2 * i, 2 * i + 2)))
}

impl PriomapModel {
    /// Whether each of the three sequences has its sixteen entries.
    pub open spec fn wf(self) -> bool {
        &&& self.prio_tc_map.len() == TC_MAX
        &&& self.count.len() == TC_MAX
        &&& self.offset.len() == TC_MAX
    }

    /// The 82 bytes of the record: the number of traffic classes, the
    /// sixteen bytes of the map, the hardware byte, then counts and offsets
    /// as sixteen 16-bit numbers each.
    pub open spec fn encode(self) -> Seq<u8> {
        seq![self.num_tc] + self.prio_tc_map + seq![self.hw] + u16_seq_bytes(self.count)
            + u16_seq_bytes(self.offset)
    }

    /// The record that 82 bytes hold; fewer bytes, or more, hold none.
    pub open spec fn decode(b: Seq<u8>) -> Result<PriomapModel, DecodeFailure> {
        if b.len() != TcPriomap::BUF_LEN {
            Err(DecodeFailure { field: Field::Priomap, cause: Cause::RecordLength })
        } else {
            Ok(
                PriomapModel {
                    num_tc: b[0],
                    prio_tc_map: b.subrange(1, 17),
                    hw: b[17],
                    count: u16_seq_of_bytes(b.subrange(18, 50)),
                    offset: u16_seq_of_bytes(b.subrange(50, 82)),
                },
            )
        }
    }

    /// A record takes 82 bytes.
    pub proof fn lemma_encode_len(self)
        requires
            self.wf(),
        ensures
            self.encode().len() == TcPriomap::BUF_LEN,
    {
    }

    /// Reading the bytes of a record gives the record back.
    pub proof fn lemma_round_trip(self)
        requires
            self.wf(),
        ensures
            Self::decode(self.encode()) == Ok::<PriomapModel, DecodeFailure>(self),
    {
        let b = self.encode();
        lemma_u16_seq_round_trip(self.count);
        lemma_u16_seq_round_trip(self.offset);
        assert(b.subrange(1, 17) =~= self.prio_tc_map);
        assert(b.subrange(18, 50) =~= u16_seq_bytes(self.count));
        assert(b.subrange(50, 82) =~= u16_seq_bytes(self.offset));
    }

    /// Writing the record that 82 bytes hold gives those bytes back.
    pub proof fn lemma_decode_exact(b: Seq<u8>)
        requires
            b.len() == TcPriomap::BUF_LEN,
        ensures
            Self::decode(b) matches Ok(model) && model.wf() && model.encode() == b,
    {
        let model = Self::decode(b)->Ok_0;
        lemma_u16_seq_of_bytes(b.subrange(18, 50));
        lemma_u16_seq_of_bytes(b.subrange(50, 82));
        assert(model.encode() =~= b);
    }
}

/// Sixteen-bit numbers and their bytes determine each other.
pub proof fn lemma_u16_seq_round_trip(s: Seq<u16>)
    ensures
        u16_seq_bytes(s).len() == 2 * s.len(),
        u16_seq_of_bytes(u16_seq_bytes(s)) == s,
{
    let b = u16_seq_bytes(s);
    assert forall|i: int| 0 <= i < s.len() implies u16_seq_of_bytes(b)[i] == s[i] by {
        lemma_u16_bytes(s[i]);
        assert(b.subrange(2 * i, 2 * i + 2) =~= u16_bytes(s[i]));
    }
    assert(u16_seq_of_bytes(b) =~= s);
}

/// An even number of bytes is the encoding of the numbers it decodes to.
pub proof fn lemma_u16_seq_of_bytes(b: Seq<u8>)
    requires
        b.len() % 2 == 0,
    ensures
        u16_seq_of_bytes(b).len() * 2 == b.len(),
        u16_seq_bytes(u16_seq_of_bytes(b)) == b,
{
    let s = u16_seq_of_bytes(b);
    assert forall|i: int| 0 <= i < b.len() implies u16_seq_bytes(s)[i] == b[i] by {
        let pair = b.subrange(2 * (i / 2), 2 * (i / 2) + 2);
        crate::wire::lemma_u16_of_bytes(pair);
        assert(pair[i % 2] == b[i]);
    }
    assert(u16_seq_bytes(s) =~= b);
}

impl TcPriomap {
    /// The number of bytes of the record.
    pub const BUF_LEN: usize = 82;

    /// A record made of its five fields.
    pub fn from_parts(
        num_tc: u8,
        prio_tc_map: [u8; 16],
        hw: u8,
        count: [u16; 16],
        offset: [u16; 16],
    ) -> (r: Self)
        ensures
            r.num_tc == num_tc,
            r.prio_tc_map == prio_tc_map,
            r.hw == hw,
            r.count == count,
            r.offset == offset,
    {
        Self { num_tc, prio_tc_map, hw, count, offset }
    }

    /// The number of bytes that the record takes: always 82.
    pub fn buffer_len(&self) -> (len: usize)
        ensures
            len == Self::BUF_LEN,
            len == self@.encode().len(),
    {
        Self::BUF_LEN
    }

    /// Writes the record to the first 82 bytes of `buffer`. What lies behind
    /// stays as it was.
    pub fn emit(&self, buffer: &mut [u8])
        requires
            old(buffer)@.len() >= Self::BUF_LEN,
        ensures
            final(buffer)@ == self@.encode() + old(buffer)@.skip(Self::BUF_LEN as int),
    {
        let ghost bytes = self@.encode();
        buffer[0] = self.num_tc;
        let mut i: usize = 0;
        while i < TC_MAX
            invariant
                i <= TC_MAX,
                bytes == self@.encode(),
                buffer@.len() == old(buffer)@.len(),
                buffer@.len() >= Self::BUF_LEN,
                buffer@.take(1 + i) =~= bytes.take(1 + i),
                buffer@.skip(82) =~= old(buffer)@.skip(82),
            decreases TC_MAX - i,
        {
            buffer[1 + i] = self.prio_tc_map[i];
            i += 1;
        }
        buffer[17] = self.hw;
        let mut i: usize = 0;
        while i < TC_MAX
            invariant
                i <= TC_MAX,
                bytes == self@.encode(),
                buffer@.len() == old(buffer)@.len(),
                buffer@.len() >= Self::BUF_LEN,
                buffer@.take(18 + 2 * i) =~= bytes.take(18 + 2 * i),
                buffer@.skip(82) =~= old(buffer)@.skip(82),
            decreases TC_MAX - i,
        {
            proof {
                lemma_u16_bytes(self.count[i as int]);
            }
            let (_, chunk) = buffer.split_at_mut(18 + 2 * i);
            write_u16(chunk, self.count[i]);
            i += 1;
        }
        let mut i: usize = 0;
        while i < TC_MAX
            invariant
                i <= TC_MAX,
                bytes == self@.encode(),
                buffer@.len() == old(buffer)@.len(),
                buffer@.len() >= Self::BUF_LEN,
                buffer@.take(50 + 2 * i) =~= bytes.take(50 + 2 * i),
                buffer@.skip(82) =~= old(buffer)@.skip(82),
            decreases TC_MAX - i,
        {
            proof {
                lemma_u16_bytes(self.offset[i as int]);
            }
            let (_, chunk) = buffer.split_at_mut(50 + 2 * i);
            write_u16(chunk, self.offset[i]);
            i += 1;
        }
        assert(bytes.len() == 82);
        assert(bytes.take(82) =~= bytes);
        assert(buffer@ =~= buffer@.take(82) + buffer@.skip(82));
    }

    /// Reads a record from the 82 bytes of `payload`; a shorter or a longer
    /// one holds no record.
    pub fn parse(payload: &[u8]) -> (r: Result<Self, DecodeFailure>)
        ensures
            match r {
                Ok(priomap) => PriomapModel::decode(payload@) == Ok::<PriomapModel, DecodeFailure>(
                    priomap@,
                ),
                Err(e) => PriomapModel::decode(payload@) == Err::<PriomapModel, DecodeFailure>(e),
            },
    {
        if payload.len() != Self::BUF_LEN {
            return Err(DecodeFailure { field: Field::Priomap, cause: Cause::RecordLength });
        }
        let mut prio_tc_map: [u8; 16] = [0;16];
        let mut i: usize = 0;
        while i < TC_MAX
            invariant
                i <= TC_MAX,
                payload@.len() == Self::BUF_LEN,
                forall|j: int| 0 <= j < i ==> prio_tc_map@[j] == payload@[1 + j],
            decreases TC_MAX - i,
        {
            prio_tc_map[i] = payload[1 + i];
            i += 1;
        }
        let mut count: [u16; 16] = [0;16];
        let mut i: usize = 0;
        while i < TC_MAX
            invariant
                i <= TC_MAX,
                payload@.len() == Self::BUF_LEN,
                forall|j: int|
                    0 <= j < i ==> count@[j] == u16_of_bytes(
                        payload@.subrange(18 + 2 * j, 20 + 2 * j),
                    ),
            decreases TC_MAX - i,
        {
            let chunk = slice_subrange(payload, 18 + 2 * i, 20 + 2 * i);
            assert(chunk@.subrange(0, 2) =~= chunk@);
            count[i] = read_u16(chunk);
            i += 1;
        }
        let mut offset: [u16; 16] = [0;16];
        let mut i: usize = 0;
        while i < TC_MAX
            invariant
                i <= TC_MAX,
                payload@.len() == Self::BUF_LEN,
                forall|j: int|
                    0 <= j < i ==> offset@[j] == u16_of_bytes(
                        payload@.subrange(50 + 2 * j, 52 + 2 * j),
                    ),
            decreases TC_MAX - i,
        {
            let chunk = slice_subrange(payload, 50 + 2 * i, 52 + 2 * i);
            assert(chunk@.subrange(0, 2) =~= chunk@);
            offset[i] = read_u16(chunk);
            i += 1;
        }
        let priomap = Self { num_tc: payload[0], prio_tc_map, hw: payload[17], count, offset };
        proof {
            let model = PriomapModel::decode(payload@)->Ok_0;
            assert(priomap@.prio_tc_map =~= model.prio_tc_map);
            assert forall|j: int| 0 <= j < 16 implies priomap@.count[j] == model.count[j] by {
                assert(payload@.subrange(18, 50).subrange(2 * j, 2 * j + 2) =~= payload@.subrange(
                    18 + 2 * j,
                    20 + 2 * j,
                ));
            }
            assert(priomap@.count =~= model.count);
            assert forall|j: int| 0 <= j < 16 implies priomap@.offset[j] == model.offset[j] by {
                assert(payload@.subrange(50, 82).subrange(2 * j, 2 * j + 2) =~= payload@.subrange(
                    50 + 2 * j,
                    52 + 2 * j,
                ));
            }
            assert(priomap@.offset =~= model.offset);
        }
        Ok(priomap)
    }
}

impl Default for TcPriomap {
    /// The record with every field zero.
    fn default() -> (r: Self)
        ensures
            r.num_tc == 0,
            r.hw == 0,
            forall|i: int| 0 <= i < 16 ==> r.prio_tc_map@[i] == 0,
            forall|i: int| 0 <= i < 16 ==> r.count@[i] == 0,
            forall|i: int| 0 <= i < 16 ==> r.offset@[i] == 0,
    {
        Self { num_tc: 0, prio_tc_map: [0;16], hw: 0, count: [0;16], offset: [0;16] }
    }
}

} // verus!
