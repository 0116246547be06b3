//! The schedule: its entries in the order in which they run, each a list of
//! a command, a mask of open traffic classes and an interval.

use crate::error::{DecodeFailure, EncodeFailure, Field};
use crate::nla::{
    all_canonical, all_encodable, checked_list_buffer_len, decode_list, emit_list, encode_list,
    lemma_decode_list_canonical, lemma_list_round_trip, list_buffer_len, list_fits, parse_list,
    views, Attribute, MAX_VALUE_LEN, NLA_KIND_MASK,
};
use crate::raw::{nla_kind, nla_value, raw_emit_value, raw_kind, raw_value_len};
use crate::scalar::{decode_u32, decode_u8, parse_u32_field, parse_u8_field};
use crate::wire::{lemma_u32_bytes, u32_bytes, write_u32};
use netlink_packet_utils::nla::DefaultNla;
use vstd::prelude::*;
use vstd::slice::slice_to_vec;

verus! {

/// Kind of one entry of the schedule.
pub const TCA_TAPRIO_SCHED_ENTRY: u16 = 1;

/// Kind of the command of a schedule entry.
pub const TCA_TAPRIO_SCHED_ENTRY_CMD: u16 = 2;

/// Kind of the mask of open traffic classes of a schedule entry.
pub const TCA_TAPRIO_SCHED_ENTRY_GATE_MASK: u16 = 3;

/// Kind of the interval of a schedule entry.
pub const TCA_TAPRIO_SCHED_ENTRY_INTERVAL: u16 = 4;

/// One part of a schedule entry.
#[derive(Debug, PartialEq, Eq, Clone)]
#[non_exhaustive]
pub enum TaprioScheduleEntryItem {
    /// The command; 0 opens the traffic classes of the mask and shuts the others.
    Cmd(u8),
    /// The traffic classes that may send, one bit each.
    GateMask(u32),
    /// For how many nanoseconds the entry lasts.
    Interval(u32),
    /// An attribute of a kind that this codec does not know.
    Other(DefaultNla),
}

/// The model of a [`TaprioScheduleEntryItem`].
pub enum ScheduleEntryItemModel {
    Cmd(u8),
    GateMask(u32),
    Interval(u32),
    Other { kind: u16, value: Seq<u8> },
}

impl View for TaprioScheduleEntryItem {
    type V = ScheduleEntryItemModel;

    open spec fn view(&self) -> ScheduleEntryItemModel {
        match self {
            TaprioScheduleEntryItem::Cmd(n) => ScheduleEntryItemModel::Cmd(*n),
            TaprioScheduleEntryItem::GateMask(n) => ScheduleEntryItemModel::GateMask(*n),
            TaprioScheduleEntryItem::Interval(n) => ScheduleEntryItemModel::Interval(*n),
            TaprioScheduleEntryItem::Other(nla) => ScheduleEntryItemModel::Other {
                kind: nla_kind(*nla),
                value: nla_value(*nla),
            },
        }
    }
}

impl TaprioScheduleEntryItem {
    /// The command that a character names: `S` is the command 0, and no
    /// other character names a command.
    pub fn cmd_from_char(c: char) -> (r: Result<Self, EncodeFailure>)
        ensures
            c == 'S' ==> r == Ok::<Self, EncodeFailure>(TaprioScheduleEntryItem::Cmd(0)),
            c != 'S' ==> r == Err::<Self, EncodeFailure>(EncodeFailure::InvalidCmd(c)),
    {
        if c == 'S' {
            Ok(Self::Cmd(0))
        } else {
            Err(EncodeFailure::InvalidCmd(c))
        }
    }
}

impl Attribute for TaprioScheduleEntryItem {
    open spec fn recognized(kind: u16) -> bool {
        let id = kind & NLA_KIND_MASK;
        id == TCA_TAPRIO_SCHED_ENTRY_CMD || id == TCA_TAPRIO_SCHED_ENTRY_GATE_MASK || id
            == TCA_TAPRIO_SCHED_ENTRY_INTERVAL
    }

    open spec fn kind_of(model: ScheduleEntryItemModel) -> u16 {
        match model {
            ScheduleEntryItemModel::Cmd(_) => TCA_TAPRIO_SCHED_ENTRY_CMD,
            ScheduleEntryItemModel::GateMask(_) => TCA_TAPRIO_SCHED_ENTRY_GATE_MASK,
            ScheduleEntryItemModel::Interval(_) => TCA_TAPRIO_SCHED_ENTRY_INTERVAL,
            ScheduleEntryItemModel::Other { kind, .. } => kind,
        }
    }

    open spec fn value_of(model: ScheduleEntryItemModel) -> Seq<u8> {
        match model {
            ScheduleEntryItemModel::Cmd(n) => seq![n],
            ScheduleEntryItemModel::GateMask(n) | ScheduleEntryItemModel::Interval(n) => u32_bytes(
                n,
            ),
            ScheduleEntryItemModel::Other { value, .. } => value,
        }
    }

    open spec fn encodable(model: ScheduleEntryItemModel) -> bool {
        match model {
            ScheduleEntryItemModel::Other { value, .. } => value.len() <= MAX_VALUE_LEN,
            _ => true,
        }
    }

    open spec fn canonical(model: ScheduleEntryItemModel) -> bool {
        match model {
            ScheduleEntryItemModel::Other { kind, .. } => !Self::recognized(kind),
            _ => true,
        }
    }

    open spec fn decode(kind: u16, value: Seq<u8>) -> Result<
        ScheduleEntryItemModel,
        DecodeFailure,
    > {
        let id = kind & NLA_KIND_MASK;
        if id == TCA_TAPRIO_SCHED_ENTRY_CMD {
            match decode_u8(value, Field::EntryCmd) {
                Ok(n) => Ok(ScheduleEntryItemModel::Cmd(n)),
                Err(e) => Err(e),
            }
        } else if id == TCA_TAPRIO_SCHED_ENTRY_GATE_MASK {
            match decode_u32(value, Field::EntryGateMask) {
                Ok(n) => Ok(ScheduleEntryItemModel::GateMask(n)),
                Err(e) => Err(e),
            }
        } else if id == TCA_TAPRIO_SCHED_ENTRY_INTERVAL {
            match decode_u32(value, Field::EntryInterval) {
                Ok(n) => Ok(ScheduleEntryItemModel::Interval(n)),
                Err(e) => Err(e),
            }
        } else {
            Ok(ScheduleEntryItemModel::Other { kind, value })
        }
    }

    proof fn lemma_encodable_len(model: ScheduleEntryItemModel) {
        match model {
            ScheduleEntryItemModel::GateMask(n) | ScheduleEntryItemModel::Interval(n) => {
                lemma_u32_bytes(n);
            },
            _ => {},
        }
    }

    proof fn lemma_round_trip(model: ScheduleEntryItemModel) {
        assert(2u16 & 0x7fff == 2 && 3u16 & 0x7fff == 3 && 4u16 & 0x7fff == 4) by (bit_vector);
        match model {
            ScheduleEntryItemModel::GateMask(n) | ScheduleEntryItemModel::Interval(n) => {
                lemma_u32_bytes(n);
            },
            _ => {},
        }
    }

    proof fn lemma_decode_canonical(kind: u16, value: Seq<u8>) {
    }

    proof fn lemma_unknown_kind(kind: u16, value: Seq<u8>) {
    }

    fn value_len(&self) -> (len: usize) {
        match self {
            Self::Cmd(_) => 1,
            Self::GateMask(n) | Self::Interval(n) => {
                proof {
                    lemma_u32_bytes(*n);
                }
                4
            },
            Self::Other(attr) => raw_value_len(attr),
        }
    }

    fn checked_value_len(&self) -> (len: Option<usize>) {
        match self {
            Self::Other(attr) => Some(raw_value_len(attr)),
            _ => Some(self.value_len()),
        }
    }

    fn is_encodable(&self) -> (fits: bool) {
        match self {
            Self::Other(attr) => raw_value_len(attr) <= MAX_VALUE_LEN,
            _ => true,
        }
    }

    fn kind(&self) -> (kind: u16) {
        match self {
            Self::Cmd(_) => TCA_TAPRIO_SCHED_ENTRY_CMD,
            Self::GateMask(_) => TCA_TAPRIO_SCHED_ENTRY_GATE_MASK,
            Self::Interval(_) => TCA_TAPRIO_SCHED_ENTRY_INTERVAL,
            Self::Other(attr) => raw_kind(attr),
        }
    }

    fn emit_value(&self, buffer: &mut [u8]) {
        match self {
            Self::Cmd(d) => {
                buffer[0] = *d;
                assert(buffer@ =~= seq![*d]);
            },
            Self::GateMask(d) | Self::Interval(d) => {
                proof {
                    lemma_u32_bytes(*d);
                }
                write_u32(buffer, *d);
                assert(buffer@ =~= u32_bytes(*d));
            },
            Self::Other(attr) => raw_emit_value(attr, buffer),
        }
    }

    fn parse(kind: u16, payload: &[u8]) -> (r: Result<Self, DecodeFailure>) {
        let id: u16 = kind & NLA_KIND_MASK;
        if id == TCA_TAPRIO_SCHED_ENTRY_CMD {
            match parse_u8_field(payload, Field::EntryCmd) {
                Ok(n) => Ok(Self::Cmd(n)),
                Err(e) => Err(e),
            }
        } else if id == TCA_TAPRIO_SCHED_ENTRY_GATE_MASK {
            match parse_u32_field(payload, Field::EntryGateMask) {
                Ok(n) => Ok(Self::GateMask(n)),
                Err(e) => Err(e),
            }
        } else if id == TCA_TAPRIO_SCHED_ENTRY_INTERVAL {
            match parse_u32_field(payload, Field::EntryInterval) {
                Ok(n) => Ok(Self::Interval(n)),
                Err(e) => Err(e),
            }
        } else {
            Ok(Self::Other(DefaultNla::new(kind, slice_to_vec(payload))))
        }
    }
}

/// One attribute of the schedule.
#[derive(Debug, PartialEq, Eq, Clone)]
#[non_exhaustive]
pub enum TaprioScheduleEntry {
    /// One step of the cycle, as the list of its parts.
    Entry(Vec<TaprioScheduleEntryItem>),
    /// An attribute of a kind that this codec does not know.
    Other(DefaultNla),
}

/// The model of a [`TaprioScheduleEntry`].
pub enum ScheduleEntryModel {
    Entry(Seq<ScheduleEntryItemModel>),
    Other { kind: u16, value: Seq<u8> },
}

impl View for TaprioScheduleEntry {
    type V = ScheduleEntryModel;

    open spec fn view(&self) -> ScheduleEntryModel {
        match self {
            TaprioScheduleEntry::Entry(items) => ScheduleEntryModel::Entry(views(items@)),
            TaprioScheduleEntry::Other(nla) => ScheduleEntryModel::Other {
                kind: nla_kind(*nla),
                value: nla_value(*nla),
            },
        }
    }
}

impl Attribute for TaprioScheduleEntry {
    open spec fn recognized(kind: u16) -> bool {
        kind & NLA_KIND_MASK == TCA_TAPRIO_SCHED_ENTRY
    }

    open spec fn kind_of(model: ScheduleEntryModel) -> u16 {
        match model {
            ScheduleEntryModel::Entry(_) => TCA_TAPRIO_SCHED_ENTRY,
            ScheduleEntryModel::Other { kind, .. } => kind,
        }
    }

    open spec fn value_of(model: ScheduleEntryModel) -> Seq<u8> {
        match model {
            ScheduleEntryModel::Entry(items) => encode_list::<TaprioScheduleEntryItem>(items),
            ScheduleEntryModel::Other { value, .. } => value,
        }
    }

    open spec fn encodable(model: ScheduleEntryModel) -> bool {
        match model {
            ScheduleEntryModel::Entry(items) => {
                &&& all_encodable::<TaprioScheduleEntryItem>(items)
                &&& encode_list::<TaprioScheduleEntryItem>(items).len() <= MAX_VALUE_LEN
            },
            ScheduleEntryModel::Other { value, .. } => value.len() <= MAX_VALUE_LEN,
        }
    }

    open spec fn canonical(model: ScheduleEntryModel) -> bool {
        match model {
            ScheduleEntryModel::Entry(items) => all_canonical::<TaprioScheduleEntryItem>(items),
            ScheduleEntryModel::Other { kind, .. } => !Self::recognized(kind),
        }
    }

    open spec fn decode(kind: u16, value: Seq<u8>) -> Result<ScheduleEntryModel, DecodeFailure> {
        if kind & NLA_KIND_MASK == TCA_TAPRIO_SCHED_ENTRY {
            match decode_list::<TaprioScheduleEntryItem>(value, Field::ScheduleEntry) {
                Ok(items) => Ok(ScheduleEntryModel::Entry(items)),
                Err(e) => Err(e),
            }
        } else {
            Ok(ScheduleEntryModel::Other { kind, value })
        }
    }

    proof fn lemma_encodable_len(model: ScheduleEntryModel) {
    }

    proof fn lemma_round_trip(model: ScheduleEntryModel) {
        assert(1u16 & 0x7fff == 1) by (bit_vector);
        match model {
            ScheduleEntryModel::Entry(items) => {
                lemma_list_round_trip::<TaprioScheduleEntryItem>(items, Field::ScheduleEntry);
            },
            _ => {},
        }
    }

    proof fn lemma_decode_canonical(kind: u16, value: Seq<u8>) {
        lemma_decode_list_canonical::<TaprioScheduleEntryItem>(value, Field::ScheduleEntry);
    }

    proof fn lemma_unknown_kind(kind: u16, value: Seq<u8>) {
    }

    fn value_len(&self) -> (len: usize) {
        match self {
            Self::Entry(nlas) => list_buffer_len(nlas.as_slice()),
            Self::Other(attr) => raw_value_len(attr),
        }
    }

    fn checked_value_len(&self) -> (len: Option<usize>) {
        match self {
            Self::Entry(nlas) => checked_list_buffer_len(nlas.as_slice()),
            Self::Other(attr) => Some(raw_value_len(attr)),
        }
    }

    fn is_encodable(&self) -> (fits: bool) {
        match self {
            Self::Entry(nlas) => list_fits(nlas.as_slice(), MAX_VALUE_LEN),
            Self::Other(attr) => raw_value_len(attr) <= MAX_VALUE_LEN,
        }
    }

    fn kind(&self) -> (kind: u16) {
        match self {
            Self::Entry(_) => TCA_TAPRIO_SCHED_ENTRY,
            Self::Other(attr) => raw_kind(attr),
        }
    }

    fn emit_value(&self, buffer: &mut [u8]) {
        match self {
            Self::Entry(p) => {
                emit_list(p.as_slice(), buffer);
                assert(buffer@ =~= encode_list::<TaprioScheduleEntryItem>(views(p@)));
            },
            Self::Other(attr) => raw_emit_value(attr, buffer),
        }
    }

    fn parse(kind: u16, payload: &[u8]) -> (r: Result<Self, DecodeFailure>) {
        if kind & NLA_KIND_MASK == TCA_TAPRIO_SCHED_ENTRY {
            match parse_list::<TaprioScheduleEntryItem>(payload, Field::ScheduleEntry) {
                Ok(v) => Ok(Self::Entry(v)),
                Err(e) => Err(e),
            }
        } else {
            Ok(Self::Other(DefaultNla::new(kind, slice_to_vec(payload))))
        }
    }
}

} // verus!
