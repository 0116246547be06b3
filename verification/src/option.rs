//! The options of the qdisc: the attributes that stand directly in its list
//! of options.

use crate::error::{DecodeFailure, Field};
use crate::nla::{
    all_canonical, all_encodable, checked_list_buffer_len, decode_list, emit_list, encode_list,
    lemma_decode_list_canonical, lemma_list_round_trip, list_buffer_len, list_fits, parse_list,
    views, Attribute, MAX_VALUE_LEN, NLA_F_NESTED, NLA_KIND_MASK,
};
use crate::priomap::{PriomapModel, TcPriomap};
use crate::raw::{nla_kind, nla_value, raw_emit_value, raw_kind, raw_value_len};
use crate::scalar::{decode_i64, decode_u32, parse_i64_field, parse_u32_field};
use crate::schedule::{ScheduleEntryModel, TaprioScheduleEntry};
use crate::tc_entry::{TaprioTcEntry, TcEntryModel};
use crate::wire::{
    i64_bytes, lemma_i64_bytes, lemma_u32_bytes, u32_bytes, write_i64, write_u32,
};
use netlink_packet_utils::nla::DefaultNla;
use vstd::prelude::*;
use vstd::slice::slice_to_vec;

verus! {

/// Kind of the priority map.
pub const TCA_TAPRIO_ATTR_PRIOMAP: u16 = 1;

/// Kind of the list of schedule entries.
pub const TCA_TAPRIO_ATTR_SCHED_ENTRY_LIST: u16 = 2;

/// Kind of the schedule's base time.
pub const TCA_TAPRIO_ATTR_SCHED_BASE_TIME: u16 = 3;

/// Kind of the clock.
pub const TCA_TAPRIO_ATTR_SCHED_CLOCKID: u16 = 5;

/// Kind of the schedule's cycle time.
pub const TCA_TAPRIO_ATTR_SCHED_CYCLE_TIME: u16 = 8;

/// Kind of the extension of the schedule's cycle time.
pub const TCA_TAPRIO_ATTR_SCHED_CYCLE_TIME_EXTENSION: u16 = 9;

/// Kind of the flags.
pub const TCA_TAPRIO_ATTR_FLAGS: u16 = 10;

/// Kind of the transmission-time delay.
pub const TCA_TAPRIO_ATTR_TXTIME_DELAY: u16 = 11;

/// Kind of the settings of one traffic class.
pub const TCA_TAPRIO_ATTR_TC_ENTRY: u16 = 12;

/// The time-aware priority shaper.
#[derive(Debug, PartialEq, Eq, Clone)]
#[non_exhaustive]
pub struct TcQdiscTaprio {}

impl TcQdiscTaprio {
    /// The name under which the qdisc is registered.
    pub const KIND: &'static str = "taprio";
}

/// One option of the qdisc.
#[derive(Debug, PartialEq, Eq, Clone)]
#[non_exhaustive]
pub enum TcQdiscTaprioOption {
    /// The clock that the schedule runs on.
    ClockId(u32),
    /// The flags of the qdisc.
    Flags(u32),
    /// How priorities map to traffic classes and queues.
    Priomap(TcPriomap),
    /// The transmission-time delay in nanoseconds.
    TxtimeDelay(u32),
    /// When the schedule starts, in nanoseconds.
    Basetime(i64),
    /// How long one cycle of the schedule takes, in nanoseconds.
    Cycletime(i64),
    /// By how much the last cycle may be extended, in nanoseconds.
    CycletimeExtension(i64),
    /// The settings of one traffic class.
    Tc(Vec<TaprioTcEntry>),
    /// The schedule, entry by entry in the order in which they run.
    Schedule(Vec<TaprioScheduleEntry>),
    /// An attribute of a kind that this codec does not know.
    Other(DefaultNla),
}

/// The model of a [`TcQdiscTaprioOption`].
pub enum OptionModel {
    ClockId(u32),
    Flags(u32),
    Priomap(PriomapModel),
    TxtimeDelay(u32),
    Basetime(i64),
    Cycletime(i64),
    CycletimeExtension(i64),
    Tc(Seq<TcEntryModel>),
    Schedule(Seq<ScheduleEntryModel>),
    Other { kind: u16, value: Seq<u8> },
}

impl View for TcQdiscTaprioOption {
    type V = OptionModel;

    open spec fn view(&self) -> OptionModel {
        match self {
            TcQdiscTaprioOption::ClockId(n) => OptionModel::ClockId(*n),
            TcQdiscTaprioOption::Flags(n) => OptionModel::Flags(*n),
            TcQdiscTaprioOption::Priomap(p) => OptionModel::Priomap(p@),
            TcQdiscTaprioOption::TxtimeDelay(n) => OptionModel::TxtimeDelay(*n),
            TcQdiscTaprioOption::Basetime(n) => OptionModel::Basetime(*n),
            TcQdiscTaprioOption::Cycletime(n) => OptionModel::Cycletime(*n),
            TcQdiscTaprioOption::CycletimeExtension(n) => OptionModel::CycletimeExtension(*n),
            TcQdiscTaprioOption::Tc(entries) => OptionModel::Tc(views(entries@)),
            TcQdiscTaprioOption::Schedule(entries) => OptionModel::Schedule(views(entries@)),
            TcQdiscTaprioOption::Other(nla) => OptionModel::Other {
                kind: nla_kind(*nla),
                value: nla_value(*nla),
            },
        }
    }
}

impl Attribute for TcQdiscTaprioOption {
    open spec fn recognized(kind: u16) -> bool {
        let id = kind & NLA_KIND_MASK;
        id == TCA_TAPRIO_ATTR_PRIOMAP || id == TCA_TAPRIO_ATTR_SCHED_ENTRY_LIST || id
            == TCA_TAPRIO_ATTR_SCHED_BASE_TIME || id == TCA_TAPRIO_ATTR_SCHED_CLOCKID || id
            == TCA_TAPRIO_ATTR_SCHED_CYCLE_TIME || id == TCA_TAPRIO_ATTR_SCHED_CYCLE_TIME_EXTENSION
            || id == TCA_TAPRIO_ATTR_FLAGS || id == TCA_TAPRIO_ATTR_TXTIME_DELAY || id
            == TCA_TAPRIO_ATTR_TC_ENTRY
    }

    open spec fn kind_of(model: OptionModel) -> u16 {
        match model {
            OptionModel::ClockId(_) => TCA_TAPRIO_ATTR_SCHED_CLOCKID,
            OptionModel::Flags(_) => TCA_TAPRIO_ATTR_FLAGS,
            OptionModel::Priomap(_) => TCA_TAPRIO_ATTR_PRIOMAP,
            OptionModel::TxtimeDelay(_) => TCA_TAPRIO_ATTR_TXTIME_DELAY,
            OptionModel::Basetime(_) => TCA_TAPRIO_ATTR_SCHED_BASE_TIME,
            OptionModel::Cycletime(_) => TCA_TAPRIO_ATTR_SCHED_CYCLE_TIME,
            OptionModel::CycletimeExtension(_) => TCA_TAPRIO_ATTR_SCHED_CYCLE_TIME_EXTENSION,
            OptionModel::Tc(_) => TCA_TAPRIO_ATTR_TC_ENTRY | NLA_F_NESTED,
            OptionModel::Schedule(_) => TCA_TAPRIO_ATTR_SCHED_ENTRY_LIST | NLA_F_NESTED,
            OptionModel::Other { kind, .. } => kind,
        }
    }

    open spec fn value_of(model: OptionModel) -> Seq<u8> {
        match model {
            OptionModel::ClockId(n) | OptionModel::Flags(n) | OptionModel::TxtimeDelay(n) => {
                u32_bytes(n)
            },
            OptionModel::Basetime(n)
            | OptionModel::Cycletime(n)
            | OptionModel::CycletimeExtension(n) => i64_bytes(n),
            OptionModel::Priomap(p) => p.encode(),
            OptionModel::Tc(entries) => encode_list::<TaprioTcEntry>(entries),
            OptionModel::Schedule(entries) => encode_list::<TaprioScheduleEntry>(entries),
            OptionModel::Other { value, .. } => value,
        }
    }

    open spec fn encodable(model: OptionModel) -> bool {
        match model {
            OptionModel::Priomap(p) => p.wf(),
            OptionModel::Tc(entries) => {
                &&& all_encodable::<TaprioTcEntry>(entries)
                &&& encode_list::<TaprioTcEntry>(entries).len() <= MAX_VALUE_LEN
            },
            OptionModel::Schedule(entries) => {
                &&& all_encodable::<TaprioScheduleEntry>(entries)
                &&& encode_list::<TaprioScheduleEntry>(entries).len() <= MAX_VALUE_LEN
            },
            OptionModel::Other { value, .. } => value.len() <= MAX_VALUE_LEN,
            _ => true,
        }
    }

    open spec fn canonical(model: OptionModel) -> bool {
        match model {
            OptionModel::Tc(entries) => all_canonical::<TaprioTcEntry>(entries),
            OptionModel::Schedule(entries) => all_canonical::<TaprioScheduleEntry>(entries),
            OptionModel::Other { kind, .. } => !Self::recognized(kind),
            _ => true,
        }
    }

    open spec fn decode(kind: u16, value: Seq<u8>) -> Result<OptionModel, DecodeFailure> {
        let id = kind & NLA_KIND_MASK;
        if id == TCA_TAPRIO_ATTR_SCHED_CLOCKID {
            match decode_u32(value, Field::ClockId) {
                Ok(n) => Ok(OptionModel::ClockId(n)),
                Err(e) => Err(e),
            }
        } else if id == TCA_TAPRIO_ATTR_FLAGS {
            match decode_u32(value, Field::Flags) {
                Ok(n) => Ok(OptionModel::Flags(n)),
                Err(e) => Err(e),
            }
        } else if id == TCA_TAPRIO_ATTR_PRIOMAP {
            match PriomapModel::decode(value) {
                Ok(p) => Ok(OptionModel::Priomap(p)),
                Err(e) => Err(e),
            }
        } else if id == TCA_TAPRIO_ATTR_TXTIME_DELAY {
            match decode_u32(value, Field::TxtimeDelay) {
                Ok(n) => Ok(OptionModel::TxtimeDelay(n)),
                Err(e) => Err(e),
            }
        } else if id == TCA_TAPRIO_ATTR_SCHED_BASE_TIME {
            match decode_i64(value, Field::Basetime) {
                Ok(n) => Ok(OptionModel::Basetime(n)),
                Err(e) => Err(e),
            }
        } else if id == TCA_TAPRIO_ATTR_SCHED_CYCLE_TIME {
            match decode_i64(value, Field::Cycletime) {
                Ok(n) => Ok(OptionModel::Cycletime(n)),
                Err(e) => Err(e),
            }
        } else if id == TCA_TAPRIO_ATTR_SCHED_CYCLE_TIME_EXTENSION {
            match decode_i64(value, Field::CycletimeExtension) {
                Ok(n) => Ok(OptionModel::CycletimeExtension(n)),
                Err(e) => Err(e),
            }
        } else if id == TCA_TAPRIO_ATTR_TC_ENTRY {
            match decode_list::<TaprioTcEntry>(value, Field::Tc) {
                Ok(entries) => Ok(OptionModel::Tc(entries)),
                Err(e) => Err(e),
            }
        } else if id == TCA_TAPRIO_ATTR_SCHED_ENTRY_LIST {
            match decode_list::<TaprioScheduleEntry>(value, Field::Schedule) {
                Ok(entries) => Ok(OptionModel::Schedule(entries)),
                Err(e) => Err(e),
            }
        } else {
            Ok(OptionModel::Other { kind, value })
        }
    }

    proof fn lemma_encodable_len(model: OptionModel) {
        match model {
            OptionModel::ClockId(n) | OptionModel::Flags(n) | OptionModel::TxtimeDelay(n) => {
                lemma_u32_bytes(n);
            },
            OptionModel::Basetime(n)
            | OptionModel::Cycletime(n)
            | OptionModel::CycletimeExtension(n) => {
                lemma_i64_bytes(n);
            },
            OptionModel::Priomap(p) => {
                p.lemma_encode_len();
            },
            _ => {},
        }
    }

    proof fn lemma_round_trip(model: OptionModel) {
        assert(1u16 & 0x7fff == 1 && 3u16 & 0x7fff == 3 && 5u16 & 0x7fff == 5 && 8u16 & 0x7fff == 8
            && 9u16 & 0x7fff == 9 && 10u16 & 0x7fff == 10 && 11u16 & 0x7fff == 11 && (12u16
            | 0x8000) & 0x7fff == 12 && (2u16 | 0x8000) & 0x7fff == 2) by (bit_vector);
        match model {
            OptionModel::ClockId(n) | OptionModel::Flags(n) | OptionModel::TxtimeDelay(n) => {
                lemma_u32_bytes(n);
            },
            OptionModel::Basetime(n)
            | OptionModel::Cycletime(n)
            | OptionModel::CycletimeExtension(n) => {
                lemma_i64_bytes(n);
            },
            OptionModel::Priomap(p) => {
                p.lemma_round_trip();
            },
            OptionModel::Tc(entries) => {
                lemma_list_round_trip::<TaprioTcEntry>(entries, Field::Tc);
            },
            OptionModel::Schedule(entries) => {
                lemma_list_round_trip::<TaprioScheduleEntry>(entries, Field::Schedule);
            },
            _ => {},
        }
    }

    proof fn lemma_decode_canonical(kind: u16, value: Seq<u8>) {
        lemma_decode_list_canonical::<TaprioTcEntry>(value, Field::Tc);
        lemma_decode_list_canonical::<TaprioScheduleEntry>(value, Field::Schedule);
    }

    proof fn lemma_unknown_kind(kind: u16, value: Seq<u8>) {
    }

    fn value_len(&self) -> (len: usize) {
        match self {
            Self::ClockId(n) | Self::Flags(n) | Self::TxtimeDelay(n) => {
                proof {
                    lemma_u32_bytes(*n);
                }
                4
            },
            Self::Basetime(n) | Self::Cycletime(n) | Self::CycletimeExtension(n) => {
                proof {
                    lemma_i64_bytes(*n);
                }
                8
            },
            Self::Priomap(v) => v.buffer_len(),
            Self::Tc(nlas) => list_buffer_len(nlas.as_slice()),
            Self::Schedule(nlas) => list_buffer_len(nlas.as_slice()),
            Self::Other(attr) => raw_value_len(attr),
        }
    }

    fn checked_value_len(&self) -> (len: Option<usize>) {
        match self {
            Self::Tc(nlas) => checked_list_buffer_len(nlas.as_slice()),
            Self::Schedule(nlas) => checked_list_buffer_len(nlas.as_slice()),
            Self::Other(attr) => Some(raw_value_len(attr)),
            _ => Some(self.value_len()),
        }
    }

    fn is_encodable(&self) -> (fits: bool) {
        match self {
            Self::Tc(nlas) => list_fits(nlas.as_slice(), MAX_VALUE_LEN),
            Self::Schedule(nlas) => list_fits(nlas.as_slice(), MAX_VALUE_LEN),
            Self::Other(attr) => raw_value_len(attr) <= MAX_VALUE_LEN,
            _ => true,
        }
    }

    fn kind(&self) -> (kind: u16) {
        match self {
            Self::ClockId(_) => TCA_TAPRIO_ATTR_SCHED_CLOCKID,
            Self::Flags(_) => TCA_TAPRIO_ATTR_FLAGS,
            Self::Priomap(_) => TCA_TAPRIO_ATTR_PRIOMAP,
            Self::TxtimeDelay(_) => TCA_TAPRIO_ATTR_TXTIME_DELAY,
            Self::Basetime(_) => TCA_TAPRIO_ATTR_SCHED_BASE_TIME,
            Self::Cycletime(_) => TCA_TAPRIO_ATTR_SCHED_CYCLE_TIME,
            Self::CycletimeExtension(_) => TCA_TAPRIO_ATTR_SCHED_CYCLE_TIME_EXTENSION,
            Self::Tc(_) => TCA_TAPRIO_ATTR_TC_ENTRY | NLA_F_NESTED,
            Self::Schedule(_) => TCA_TAPRIO_ATTR_SCHED_ENTRY_LIST | NLA_F_NESTED,
            Self::Other(attr) => raw_kind(attr),
        }
    }

    fn emit_value(&self, buffer: &mut [u8]) {
        match self {
            Self::ClockId(d) | Self::Flags(d) | Self::TxtimeDelay(d) => {
                proof {
                    lemma_u32_bytes(*d);
                }
                write_u32(buffer, *d);
                assert(buffer@ =~= u32_bytes(*d));
            },
            Self::Basetime(d) | Self::Cycletime(d) | Self::CycletimeExtension(d) => {
                proof {
                    lemma_i64_bytes(*d);
                }
                write_i64(buffer, *d);
                assert(buffer@ =~= i64_bytes(*d));
            },
            Self::Priomap(p) => {
                p.emit(buffer);
                assert(buffer@ =~= p@.encode());
            },
            Self::Tc(nlas) => {
                emit_list(nlas.as_slice(), buffer);
                assert(buffer@ =~= encode_list::<TaprioTcEntry>(views(nlas@)));
            },
            Self::Schedule(nlas) => {
                emit_list(nlas.as_slice(), buffer);
                assert(buffer@ =~= encode_list::<TaprioScheduleEntry>(views(nlas@)));
            },
            Self::Other(attr) => raw_emit_value(attr, buffer),
        }
    }

    fn parse(kind: u16, payload: &[u8]) -> (r: Result<Self, DecodeFailure>) {
        let id: u16 = kind & NLA_KIND_MASK;
        if id == TCA_TAPRIO_ATTR_SCHED_CLOCKID {
            match parse_u32_field(payload, Field::ClockId) {
                Ok(n) => Ok(Self::ClockId(n)),
                Err(e) => Err(e),
            }
        } else if id == TCA_TAPRIO_ATTR_FLAGS {
            match parse_u32_field(payload, Field::Flags) {
                Ok(n) => Ok(Self::Flags(n)),
                Err(e) => Err(e),
            }
        } else if id == TCA_TAPRIO_ATTR_PRIOMAP {
            match TcPriomap::parse(payload) {
                Ok(p) => Ok(Self::Priomap(p)),
                Err(e) => Err(e),
            }
        } else if id == TCA_TAPRIO_ATTR_TXTIME_DELAY {
            match parse_u32_field(payload, Field::TxtimeDelay) {
                Ok(n) => Ok(Self::TxtimeDelay(n)),
                Err(e) => Err(e),
            }
        } else if id == TCA_TAPRIO_ATTR_SCHED_BASE_TIME {
            match parse_i64_field(payload, Field::Basetime) {
                Ok(n) => Ok(Self::Basetime(n)),
                Err(e) => Err(e),
            }
        } else if id == TCA_TAPRIO_ATTR_SCHED_CYCLE_TIME {
            match parse_i64_field(payload, Field::Cycletime) {
                Ok(n) => Ok(Self::Cycletime(n)),
                Err(e) => Err(e),
            }
        } else if id == TCA_TAPRIO_ATTR_SCHED_CYCLE_TIME_EXTENSION {
            match parse_i64_field(payload, Field::CycletimeExtension) {
                Ok(n) => Ok(Self::CycletimeExtension(n)),
                Err(e) => Err(e),
            }
        } else if id == TCA_TAPRIO_ATTR_TC_ENTRY {
            match parse_list::<TaprioTcEntry>(payload, Field::Tc) {
                Ok(v) => Ok(Self::Tc(v)),
                Err(e) => Err(e),
            }
        } else if id == TCA_TAPRIO_ATTR_SCHED_ENTRY_LIST {
            match parse_list::<TaprioScheduleEntry>(payload, Field::Schedule) {
                Ok(v) => Ok(Self::Schedule(v)),
                Err(e) => Err(e),
            }
        } else {
            Ok(Self::Other(DefaultNla::new(kind, slice_to_vec(payload))))
        }
    }
}

} // verus!
