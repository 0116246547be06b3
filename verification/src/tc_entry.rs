//! The settings of one traffic class: its index, its largest frame and its
//! frame-preemption status.

use crate::error::{DecodeFailure, EncodeFailure, Field};
use crate::nla::{Attribute, MAX_VALUE_LEN, NLA_KIND_MASK};
use crate::raw::{nla_kind, nla_value, raw_emit_value, raw_kind, raw_value_len};
use crate::scalar::{decode_u32, parse_u32_field};
use crate::wire::{lemma_u32_bytes, u32_bytes, write_u32};
use netlink_packet_utils::nla::DefaultNla;
use vstd::prelude::*;
use vstd::slice::slice_to_vec;

verus! {

/// Kind of the index of a traffic class.
pub const TCA_TAPRIO_TC_ENTRY_INDEX: u16 = 1;

/// Kind of the largest frame of a traffic class.
pub const TCA_TAPRIO_TC_ENTRY_MAX_SDU: u16 = 2;

/// Kind of the frame-preemption status of a traffic class.
pub const TCA_TAPRIO_TC_ENTRY_FP: u16 = 3;

/// One setting of a traffic class.
#[derive(Debug, PartialEq, Eq, Clone)]
#[non_exhaustive]
pub enum TaprioTcEntry {
    /// Which traffic class the settings are for.
    Index(u32),
    /// The largest frame in bytes; 0 sets no limit.
    MaxSdu(u32),
    /// Frame preemption: 1 for express, 2 for preemptible.
    Fp(u32),
    /// An attribute of a kind that this codec does not know.
    Other(DefaultNla),
}

/// The model of a [`TaprioTcEntry`].
pub enum TcEntryModel {
    Index(u32),
    MaxSdu(u32),
    Fp(u32),
    Other { kind: u16, value: Seq<u8> },
}

impl View for TaprioTcEntry {
    type V = TcEntryModel;

    open spec fn view(&self) -> TcEntryModel {
        match self {
            TaprioTcEntry::Index(n) => TcEntryModel::Index(*n),
            TaprioTcEntry::MaxSdu(n) => TcEntryModel::MaxSdu(*n),
            TaprioTcEntry::Fp(n) => TcEntryModel::Fp(*n),
            TaprioTcEntry::Other(nla) => TcEntryModel::Other {
                kind: nla_kind(*nla),
                value: nla_value(*nla),
            },
        }
    }
}

impl TaprioTcEntry {
    /// The frame-preemption status that a character names: `E` is express
    /// (1), `P` is preemptible (2), and no other character names one.
    pub fn fp_from_char(c: char) -> (r: Result<Self, EncodeFailure>)
        ensures
            c == 'E' ==> r == Ok::<Self, EncodeFailure>(TaprioTcEntry::Fp(1)),
            c == 'P' ==> r == Ok::<Self, EncodeFailure>(TaprioTcEntry::Fp(2)),
            c != 'E' && c != 'P' ==> r == Err::<Self, EncodeFailure>(EncodeFailure::InvalidFp(c)),
    {
        if c == 'E' {
            Ok(Self::Fp(1))
        } else if c == 'P' {
            Ok(Self::Fp(2))
        } else {
            Err(EncodeFailure::InvalidFp(c))
        }
    }
}

impl Attribute for TaprioTcEntry {
    open spec fn recognized(kind: u16) -> bool {
        let id = kind & NLA_KIND_MASK;
        id == TCA_TAPRIO_TC_ENTRY_INDEX || id == TCA_TAPRIO_TC_ENTRY_MAX_SDU || id
            == TCA_TAPRIO_TC_ENTRY_FP
    }

    open spec fn kind_of(model: TcEntryModel) -> u16 {
        match model {
            TcEntryModel::Index(_) => TCA_TAPRIO_TC_ENTRY_INDEX,
            TcEntryModel::MaxSdu(_) => TCA_TAPRIO_TC_ENTRY_MAX_SDU,
            TcEntryModel::Fp(_) => TCA_TAPRIO_TC_ENTRY_FP,
            TcEntryModel::Other { kind, .. } => kind,
        }
    }

    open spec fn value_of(model: TcEntryModel) -> Seq<u8> {
        match model {
            TcEntryModel::Index(n) | TcEntryModel::MaxSdu(n) | TcEntryModel::Fp(n) => u32_bytes(n),
            TcEntryModel::Other { value, .. } => value,
        }
    }

    open spec fn encodable(model: TcEntryModel) -> bool {
        match model {
            TcEntryModel::Other { value, .. } => value.len() <= MAX_VALUE_LEN,
            _ => true,
        }
    }

    open spec fn canonical(model: TcEntryModel) -> bool {
        match model {
            TcEntryModel::Other { kind, .. } => !Self::recognized(kind),
            _ => true,
        }
    }

    open spec fn decode(kind: u16, value: Seq<u8>) -> Result<TcEntryModel, DecodeFailure> {
        let id = kind & NLA_KIND_MASK;
        if id == TCA_TAPRIO_TC_ENTRY_INDEX {
            match decode_u32(value, Field::TcIndex) {
                Ok(n) => Ok(TcEntryModel::Index(n)),
                Err(e) => Err(e),
            }
        } else if id == TCA_TAPRIO_TC_ENTRY_MAX_SDU {
            match decode_u32(value, Field::TcMaxSdu) {
                Ok(n) => Ok(TcEntryModel::MaxSdu(n)),
                Err(e) => Err(e),
            }
        } else if id == TCA_TAPRIO_TC_ENTRY_FP {
            match decode_u32(value, Field::TcFp) {
                Ok(n) => Ok(TcEntryModel::Fp(n)),
                Err(e) => Err(e),
            }
        } else {
            Ok(TcEntryModel::Other { kind, value })
        }
    }

    proof fn lemma_encodable_len(model: TcEntryModel) {
        match model {
            TcEntryModel::Index(n) | TcEntryModel::MaxSdu(n) | TcEntryModel::Fp(n) => {
                lemma_u32_bytes(n);
            },
            _ => {},
        }
    }

    proof fn lemma_round_trip(model: TcEntryModel) {
        assert(1u16 & 0x7fff == 1 && 2u16 & 0x7fff == 2 && 3u16 & 0x7fff == 3) by (bit_vector);
        match model {
            TcEntryModel::Index(n) | TcEntryModel::MaxSdu(n) | TcEntryModel::Fp(n) => {
                lemma_u32_bytes(n);
            },
            _ => {},
        }
    }

    proof fn lemma_decode_canonical(kind: u16, value: Seq<u8>) {
    }

    proof fn lemma_unknown_kind(kind: u16, value: Seq<u8>) {
    }

    fn value_len(&self) -> (len: usize) {
        match self {
            Self::Index(n) | Self::MaxSdu(n) | Self::Fp(n) => {
                proof {
                    lemma_u32_bytes(*n);
                }
                4
            },
            Self::Other(attr) => raw_value_len(attr),
        }
    }

    fn checked_value_len(&self) -> (len: Option<usize>) {
        match self {
            Self::Other(attr) => Some(raw_value_len(attr)),
            _ => Some(self.value_len()),
        }
    }

    fn is_encodable(&self) -> (fits: bool) {
        match self {
            Self::Other(attr) => raw_value_len(attr) <= MAX_VALUE_LEN,
            _ => true,
        }
    }

    fn kind(&self) -> (kind: u16) {
        match self {
            Self::Index(_) => TCA_TAPRIO_TC_ENTRY_INDEX,
            Self::MaxSdu(_) => TCA_TAPRIO_TC_ENTRY_MAX_SDU,
            Self::Fp(_) => TCA_TAPRIO_TC_ENTRY_FP,
            Self::Other(attr) => raw_kind(attr),
        }
    }

    fn emit_value(&self, buffer: &mut [u8]) {
        match self {
            Self::Index(d) | Self::MaxSdu(d) | Self::Fp(d) => {
                proof {
                    lemma_u32_bytes(*d);
                }
                write_u32(buffer, *d);
                assert(buffer@ =~= u32_bytes(*d));
            },
            Self::Other(attr) => raw_emit_value(attr, buffer),
        }
    }

    fn parse(kind: u16, payload: &[u8]) -> (r: Result<Self, DecodeFailure>) {
        let id: u16 = kind & NLA_KIND_MASK;
        if id == TCA_TAPRIO_TC_ENTRY_INDEX {
            match parse_u32_field(payload, Field::TcIndex) {
                Ok(n) => Ok(Self::Index(n)),
                Err(e) => Err(e),
            }
        } else if id == TCA_TAPRIO_TC_ENTRY_MAX_SDU {
            match parse_u32_field(payload, Field::TcMaxSdu) {
                Ok(n) => Ok(Self::MaxSdu(n)),
                Err(e) => Err(e),
            }
        } else if id == TCA_TAPRIO_TC_ENTRY_FP {
            match parse_u32_field(payload, Field::TcFp) {
                Ok(n) => Ok(Self::Fp(n)),
                Err(e) => Err(e),
            }
        } else {
            Ok(Self::Other(DefaultNla::new(kind, slice_to_vec(payload))))
        }
    }
}

} // verus!
