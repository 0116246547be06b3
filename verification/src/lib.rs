//! Encoding and decoding of the netlink attributes that configure the
//! time-aware priority shaper (taprio) queueing discipline.
//!
//! An attribute is a record of length, kind and value, padded to four bytes;
//! a value may itself be a list of attributes. Each type of attribute has a
//! mathematical model (its view), and the contracts of the executable
//! functions say over the models which bytes are written and which value
//! bytes stand for. Numbers are written in the byte order of the machine.

pub mod error;
pub mod nla;
pub mod option;
pub mod priomap;
pub mod raw;
pub mod scalar;
pub mod schedule;
pub mod tc_entry;
pub mod wire;

pub use crate::error::{Cause, DecodeFailure, EncodeFailure, Field};
pub use crate::nla::{
    buffer_len, checked_list_buffer_len, emit, emit_list, list_buffer_len, list_fits, parse_list,
    try_emit, try_emit_list, Attribute,
};
pub use crate::option::{TcQdiscTaprio, TcQdiscTaprioOption};
pub use crate::priomap::TcPriomap;
pub use crate::schedule::{TaprioScheduleEntry, TaprioScheduleEntryItem};
pub use crate::tc_entry::TaprioTcEntry;
