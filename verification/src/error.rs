//! The two ways in which this codec fails: bytes that do not decode, and a
//! character that names no value.

use vstd::prelude::*;

verus! {

/// The attributes that a decode failure can be tagged with.
#[derive(Debug, Clone, Copy, PartialEq, Eq, Structural)]
pub enum Field {
    /// The qdisc's list of options.
    Options,
    /// The clock that the schedule runs on.
    ClockId,
    /// The qdisc's flags.
    Flags,
    /// The fixed record that maps priorities to traffic classes.
    Priomap,
    /// The transmission-time delay.
    TxtimeDelay,
    /// The schedule's base time.
    Basetime,
    /// The schedule's cycle time.
    Cycletime,
    /// The extension of the schedule's cycle time.
    CycletimeExtension,
    /// The list of settings of one traffic class.
    Tc,
    /// The index of a traffic class.
    TcIndex,
    /// The largest frame of a traffic class.
    TcMaxSdu,
    /// The frame-preemption status of a traffic class.
    TcFp,
    /// The list of schedule entries.
    Schedule,
    /// One entry of the schedule.
    ScheduleEntry,
    /// The command of a schedule entry.
    EntryCmd,
    /// The mask of open traffic classes of a schedule entry.
    EntryGateMask,
    /// The interval of a schedule entry.
    EntryInterval,
}

/// What was wrong with the bytes of an attribute.
#[derive(Debug, Clone, Copy, PartialEq, Eq, Structural)]
pub enum Cause {
    /// Bytes remain in a list, but fewer than an attribute header takes.
    TruncatedHeader,
    /// A header declares more bytes than remain in the list.
    LengthExceedsBuffer,
    /// A header declares fewer bytes than the header itself takes.
    LengthBelowHeader,
    /// The value of a number does not have the number's width.
    InvalidWidth,
    /// The value of a fixed record does not have the length of the record.
    RecordLength,
}

/// Bytes that are no encoding of a value: which attribute they were read
/// for, and what was wrong with them.
#[derive(Debug, Clone, Copy, PartialEq, Eq, Structural)]
pub struct DecodeFailure {
    /// The attribute whose bytes were malformed.
    pub field: Field,
    /// What was wrong with them.
    pub cause: Cause,
}

/// A character that stands for no value of the attribute it was given for.
#[derive(Debug, Clone, Copy, PartialEq, Eq, Structural)]
pub enum EncodeFailure {
    /// Frame preemption is written `E` (express) or `P` (preemptible).
    InvalidFp(char),
    /// The only command of a schedule entry is `S`.
    InvalidCmd(char),
}

} // verus!
