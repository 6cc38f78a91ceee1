//! Input and output event records, in the numbering of the Linux input
//! event interface.

use vstd::prelude::*;

verus! {

/// Event type number of synchronization events.
pub const EV_SYN: u16 = 0;

/// Event type number of key and button events.
pub const EV_KEY: u16 = 1;

/// Event type number of absolute-axis events.
pub const EV_ABS: u16 = 3;

/// Code of the report that closes a group of events.
pub const SYN_REPORT: u16 = 0;

/// Code of the horizontal d-pad axis among the absolute axes.
pub const ABS_HAT0X: u16 = 16;

/// Code of the vertical d-pad axis among the absolute axes.
pub const ABS_HAT0Y: u16 = 17;

/// The time at which an event occurred: seconds and microseconds.
#[derive(Clone, Copy, Debug, PartialEq, Eq, Structural)]
pub struct TimeVal {
    pub tv_sec: i64,
    pub tv_usec: i64,
}

/// One of the two d-pad axes.
#[derive(Clone, Copy, Debug, PartialEq, Eq, Structural)]
pub enum Axis {
    /// Left (negative) and right (positive).
    Horizontal,
    /// Up (negative) and down (positive).
    Vertical,
}

/// What produced an input event, as far as the remapping cares.
#[derive(Clone, Copy, Debug, PartialEq, Eq, Structural)]
pub enum Source {
    /// A digital button, with its key code.
    Button(u16),
    /// One of the two d-pad axes.
    DPad(Axis),
    /// Anything else: other axes, synchronization events and so on.
    Other,
}

/// An event record of an input device: a timestamp, the event type and code
/// that identify its source, and a value.
#[derive(Clone, Copy, Debug, PartialEq, Eq, Structural)]
pub struct RawInputEvent {
    pub time: TimeVal,
    pub kind: u16,
    pub code: u16,
    pub value: i32,
}

/// A keyboard event to emit: `value` is 1 for a press and 0 for a release.
#[derive(Clone, Copy, Debug, PartialEq, Eq, Structural)]
pub struct OutputKeyEvent {
    pub time: TimeVal,
    pub key: u16,
    pub value: i32,
}

/// The source that an event type and code stand for.
pub open spec fn source_of(kind: u16, code: u16) -> Source {
    if kind == EV_KEY {
        Source::Button(code)
    } else if kind == EV_ABS && code == ABS_HAT0X {
        Source::DPad(Axis::Horizontal)
    } else if kind == EV_ABS && code == ABS_HAT0Y {
        Source::DPad(Axis::Vertical)
    } else {
        Source::Other
    }
}

/// The records that put `event` on a keyboard device: the key event itself,
/// then the synchronization report that lets listeners see it.
pub open spec fn report_of(event: OutputKeyEvent) -> Seq<RawInputEvent> {
    seq![
        RawInputEvent { time: event.time, kind: EV_KEY, code: event.key, value: event.value },
        RawInputEvent { time: event.time, kind: EV_SYN, code: SYN_REPORT, value: 0 },
    ]
}

impl OutputKeyEvent {
    /// Builds the records to write for this event, in the order in which
    /// they are to be written.
    pub fn report(&self) -> (records: Vec<RawInputEvent>)
        ensures
            records@ == report_of(*self),
    {
        let mut records: Vec<RawInputEvent> = Vec::new();
        records.push(
            RawInputEvent { time: self.time, kind: EV_KEY, code: self.key, value: self.value },
        );
        records.push(RawInputEvent { time: self.time, kind: EV_SYN, code: SYN_REPORT, value: 0 });
        assert(records@ =~= report_of(*self));
        records
    }
}

impl RawInputEvent {
    /// Classifies the event by its type and code.
    pub fn source(&self) -> (s: Source)
        ensures
            s == source_of(self.kind, self.code),
    {
        if self.kind == EV_KEY {
            Source::Button(self.code)
        } else if self.kind == EV_ABS && self.code == ABS_HAT0X {
            Source::DPad(Axis::Horizontal)
        } else if self.kind == EV_ABS && self.code == ABS_HAT0Y {
            Source::DPad(Axis::Vertical)
        } else {
            Source::Other
        }
    }
}

} // verus!
