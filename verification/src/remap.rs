//! The remapping of one input event to keyboard events.

use vstd::prelude::*;
use crate::button_map::{
    dpad_keys, is_output_key, RemapTable, DPAD_MAP_DOWN, DPAD_MAP_LEFT, DPAD_MAP_RIGHT,
    DPAD_MAP_UP,
};
use crate::event::{source_of, Axis, OutputKeyEvent, RawInputEvent, Source, TimeVal};
use crate::mode::{infer_mode, update_dpad_mode, DPadMode};

verus! {

/// `value` brought into the range from -1 to 1.
pub open spec fn clamp_to_unit(value: int) -> int {
    if value < -1 {
        -1
    } else if value > 1 {
        1
    } else {
        value
    }
}

/// The direction that a raw reading of `axis` stands for under `mode`:
/// -1, 0 or 1 for negative, neutral and positive.
///
/// Under the left convention the vertical axis rests at -1 instead of 0, so
/// its readings are shifted up by one before they are clamped.
pub open spec fn normalized(axis: Axis, value: int, mode: DPadMode) -> int {
    match mode {
        DPadMode::Default => value,
        DPadMode::Left => match axis {
            Axis::Horizontal => clamp_to_unit(value),
            Axis::Vertical => clamp_to_unit(value + 1),
        },
    }
}

/// The key held by the positive direction of `axis`.
pub open spec fn positive_key(axis: Axis) -> u16 {
    match axis {
        Axis::Horizontal => DPAD_MAP_RIGHT,
        Axis::Vertical => DPAD_MAP_DOWN,
    }
}

/// The key held by the negative direction of `axis`.
pub open spec fn negative_key(axis: Axis) -> u16 {
    match axis {
        Axis::Horizontal => DPAD_MAP_LEFT,
        Axis::Vertical => DPAD_MAP_UP,
    }
}

/// A press of `key` at `time`.
pub open spec fn hold(time: TimeVal, key: u16) -> OutputKeyEvent {
    OutputKeyEvent { time, key, value: 1 }
}

/// A release of `key` at `time`.
pub open spec fn release(time: TimeVal, key: u16) -> OutputKeyEvent {
    OutputKeyEvent { time, key, value: 0 }
}

/// Whether `value` is that of a press (1) or of a release (0).
pub open spec fn is_press_or_release(value: int) -> bool {
    value == 0 || value == 1
}

/// The event that a mapped button gives rise to: the input's time and value
/// under the mapped key.
pub open spec fn passed_through(event: RawInputEvent, key: u16) -> OutputKeyEvent {
    OutputKeyEvent { time: event.time, key, value: event.value }
}

/// The key events for a direction of `axis`: a direction holds its key, and
/// neutral releases the positive key and then the negative key. Any other
/// number stands for no direction and gives nothing.
pub open spec fn direction_events(time: TimeVal, axis: Axis, direction: int) -> Seq<
    OutputKeyEvent,
> {
    if direction == 1 {
        seq![hold(time, positive_key(axis))]
    } else if direction == -1 {
        seq![hold(time, negative_key(axis))]
    } else if direction == 0 {
        seq![release(time, positive_key(axis)), release(time, negative_key(axis))]
    } else {
        Seq::empty()
    }
}

/// The mode after `event` has been seen in mode `mode`: only d-pad events
/// bear on it.
pub open spec fn mode_after(event: RawInputEvent, mode: DPadMode) -> DPadMode {
    match source_of(event.kind, event.code) {
        Source::DPad(axis) => infer_mode(axis, event.value as int, mode),
        _ => mode,
    }
}

/// The key events that `event` gives rise to when it arrives in mode `mode`,
/// in the order in which they are to be emitted.
pub open spec fn emitted(event: RawInputEvent, mode: DPadMode, table: Map<u16, u16>) -> Seq<
    OutputKeyEvent,
> {
    match source_of(event.kind, event.code) {
        Source::Button(button) => if table.contains_key(button) {
            seq![passed_through(event, table[button])]
        } else {
            Seq::empty()
        },
        Source::DPad(axis) => direction_events(
            event.time,
            axis,
            normalized(axis, event.value as int, mode_after(event, mode)),
        ),
        Source::Other => Seq::empty(),
    }
}

/// Reads a raw value of `axis` as a direction under `mode`.
pub fn normalize(axis: Axis, value: i32, mode: DPadMode) -> (direction: i32)
    ensures
        direction == normalized(axis, value as int, mode),
{
    match mode {
        DPadMode::Default => value,
        DPadMode::Left => match axis {
            Axis::Horizontal => if value < -1 {
                -1
            } else if value > 1 {
                1
            } else {
                value
            },
            // One above the reading, clamped: nothing is added where the
            // result is already the upper end.
            Axis::Vertical => if value < -2 {
                -1
            } else if value > 0 {
                1
            } else {
                value + 1
            },
        },
    }
}

/// Builds the key events for a direction of `axis`.
pub fn key_events(time: TimeVal, axis: Axis, direction: i32) -> (out: Vec<OutputKeyEvent>)
    ensures
        out@ == direction_events(time, axis, direction as int),
{
    let positive: u16 = match axis {
        Axis::Horizontal => DPAD_MAP_RIGHT,
        Axis::Vertical => DPAD_MAP_DOWN,
    };
    let negative: u16 = match axis {
        Axis::Horizontal => DPAD_MAP_LEFT,
        Axis::Vertical => DPAD_MAP_UP,
    };
    let mut out: Vec<OutputKeyEvent> = Vec::new();
    if direction == 1 {
        out.push(OutputKeyEvent { time, key: positive, value: 1 });
    } else if direction == -1 {
        out.push(OutputKeyEvent { time, key: negative, value: 1 });
    } else if direction == 0 {
        out.push(OutputKeyEvent { time, key: positive, value: 0 });
        out.push(OutputKeyEvent { time, key: negative, value: 0 });
    }
    assert(out@ =~= direction_events(time, axis, direction as int));
    out
}

/// A reading that is read under the mode inferred from it always stands for a
/// direction: it comes out as -1, 0 or 1, whatever the mode was before.
pub proof fn lemma_reading_is_direction(axis: Axis, value: int, mode: DPadMode)
    ensures
        -1 <= normalized(axis, value, infer_mode(axis, value, mode)) <= 1,
{
}

/// Every key that an event gives rise to is an arrow key or a key that the
/// table maps some button to.
pub proof fn lemma_emitted_keys_are_output_keys(
    event: RawInputEvent,
    mode: DPadMode,
    table: Map<u16, u16>,
    i: int,
)
    requires
        0 <= i < emitted(event, mode, table).len(),
    ensures
        is_output_key(emitted(event, mode, table)[i].key, table),
{
    match source_of(event.kind, event.code) {
        Source::Button(button) => {
            assert(table.contains_key(button));
            assert(table.values().contains(table[button]));
        },
        Source::DPad(axis) => {
            let key = emitted(event, mode, table)[i].key;
            assert(key == dpad_keys()[0] || key == dpad_keys()[1] || key == dpad_keys()[2] || key
                == dpad_keys()[3]);
        },
        Source::Other => {},
    }
}

/// Remaps one input event. A button that the table maps gives one event
/// with the mapped key and the input's time and value, and a button that it
/// does not map gives nothing. A d-pad reading first updates `dpad_mode`, is
/// then read under the updated mode and gives the events of its direction.
/// Everything else gives nothing.
///
/// The events are returned in the order in which they are to be emitted.
pub fn remap_event(event: &RawInputEvent, dpad_mode: &mut DPadMode, table: &RemapTable) -> (out:
    Vec<OutputKeyEvent>)
    ensures
        *final(dpad_mode) == mode_after(*event, *old(dpad_mode)),
        out@ == emitted(*event, *old(dpad_mode), table@),
        match source_of(event.kind, event.code) {
            Source::Button(button) => {
                &&& *final(dpad_mode) == *old(dpad_mode)
                &&& table@.contains_key(button) ==> out@ == seq![
                    passed_through(*event, table@[button]),
                ]
                &&& !table@.contains_key(button) ==> out@ == Seq::<OutputKeyEvent>::empty()
            },
            Source::DPad(axis) => {
                &&& *final(dpad_mode) == infer_mode(axis, event.value as int, *old(dpad_mode))
                &&& out@ == direction_events(
                    event.time,
                    axis,
                    normalized(axis, event.value as int, *final(dpad_mode)),
                )
            },
            Source::Other => {
                &&& *final(dpad_mode) == *old(dpad_mode)
                &&& out@ == Seq::<OutputKeyEvent>::empty()
            },
        },
        forall|i: int| 0 <= i < out@.len() ==> is_output_key(#[trigger] out@[i].key, table@),
        source_of(event.kind, event.code) is DPad || is_press_or_release(event.value as int)
            ==> forall|i: int|
            0 <= i < out@.len() ==> is_press_or_release(#[trigger] out@[i].value as int),
{
    let mut out: Vec<OutputKeyEvent> = Vec::new();
    match event.source() {
        Source::Button(button) => {
            match table.get(button) {
                Some(key) => {
                    out.push(OutputKeyEvent { time: event.time, key, value: event.value });
                },
                None => {},
            }
        },
        Source::DPad(axis) => {
            update_dpad_mode(axis, event.value, dpad_mode);
            let direction: i32 = normalize(axis, event.value, *dpad_mode);
            out = key_events(event.time, axis, direction);
        },
        Source::Other => {},
    }
    proof {
        assert(out@ =~= emitted(*event, *old(dpad_mode), table@));
        assert forall|i: int| 0 <= i < out@.len() implies is_output_key(
            #[trigger] out@[i].key,
            table@,
        ) by {
            lemma_emitted_keys_are_output_keys(*event, *old(dpad_mode), table@, i);
        }
    }
    out
}

} // verus!
