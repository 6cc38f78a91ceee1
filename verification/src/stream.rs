//! What a whole sequence of input events gives rise to, and how the presses
//! and releases of an arrow key follow from the readings of its axis.

use vstd::prelude::*;
use crate::event::{source_of, Axis, OutputKeyEvent, RawInputEvent, Source, TimeVal};
use crate::mode::DPadMode;
use crate::remap::{
    direction_events, emitted, mode_after, negative_key, normalized, positive_key, release,
};

verus! {

/// The mode after all of `events` have been seen in order, starting in `mode`.
pub open spec fn mode_after_all(events: Seq<RawInputEvent>, mode: DPadMode) -> DPadMode
    decreases events.len(),
{
    if events.len() == 0 {
        mode
    } else {
        mode_after(events.last(), mode_after_all(events.drop_last(), mode))
    }
}

/// The key events that `events` give rise to when they arrive in order,
/// starting in `mode`.
pub open spec fn emitted_by_all(
    events: Seq<RawInputEvent>,
    mode: DPadMode,
    table: Map<u16, u16>,
) -> Seq<OutputKeyEvent>
    decreases events.len(),
{
    if events.len() == 0 {
        Seq::empty()
    } else {
        emitted_by_all(events.drop_last(), mode, table) + emitted(
            events.last(),
            mode_after_all(events.drop_last(), mode),
            table,
        )
    }
}

/// Whether every one of `events` is a reading of `axis`.
pub open spec fn all_on_axis(events: Seq<RawInputEvent>, axis: Axis) -> bool {
    forall|i: int|
        0 <= i < events.len() ==> source_of(#[trigger] events[i].kind, events[i].code)
            == Source::DPad(axis)
}

/// The direction read from each of `events`, all taken as readings of `axis`,
/// each under the mode that holds once it has been seen.
pub open spec fn directions(axis: Axis, events: Seq<RawInputEvent>, mode: DPadMode) -> Seq<int> {
    Seq::new(
        events.len(),
        |i: int| normalized(axis, events[i].value as int, mode_after_all(events.take(i + 1), mode)),
    )
}

/// The key of a direction of `axis`: the positive key for 1, the negative
/// key for any other number.
pub open spec fn direction_key(axis: Axis, direction: int) -> u16 {
    if direction == 1 {
        positive_key(axis)
    } else {
        negative_key(axis)
    }
}

/// Whether a reading bears on the key of `direction`: it is that direction
/// or neutral.
pub open spec fn bears_on(direction: int) -> spec_fn(int) -> bool {
    |read: int| read == direction || read == 0
}

/// The value that a reading asks of the key of `direction`: 1 for the
/// direction, 0 otherwise.
pub open spec fn asks(direction: int) -> spec_fn(int) -> int {
    |read: int|
        if read == direction {
            1int
        } else {
            0int
        }
}

/// What a sequence of directions asks of the key of `direction`: 1 wherever
/// that direction is read, 0 wherever neutral is read, and nothing elsewhere.
pub open spec fn asked_of(directions: Seq<int>, direction: int) -> Seq<int> {
    directions.filter(bears_on(direction)).map_values(asks(direction))
}

/// Whether an event is for `key`.
pub open spec fn is_for(key: u16) -> spec_fn(OutputKeyEvent) -> bool {
    |e: OutputKeyEvent| e.key == key
}

/// The value of an event.
pub open spec fn value_of() -> spec_fn(OutputKeyEvent) -> int {
    |e: OutputKeyEvent| e.value as int
}

/// The values of the events for `key` among `out`, in order.
pub open spec fn key_values(out: Seq<OutputKeyEvent>, key: u16) -> Seq<int> {
    out.filter(is_for(key)).map_values(value_of())
}

/// Whether `values` goes 1, 0, 1, 0 and so on, starting with 1.
pub open spec fn alternates(values: Seq<int>) -> bool {
    forall|i: int|
        0 <= i < values.len() ==> #[trigger] values[i] == if i % 2 == 0 {
            1int
        } else {
            0int
        }
}

/// The values for a key among two runs of events are those among the first
/// followed by those among the second.
proof fn lemma_key_values_concat(a: Seq<OutputKeyEvent>, b: Seq<OutputKeyEvent>, key: u16)
    ensures
        key_values(a + b, key) == key_values(a, key) + key_values(b, key),
{
    Seq::filter_distributes_over_add(a, b, is_for(key));
    assert((a.filter(is_for(key)) + b.filter(is_for(key))).map_values(value_of()) =~= a.filter(
        is_for(key),
    ).map_values(value_of()) + b.filter(is_for(key)).map_values(value_of()));
}

/// What one more direction asks of a key comes after what the earlier ones
/// asked.
proof fn lemma_asked_of_push(directions: Seq<int>, next: int, direction: int)
    ensures
        asked_of(directions.push(next), direction) == if next == direction {
            asked_of(directions, direction).push(1)
        } else if next == 0 {
            asked_of(directions, direction).push(0)
        } else {
            asked_of(directions, direction)
        },
{
    directions.lemma_filter_push(next, bears_on(direction));
    if bears_on(direction)(next) {
        directions.filter(bears_on(direction)).lemma_push_map_commute(asks(direction), next);
    }
}

/// The events of one direction, seen from one of the two keys of the axis.
proof fn lemma_key_values_of_direction(
    time: TimeVal,
    axis: Axis,
    read: int,
    direction: int,
)
    requires
        direction == 1 || direction == -1,
    ensures
        key_values(direction_events(time, axis, read), direction_key(axis, direction)) == if read
            == direction {
            seq![1int]
        } else if read == 0 {
            seq![0int]
        } else {
            Seq::<int>::empty()
        },
{
    let key = direction_key(axis, direction);
    let out = direction_events(time, axis, read);
    reveal_with_fuel(Seq::filter, 3);
    if read == 1 || read == -1 {
        assert(out.drop_last() =~= Seq::<OutputKeyEvent>::empty());
        if read == direction {
            assert(key_values(out, key) =~= seq![1int]);
        } else {
            assert(key_values(out, key) =~= Seq::<int>::empty());
        }
    } else if read == 0 {
        assert(out.drop_last() =~= seq![release(time, positive_key(axis))]);
        assert(out.drop_last().drop_last() =~= Seq::<OutputKeyEvent>::empty());
        assert(key_values(out, key) =~= seq![0int]);
    } else {
        assert(key_values(out, key) =~= Seq::<int>::empty());
    }
}

/// The values emitted for the key of a direction are exactly what the
/// readings of its axis ask of it: a hold for each reading of the direction
/// and a release for each neutral reading, in the order of the readings and
/// with nothing between them, whatever the modes passed through on the way.
pub proof fn lemma_key_follows_readings(
    axis: Axis,
    direction: int,
    events: Seq<RawInputEvent>,
    mode: DPadMode,
    table: Map<u16, u16>,
)
    requires
        direction == 1 || direction == -1,
        all_on_axis(events, axis),
    ensures
        key_values(emitted_by_all(events, mode, table), direction_key(axis, direction))
            == asked_of(directions(axis, events, mode), direction),
    decreases events.len(),
{
    let key = direction_key(axis, direction);
    if events.len() == 0 {
        reveal_with_fuel(Seq::filter, 1);
        assert(directions(axis, events, mode) =~= Seq::<int>::empty());
        assert(key_values(emitted_by_all(events, mode, table), key) =~= Seq::<int>::empty());
        assert(asked_of(directions(axis, events, mode), direction) =~= Seq::<int>::empty());
    } else {
        let earlier = events.drop_last();
        let last = events.last();
        let before = mode_after_all(earlier, mode);
        let read = normalized(axis, last.value as int, mode_after(last, before));
        lemma_key_follows_readings(axis, direction, earlier, mode, table);
        assert(source_of(last.kind, last.code) == Source::DPad(axis));
        assert(emitted(last, before, table) == direction_events(last.time, axis, read));
        lemma_key_values_concat(
            emitted_by_all(earlier, mode, table),
            emitted(last, before, table),
            key,
        );
        lemma_key_values_of_direction(last.time, axis, read, direction);
        let extended = directions(axis, earlier, mode).push(read);
        assert forall|i: int| 0 <= i < events.len() implies #[trigger] directions(
            axis,
            events,
            mode,
        )[i] == extended[i] by {
            if i < earlier.len() {
                assert(events.take(i + 1) =~= earlier.take(i + 1));
            } else {
                assert(events.take(i + 1) =~= events);
            }
        }
        assert(directions(axis, events, mode) =~= extended);
        lemma_asked_of_push(directions(axis, earlier, mode), read, direction);
    }
}

/// Press and release of an arrow key alternate, starting with a press, over
/// any sequence of readings of its axis that asks just that of the key: among
/// the readings that are the key's direction or neutral, the two take turns
/// and the direction comes first.
///
/// Other sequences are left out because the events follow the readings one
/// for one: a neutral reading releases both keys of the axis, held or not,
/// and a repeated direction holds again.
pub proof fn lemma_press_release_alternate(
    axis: Axis,
    direction: int,
    events: Seq<RawInputEvent>,
    mode: DPadMode,
    table: Map<u16, u16>,
)
    requires
        direction == 1 || direction == -1,
        all_on_axis(events, axis),
        alternates(asked_of(directions(axis, events, mode), direction)),
    ensures
        alternates(
            key_values(emitted_by_all(events, mode, table), direction_key(axis, direction)),
        ),
{
    lemma_key_follows_readings(axis, direction, events, mode, table);
}

/// Over every other sequence of readings of the axis, press and release of
/// the key do not alternate.
pub proof fn lemma_alternation_needs_turns(
    axis: Axis,
    direction: int,
    events: Seq<RawInputEvent>,
    mode: DPadMode,
    table: Map<u16, u16>,
)
    requires
        direction == 1 || direction == -1,
        all_on_axis(events, axis),
        !alternates(asked_of(directions(axis, events, mode), direction)),
    ensures
        !alternates(
            key_values(emitted_by_all(events, mode, table), direction_key(axis, direction)),
        ),
{
    lemma_key_follows_readings(axis, direction, events, mode, table);
}

} // verus!
