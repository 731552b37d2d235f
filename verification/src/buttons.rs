//! Button scanner logic.
//!
//! The scanner waits on "any edge" across the four hysteresis-filtered,
//! active-low button inputs. The inputs are electrically debounced, so
//! every observed edge is a real transition: the wake slot index names the
//! key, and the input's resulting level classifies the transition. A wake
//! outside the known slot range is a programming-invariant violation, not
//! a recoverable condition, and is excluded by contract.

use vstd::prelude::*;
use crate::bus::{lemma_publish_all_general, spec_publish_all, spec_publish_one, EventBus};
use crate::hid::{Event, Key, KeyEvent, spec_dispatch, spec_is_rotation, spec_send_code};
use crate::layouts::KeyLayout;

verus! {

/// Number of edge-wait slots the scanner multiplexes.
pub const NUM_BUTTON_INPUTS: usize = 4;

/// The key watched by edge-wait slot `index`.
pub open spec fn spec_button_key(index: int) -> Key {
    if index == 0 {
        Key::Key1
    } else if index == 1 {
        Key::Key2
    } else if index == 2 {
        Key::Key3
    } else {
        Key::EncoderButton
    }
}

/// The event an edge produces: the inputs are active-low, so a level now
/// low is a press and a level now high is a release.
pub open spec fn spec_button_event(key: Key, level_low: bool) -> KeyEvent {
    KeyEvent { key, event: if level_low { Event::Pressed } else { Event::Released } }
}

/// The event stream one key produces for a sequence of observed edges,
/// each edge given by the level read after it.
pub open spec fn spec_button_events(key: Key, levels_low: Seq<bool>) -> Seq<KeyEvent> {
    levels_low.map_values(|level_low: bool| spec_button_event(key, level_low))
}

/// Classify one observed edge: which key fired, and in which direction.
pub fn button_event(index: usize, level_low: bool) -> (ev: KeyEvent)
    requires
        index < NUM_BUTTON_INPUTS,
    ensures
        ev == spec_button_event(spec_button_key(index as int), level_low),
{
    let key = if index == 0 {
        Key::Key1
    } else if index == 1 {
        Key::Key2
    } else if index == 2 {
        Key::Key3
    } else {
        Key::EncoderButton
    };
    let event = if level_low {
        Event::Pressed
    } else {
        Event::Released
    };
    KeyEvent { key, event }
}

/// One turn of the scanner loop after a wake: classify the edge that
/// fired and publish the resulting event to every subscriber. Publishing
/// never blocks; a full subscriber queue loses its oldest entry.
pub fn handle_button_edge(bus: &mut EventBus, index: usize, level_low: bool)
    requires
        old(bus).well_formed(),
        index < NUM_BUTTON_INPUTS,
    ensures
        final(bus).well_formed(),
        final(bus).spec_capacity() == old(bus).spec_capacity(),
        final(bus).spec_num_subscribers() == old(bus).spec_num_subscribers(),
        forall|sub: int|
            0 <= sub < old(bus).spec_num_subscribers() ==> #[trigger] final(bus).spec_queue(sub)
                == spec_publish_one(
                old(bus).spec_queue(sub),
                old(bus).spec_capacity(),
                spec_button_event(spec_button_key(index as int), level_low),
            ),
{
    let ev = button_event(index, level_low);
    bus.publish(ev);
}

/// For any sequence of edges on one non-rotation key, the dispatcher emits
/// exactly one report per edge, in edge order: the press-coded report for
/// each transition to low and the clearing report for each transition to
/// high (no bus overflow assumed, every event delivered).
pub proof fn lemma_button_edges_one_report_each(
    layout: KeyLayout,
    key: Key,
    levels_low: Seq<bool>,
)
    requires
        !spec_is_rotation(key),
    ensures
        spec_dispatch(layout, spec_button_events(key, levels_low)) == Seq::new(
            levels_low.len(),
            |i: int|
                spec_send_code(
                    layout.spec_code_for(key),
                    if levels_low[i] {
                        Event::Pressed
                    } else {
                        Event::Released
                    },
                ),
        ),
    decreases levels_low.len(),
{
    let events = spec_button_events(key, levels_low);
    let expected = Seq::new(
        levels_low.len(),
        |i: int|
            spec_send_code(
                layout.spec_code_for(key),
                if levels_low[i] {
                    Event::Pressed
                } else {
                    Event::Released
                },
            ),
    );
    if levels_low.len() == 0 {
        assert(spec_dispatch(layout, events) =~= expected);
    } else {
        assert(events[0] == spec_button_event(key, levels_low[0]));
        assert(events.skip(1) =~= spec_button_events(key, levels_low.skip(1)));
        lemma_button_edges_one_report_each(layout, key, levels_low.skip(1));
        assert(spec_dispatch(layout, events) =~= expected);
    }
}

/// End to end: when a burst of edges on one non-rotation key fits in an
/// empty subscriber queue, the bus loses nothing, and dispatching what
/// the subscriber receives emits exactly one report per edge, in edge
/// order: press-coded for each transition to low, clearing for each
/// transition to high.
pub proof fn lemma_pipeline_end_to_end(
    layout: KeyLayout,
    key: Key,
    levels_low: Seq<bool>,
    capacity: int,
)
    requires
        !spec_is_rotation(key),
        capacity >= 1,
        levels_low.len() <= capacity,
    ensures
        spec_dispatch(
            layout,
            spec_publish_all(Seq::empty(), capacity, spec_button_events(key, levels_low)),
        ) == Seq::new(
            levels_low.len(),
            |i: int|
                spec_send_code(
                    layout.spec_code_for(key),
                    if levels_low[i] {
                        Event::Pressed
                    } else {
                        Event::Released
                    },
                ),
        ),
{
    let events = spec_button_events(key, levels_low);
    lemma_publish_all_general(Seq::empty(), capacity, events);
    assert(Seq::<KeyEvent>::empty() + events =~= events);
    lemma_button_edges_one_report_each(layout, key, levels_low);
}

} // verus!
