//! Quadrature decoder: turns the encoder's two-phase signals into
//! discrete, directionally-correct rotation events.
//!
//! The decoder runs in its own elevated-priority context so that short
//! phase transitions are serviced even while the dispatcher is blocked on
//! a USB write. Its logic is a state machine over observed signals: a
//! falling edge on channel B arms a candidate whose direction is channel
//! A's level at that instant; the candidate is confirmed only if the
//! remaining legs of the detent cycle — A crossing back, then B rising —
//! arrive in order before a bounded window expires. A window expiry or an
//! out-of-order edge rejects the candidate as mechanical bounce and emits
//! nothing; a confirmed candidate emits exactly one rotation event.

use vstd::prelude::*;
use crate::bus::{EventBus, spec_publish_one};
use crate::hid::{Event, Key, KeyEvent};

verus! {

/// Length in milliseconds of the confirmation window a candidate gets to
/// complete its detent cycle.
pub const DETENT_WINDOW_MS: u64 = 200;

/// What the decoder can observe: an edge on either channel (a falling
/// edge on B also samples channel A's instantaneous level), or the expiry
/// of the candidate's confirmation window.
#[derive(Clone, Copy, Debug, PartialEq, Eq, Structural)]
pub enum EncoderSignal {
    BFell { a_high: bool },
    BRose,
    AFell,
    ARose,
    WindowExpired,
}

/// Decoder state. `clockwise` records the candidate direction: channel A
/// high at the triggering edge reads as clockwise rotation.
#[derive(Clone, Copy, Debug, PartialEq, Eq, Structural)]
pub enum DecoderState {
    /// Waiting for a triggering falling edge on channel B.
    Idle,
    /// Trigger seen; waiting for channel A to cross back.
    CandidateDetected { clockwise: bool },
    /// A crossed; waiting for the rising edge on channel B that completes
    /// the cycle.
    AwaitingFinalEdge { clockwise: bool },
}

/// The rotation key a candidate direction maps to.
pub open spec fn spec_rotation_key(clockwise: bool) -> Key {
    if clockwise {
        Key::EncoderRight
    } else {
        Key::EncoderLeft
    }
}

/// The event one confirmed detent publishes: a single `Pressed` pulse on
/// the rotation key; the dispatcher synthesizes the matching release.
pub open spec fn spec_rotation_event(clockwise: bool) -> KeyEvent {
    KeyEvent { key: spec_rotation_key(clockwise), event: Event::Pressed }
}

/// One decoder transition: the state after `signal`, and the rotation
/// event it emits, if any. A candidate advances only on the exact edge it
/// waits for; the window expiry, and any other edge, rejects it.
pub open spec fn spec_step(state: DecoderState, signal: EncoderSignal) -> (DecoderState, Option<
    KeyEvent,
>) {
    match state {
        DecoderState::Idle => match signal {
            EncoderSignal::BFell { a_high } => (
                DecoderState::CandidateDetected { clockwise: a_high },
                None,
            ),
            _ => (DecoderState::Idle, None),
        },
        DecoderState::CandidateDetected { clockwise } => {
            let expected = if clockwise {
                EncoderSignal::AFell
            } else {
                EncoderSignal::ARose
            };
            if signal == expected {
                (DecoderState::AwaitingFinalEdge { clockwise }, None)
            } else {
                (DecoderState::Idle, None)
            }
        },
        DecoderState::AwaitingFinalEdge { clockwise } => {
            if signal == EncoderSignal::BRose {
                (DecoderState::Idle, Some(spec_rotation_event(clockwise)))
            } else {
                (DecoderState::Idle, None)
            }
        },
    }
}

/// Feed one observed signal to the decoder.
pub fn step(state: DecoderState, signal: EncoderSignal) -> (r: (DecoderState, Option<KeyEvent>))
    ensures
        r == spec_step(state, signal),
{
    match state {
        DecoderState::Idle => match signal {
            EncoderSignal::BFell { a_high } => (
                DecoderState::CandidateDetected { clockwise: a_high },
                None,
            ),
            _ => (DecoderState::Idle, None),
        },
        DecoderState::CandidateDetected { clockwise } => {
            let expected = if clockwise {
                EncoderSignal::AFell
            } else {
                EncoderSignal::ARose
            };
            if signal == expected {
                (DecoderState::AwaitingFinalEdge { clockwise }, None)
            } else {
                (DecoderState::Idle, None)
            }
        },
        DecoderState::AwaitingFinalEdge { clockwise } => {
            if signal == EncoderSignal::BRose {
                (DecoderState::Idle, Some(KeyEvent {
                    key: if clockwise {
                        Key::EncoderRight
                    } else {
                        Key::EncoderLeft
                    },
                    event: Event::Pressed,
                }))
            } else {
                (DecoderState::Idle, None)
            }
        },
    }
}

/// The state and emitted events after running the decoder over a whole
/// signal sequence.
pub open spec fn spec_run(state: DecoderState, signals: Seq<EncoderSignal>) -> (DecoderState, Seq<
    KeyEvent,
>)
    decreases signals.len(),
{
    if signals.len() == 0 {
        (state, Seq::empty())
    } else {
        let (next, emitted) = spec_step(state, signals[0]);
        let (last, rest) = spec_run(next, signals.skip(1));
        let head = match emitted {
            Some(ev) => seq![ev],
            None => Seq::empty(),
        };
        (last, head + rest)
    }
}

/// Run the decoder over a sequence of observed signals, collecting every
/// rotation event it emits, in order.
pub fn run(state: DecoderState, signals: &Vec<EncoderSignal>) -> (r: (DecoderState, Vec<KeyEvent>))
    ensures
        r.0 == spec_run(state, signals@).0,
        r.1@ == spec_run(state, signals@).1,
{
    let mut current = state;
    let mut emitted: Vec<KeyEvent> = Vec::new();
    let mut i: usize = 0;
    proof {
        assert(signals@.skip(0) =~= signals@);
        assert(Seq::<KeyEvent>::empty() + spec_run(state, signals@).1 =~= spec_run(
            state,
            signals@,
        ).1);
    }
    while i < signals.len()
        invariant
            i <= signals@.len(),
            spec_run(state, signals@).0 == spec_run(current, signals@.skip(i as int)).0,
            spec_run(state, signals@).1 == emitted@ + spec_run(
                current,
                signals@.skip(i as int),
            ).1,
        decreases signals@.len() - i,
    {
        proof {
            assert(signals@.skip(i as int)[0] == signals@[i as int]);
            assert(signals@.skip(i as int).skip(1) =~= signals@.skip(i + 1));
        }
        let (next, out) = step(current, signals[i]);
        current = next;
        match out {
            Some(ev) => {
                emitted.push(ev);
                proof {
                    assert(spec_run(state, signals@).1 =~= emitted@ + spec_run(
                        current,
                        signals@.skip(i + 1),
                    ).1);
                }
            },
            None => {
                proof {
                    assert(spec_run(state, signals@).1 =~= emitted@ + spec_run(
                        current,
                        signals@.skip(i + 1),
                    ).1);
                }
            },
        }
        i = i + 1;
    }
    proof {
        assert(signals@.skip(signals@.len() as int) =~= Seq::<EncoderSignal>::empty());
        assert(spec_run(state, signals@).1 =~= emitted@);
    }
    (current, emitted)
}

/// One turn of the decoder loop: advance the state machine by one
/// observed signal and publish the rotation event of a confirmed detent,
/// if this signal confirmed one. Publishing never blocks; the bus is
/// untouched when nothing is emitted.
pub fn handle_encoder_signal(bus: &mut EventBus, state: DecoderState, signal: EncoderSignal) -> (next: DecoderState)
    requires
        old(bus).well_formed(),
    ensures
        next == spec_step(state, signal).0,
        final(bus).well_formed(),
        final(bus).spec_capacity() == old(bus).spec_capacity(),
        final(bus).spec_num_subscribers() == old(bus).spec_num_subscribers(),
        (match spec_step(state, signal).1 {
            Some(ev) => forall|sub: int|
                0 <= sub < old(bus).spec_num_subscribers() ==> #[trigger] final(bus).spec_queue(
                    sub,
                ) == spec_publish_one(old(bus).spec_queue(sub), old(bus).spec_capacity(), ev),
            None => *final(bus) == *old(bus),
        }),
{
    let (next, emitted) = step(state, signal);
    match emitted {
        Some(ev) => bus.publish(ev),
        None => (),
    }
    next
}

/// The complete, correctly ordered detent cycle for a candidate whose
/// direction was read as `a_high` at the triggering edge: B falls, A
/// crosses back, B rises.
pub open spec fn spec_detent_cycle(a_high: bool) -> Seq<EncoderSignal> {
    seq![
        EncoderSignal::BFell { a_high },
        if a_high {
            EncoderSignal::AFell
        } else {
            EncoderSignal::ARose
        },
        EncoderSignal::BRose,
    ]
}

/// A complete detent cycle finished inside the window yields exactly one
/// rotation event, its direction read from channel A at the triggering
/// edge, and returns the decoder to idle.
pub proof fn lemma_complete_cycle_emits_one(a_high: bool)
    ensures
        spec_run(DecoderState::Idle, spec_detent_cycle(a_high)).1 == seq![
            spec_rotation_event(a_high),
        ],
        spec_run(DecoderState::Idle, spec_detent_cycle(a_high)).0 == DecoderState::Idle,
{
    reveal_with_fuel(spec_run, 5);
    let cycle = spec_detent_cycle(a_high);
    assert(cycle.skip(1) =~= seq![cycle[1], cycle[2]]);
    assert(cycle.skip(1).skip(1) =~= seq![cycle[2]]);
    assert(cycle.skip(1).skip(1).skip(1) =~= Seq::<EncoderSignal>::empty());
    assert(spec_run(DecoderState::Idle, cycle).1 =~= seq![spec_rotation_event(a_high)]);
}

/// A window expiry before the cycle completes rejects the candidate: the
/// decoder emits nothing and returns to idle, whether the candidate had
/// advanced one leg or two.
pub proof fn lemma_expired_window_emits_nothing(a_high: bool, legs_seen: int)
    requires
        0 <= legs_seen < 3,
    ensures
        spec_run(
            DecoderState::Idle,
            spec_detent_cycle(a_high).take(legs_seen).push(EncoderSignal::WindowExpired),
        ).1 == Seq::<KeyEvent>::empty(),
        spec_run(
            DecoderState::Idle,
            spec_detent_cycle(a_high).take(legs_seen).push(EncoderSignal::WindowExpired),
        ).0 == DecoderState::Idle,
{
    reveal_with_fuel(spec_run, 5);
    let cycle = spec_detent_cycle(a_high);
    let signals = cycle.take(legs_seen).push(EncoderSignal::WindowExpired);
    if legs_seen == 0 {
        assert(signals =~= seq![EncoderSignal::WindowExpired]);
        assert(signals.skip(1) =~= Seq::<EncoderSignal>::empty());
        assert(spec_run(DecoderState::Idle, signals).1 =~= Seq::<KeyEvent>::empty());
    } else if legs_seen == 1 {
        assert(signals =~= seq![cycle[0], EncoderSignal::WindowExpired]);
        assert(signals.skip(1) =~= seq![EncoderSignal::WindowExpired]);
        assert(signals.skip(1).skip(1) =~= Seq::<EncoderSignal>::empty());
        assert(spec_run(DecoderState::Idle, signals).1 =~= Seq::<KeyEvent>::empty());
    } else {
        assert(signals =~= seq![cycle[0], cycle[1], EncoderSignal::WindowExpired]);
        assert(signals.skip(1) =~= seq![cycle[1], EncoderSignal::WindowExpired]);
        assert(signals.skip(1).skip(1) =~= seq![EncoderSignal::WindowExpired]);
        assert(signals.skip(1).skip(1).skip(1) =~= Seq::<EncoderSignal>::empty());
        assert(spec_run(DecoderState::Idle, signals).1 =~= Seq::<KeyEvent>::empty());
    }
}

/// The decoder emits only at a completed cycle: a transition produces an
/// event exactly when a candidate awaiting its final edge sees channel B
/// rise, and that event is the candidate's rotation pulse.
pub proof fn lemma_emission_only_on_confirmation(state: DecoderState, signal: EncoderSignal)
    ensures
        spec_step(state, signal).1 is Some <==> (state matches DecoderState::AwaitingFinalEdge {
            clockwise: _,
        } && signal == EncoderSignal::BRose),
        forall|clockwise: bool|
            state == (DecoderState::AwaitingFinalEdge { clockwise }) && signal
                == EncoderSignal::BRose ==> spec_step(state, signal).1 == Some(
                #[trigger] spec_rotation_event(clockwise),
            ),
{
}

} // verus!
