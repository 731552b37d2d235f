use macropad::bus::EventBus;
use macropad::encoder::{handle_encoder_signal, run, step, DecoderState, EncoderSignal};
use macropad::hid::{Event, Key, KeyEvent};

#[test]
fn counterclockwise_cycle_emits_one_left_event() {
    let signals = vec![
        EncoderSignal::BFell { a_high: false },
        EncoderSignal::ARose,
        EncoderSignal::BRose,
    ];
    let (state, events) = run(DecoderState::Idle, &signals);
    assert_eq!(state, DecoderState::Idle);
    assert_eq!(events, vec![KeyEvent { key: Key::EncoderLeft, event: Event::Pressed }]);
}

#[test]
fn clockwise_cycle_emits_one_right_event() {
    let signals = vec![
        EncoderSignal::BFell { a_high: true },
        EncoderSignal::AFell,
        EncoderSignal::BRose,
    ];
    let (state, events) = run(DecoderState::Idle, &signals);
    assert_eq!(state, DecoderState::Idle);
    assert_eq!(events, vec![KeyEvent { key: Key::EncoderRight, event: Event::Pressed }]);
}

#[test]
fn window_expiry_rejects_a_fresh_candidate() {
    let signals = vec![EncoderSignal::BFell { a_high: true }, EncoderSignal::WindowExpired];
    let (state, events) = run(DecoderState::Idle, &signals);
    assert_eq!(state, DecoderState::Idle);
    assert_eq!(events, vec![]);
}

#[test]
fn window_expiry_rejects_an_advanced_candidate() {
    let signals = vec![
        EncoderSignal::BFell { a_high: false },
        EncoderSignal::ARose,
        EncoderSignal::WindowExpired,
    ];
    let (state, events) = run(DecoderState::Idle, &signals);
    assert_eq!(state, DecoderState::Idle);
    assert_eq!(events, vec![]);
}

#[test]
fn out_of_order_edge_rejects_the_candidate() {
    let (state, emitted) = step(
        DecoderState::CandidateDetected { clockwise: false },
        EncoderSignal::AFell,
    );
    assert_eq!(state, DecoderState::Idle);
    assert_eq!(emitted, None);
    let signals = vec![
        EncoderSignal::BFell { a_high: false },
        EncoderSignal::BRose,
        EncoderSignal::BRose,
    ];
    let (state, events) = run(DecoderState::Idle, &signals);
    assert_eq!(state, DecoderState::Idle);
    assert_eq!(events, vec![]);
}

#[test]
fn idle_ignores_everything_but_the_trigger() {
    for signal in [
        EncoderSignal::ARose,
        EncoderSignal::AFell,
        EncoderSignal::BRose,
        EncoderSignal::WindowExpired,
    ] {
        let (state, emitted) = step(DecoderState::Idle, signal);
        assert_eq!(state, DecoderState::Idle);
        assert_eq!(emitted, None);
    }
    let (state, emitted) = step(DecoderState::Idle, EncoderSignal::BFell { a_high: true });
    assert_eq!(state, DecoderState::CandidateDetected { clockwise: true });
    assert_eq!(emitted, None);
}

#[test]
fn two_detents_in_a_row_emit_two_events() {
    let signals = vec![
        EncoderSignal::BFell { a_high: true },
        EncoderSignal::AFell,
        EncoderSignal::BRose,
        EncoderSignal::BFell { a_high: false },
        EncoderSignal::ARose,
        EncoderSignal::BRose,
    ];
    let (state, events) = run(DecoderState::Idle, &signals);
    assert_eq!(state, DecoderState::Idle);
    assert_eq!(
        events,
        vec![
            KeyEvent { key: Key::EncoderRight, event: Event::Pressed },
            KeyEvent { key: Key::EncoderLeft, event: Event::Pressed },
        ]
    );
}

#[test]
fn confirmed_detent_publishes_exactly_once() {
    let mut bus = EventBus::new(2, 1);
    let mut state = DecoderState::Idle;
    state = handle_encoder_signal(&mut bus, state, EncoderSignal::BFell { a_high: true });
    assert_eq!(bus.queue_len(0), 0);
    state = handle_encoder_signal(&mut bus, state, EncoderSignal::AFell);
    assert_eq!(bus.queue_len(0), 0);
    state = handle_encoder_signal(&mut bus, state, EncoderSignal::BRose);
    assert_eq!(state, DecoderState::Idle);
    assert_eq!(bus.queue_len(0), 1);
    assert_eq!(
        bus.try_next(0),
        Some(KeyEvent { key: Key::EncoderRight, event: Event::Pressed })
    );
}
