use macropad::bus::EventBus;
use macropad::buttons::{button_event, handle_button_edge};
use macropad::encoder::{run, DecoderState, EncoderSignal};
use macropad::hid::{
    dispatch_event, dispatch_events, dispatch_next, Event, Key, KeyEvent, KeyboardReport,
    MediaKeyboardReport, Report,
};
use macropad::layouts::KeyLayout;

fn keyboard(keycodes: [u8; 6]) -> Report {
    Report::Keyboard(KeyboardReport { modifier: 0, reserved: 0, keycodes })
}

fn media(usage_id: u16) -> Report {
    Report::Media(MediaKeyboardReport { usage_id })
}

#[test]
fn key1_press_then_release_types_and_clears() {
    let layout = KeyLayout::default();
    let events = vec![
        KeyEvent { key: Key::Key1, event: Event::Pressed },
        KeyEvent { key: Key::Key1, event: Event::Released },
    ];
    let reports = dispatch_events(&layout, &events);
    assert_eq!(
        reports,
        vec![keyboard([0x12, 0, 0, 0, 0, 0]), keyboard([0, 0, 0, 0, 0, 0])]
    );
}

#[test]
fn clockwise_detent_pulses_volume_up_and_touches_no_keyboard() {
    let layout = KeyLayout::default();
    let signals = vec![
        EncoderSignal::BFell { a_high: true },
        EncoderSignal::AFell,
        EncoderSignal::BRose,
    ];
    let (_, events) = run(DecoderState::Idle, &signals);
    let reports = dispatch_events(&layout, &events);
    assert_eq!(reports, vec![media(0xE9), media(0)]);
    for report in &reports {
        assert!(matches!(report, Report::Media(_)));
    }
}

#[test]
fn blocked_dispatcher_loses_only_the_oldest_of_three() {
    let layout = KeyLayout::default();
    let mut bus = EventBus::new(2, 1);
    let first = KeyEvent { key: Key::Key2, event: Event::Pressed };
    let second = KeyEvent { key: Key::Key2, event: Event::Released };
    let third = KeyEvent { key: Key::Key2, event: Event::Pressed };
    bus.publish(first);
    bus.publish(second);
    bus.publish(third);
    let reports = dispatch_next(&mut bus, 0, &layout);
    assert_eq!(reports, Some(vec![keyboard([0, 0, 0, 0, 0, 0])]));
    let reports = dispatch_next(&mut bus, 0, &layout);
    assert_eq!(reports, Some(vec![keyboard([0x16, 0, 0, 0, 0, 0])]));
    assert_eq!(dispatch_next(&mut bus, 0, &layout), None);
}

#[test]
fn one_report_per_button_edge_in_edge_order() {
    let layout = KeyLayout::default();
    let levels_low = [true, false, true];
    let mut events: Vec<KeyEvent> = Vec::new();
    for level_low in levels_low {
        events.push(button_event(1, level_low));
    }
    let reports = dispatch_events(&layout, &events);
    assert_eq!(
        reports,
        vec![
            keyboard([0x16, 0, 0, 0, 0, 0]),
            keyboard([0, 0, 0, 0, 0, 0]),
            keyboard([0x16, 0, 0, 0, 0, 0]),
        ]
    );
}

#[test]
fn rerunning_the_same_events_gives_the_same_reports() {
    let layout = KeyLayout::default();
    let events = vec![
        KeyEvent { key: Key::EncoderLeft, event: Event::Pressed },
        KeyEvent { key: Key::Key3, event: Event::Pressed },
        KeyEvent { key: Key::EncoderButton, event: Event::Released },
        KeyEvent { key: Key::Key3, event: Event::Released },
    ];
    let once = dispatch_events(&layout, &events);
    let again = dispatch_events(&layout, &events);
    assert_eq!(once, again);
}

#[test]
fn every_edge_slot_classifies_to_its_key() {
    assert_eq!(button_event(0, true), KeyEvent { key: Key::Key1, event: Event::Pressed });
    assert_eq!(button_event(1, true), KeyEvent { key: Key::Key2, event: Event::Pressed });
    assert_eq!(button_event(2, false), KeyEvent { key: Key::Key3, event: Event::Released });
    assert_eq!(
        button_event(3, false),
        KeyEvent { key: Key::EncoderButton, event: Event::Released }
    );
}

#[test]
fn scanner_wake_publishes_the_classified_event() {
    let mut bus = EventBus::new(2, 1);
    handle_button_edge(&mut bus, 3, true);
    assert_eq!(
        bus.try_next(0),
        Some(KeyEvent { key: Key::EncoderButton, event: Event::Pressed })
    );
    assert_eq!(bus.try_next(0), None);
}

#[test]
fn encoder_button_routes_to_mute() {
    let layout = KeyLayout::default();
    let press = dispatch_event(&layout, KeyEvent { key: Key::EncoderButton, event: Event::Pressed });
    let release = dispatch_event(
        &layout,
        KeyEvent { key: Key::EncoderButton, event: Event::Released },
    );
    assert_eq!(press, vec![media(0xE2)]);
    assert_eq!(release, vec![media(0)]);
}

#[test]
fn counterclockwise_rotation_pulses_volume_down() {
    let layout = KeyLayout::default();
    let reports = dispatch_event(&layout, KeyEvent { key: Key::EncoderLeft, event: Event::Pressed });
    assert_eq!(reports, vec![media(0xEA), media(0)]);
}
