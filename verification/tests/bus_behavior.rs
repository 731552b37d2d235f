use macropad::bus::EventBus;
use macropad::hid::{Event, Key, KeyEvent};

fn ev(key: Key, event: Event) -> KeyEvent {
    KeyEvent { key, event }
}

#[test]
fn new_bus_is_empty() {
    let mut bus = EventBus::new(2, 2);
    assert_eq!(bus.capacity(), 2);
    assert_eq!(bus.num_subscribers(), 2);
    assert_eq!(bus.queue_len(0), 0);
    assert_eq!(bus.queue_len(1), 0);
    assert_eq!(bus.try_next(0), None);
    assert_eq!(bus.try_next(1), None);
}

#[test]
fn events_come_out_in_publish_order() {
    let mut bus = EventBus::new(2, 1);
    let first = ev(Key::Key1, Event::Pressed);
    let second = ev(Key::Key1, Event::Released);
    bus.publish(first);
    bus.publish(second);
    assert_eq!(bus.try_next(0), Some(first));
    assert_eq!(bus.try_next(0), Some(second));
    assert_eq!(bus.try_next(0), None);
}

#[test]
fn overflow_drops_the_oldest_event() {
    let mut bus = EventBus::new(2, 1);
    let first = ev(Key::Key1, Event::Pressed);
    let second = ev(Key::Key2, Event::Pressed);
    let third = ev(Key::Key3, Event::Pressed);
    bus.publish(first);
    bus.publish(second);
    bus.publish(third);
    assert_eq!(bus.queue_len(0), 2);
    assert_eq!(bus.try_next(0), Some(second));
    assert_eq!(bus.try_next(0), Some(third));
    assert_eq!(bus.try_next(0), None);
}

#[test]
fn a_burst_that_fits_loses_nothing() {
    let mut bus = EventBus::new(5, 1);
    let first = ev(Key::Key1, Event::Pressed);
    let second = ev(Key::Key1, Event::Released);
    let third = ev(Key::Key2, Event::Pressed);
    bus.publish(first);
    bus.publish(second);
    bus.publish(third);
    assert_eq!(bus.try_next(0), Some(first));
    assert_eq!(bus.try_next(0), Some(second));
    assert_eq!(bus.try_next(0), Some(third));
}

#[test]
fn capacity_one_keeps_only_the_newest() {
    let mut bus = EventBus::new(1, 1);
    bus.publish(ev(Key::Key1, Event::Pressed));
    bus.publish(ev(Key::Key2, Event::Pressed));
    bus.publish(ev(Key::Key3, Event::Pressed));
    assert_eq!(bus.try_next(0), Some(ev(Key::Key3, Event::Pressed)));
    assert_eq!(bus.try_next(0), None);
}

#[test]
fn each_subscriber_gets_its_own_copy() {
    let mut bus = EventBus::new(2, 2);
    let pressed = ev(Key::EncoderButton, Event::Pressed);
    bus.publish(pressed);
    assert_eq!(bus.try_next(0), Some(pressed));
    assert_eq!(bus.try_next(0), None);
    assert_eq!(bus.queue_len(1), 1);
    assert_eq!(bus.try_next(1), Some(pressed));
    assert_eq!(bus.try_next(1), None);
}

#[test]
fn a_slow_subscriber_overflows_alone() {
    let mut bus = EventBus::new(2, 2);
    let first = ev(Key::Key1, Event::Pressed);
    let second = ev(Key::Key2, Event::Pressed);
    let third = ev(Key::Key3, Event::Pressed);
    bus.publish(first);
    assert_eq!(bus.try_next(0), Some(first));
    bus.publish(second);
    bus.publish(third);
    assert_eq!(bus.try_next(0), Some(second));
    assert_eq!(bus.try_next(0), Some(third));
    assert_eq!(bus.try_next(1), Some(second));
    assert_eq!(bus.try_next(1), Some(third));
    assert_eq!(bus.try_next(1), None);
}
