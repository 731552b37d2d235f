//! Key events and HID report synthesis.
//!
//! Every interaction with the device is reduced to a [`KeyEvent`]; the
//! dispatcher turns each event into one or two HID reports, routed to the
//! keyboard interface or to the consumer-control (media) interface by the
//! [`KeyType`] that the layout table assigns to the key.

use vstd::prelude::*;
use crate::bus::EventBus;
use crate::layouts::KeyLayout;

verus! {

/// The physical inputs of the device: the three macro keys, the encoder's
/// push button, and the two rotation directions of the encoder.
#[derive(Clone, Copy, Debug, PartialEq, Eq, Structural)]
pub enum Key {
    EncoderLeft,
    EncoderRight,
    EncoderButton,
    Key1,
    Key2,
    Key3,
}

/// The two transitions a key can make. Rotation ticks are modeled as a
/// `Pressed` pulse; the dispatcher synthesizes the matching release.
#[derive(Clone, Copy, Debug, PartialEq, Eq, Structural)]
pub enum Event {
    Pressed,
    Released,
}

/// One observed interaction: which input changed, and in which direction.
/// Plain value type; events are copied across the bus by value.
#[derive(Clone, Copy, Debug, PartialEq, Eq, Structural)]
pub struct KeyEvent {
    pub key: Key,
    pub event: Event,
}

/// Where a key routes its output: a 16-bit consumer-control usage on the
/// media interface, or an 8-bit scancode on the boot keyboard interface.
#[derive(Clone, Copy, Debug, PartialEq, Eq, Structural)]
pub enum KeyType {
    Media(u16),
    Keycode(u8),
}

/// Boot-protocol keyboard report: modifier byte, reserved byte, and six
/// simultaneous keycode slots. This device only ever populates slot 0.
#[derive(Clone, Copy, Debug, PartialEq, Eq)]
pub struct KeyboardReport {
    pub modifier: u8,
    pub reserved: u8,
    pub keycodes: [u8; 6],
}

/// Consumer-control report: a single 16-bit usage; `0` means "no key active".
#[derive(Clone, Copy, Debug, PartialEq, Eq)]
pub struct MediaKeyboardReport {
    pub usage_id: u16,
}

/// One outbound report, tagged by the interface it must be written to.
#[derive(Clone, Copy, Debug, PartialEq, Eq)]
pub enum Report {
    Keyboard(KeyboardReport),
    Media(MediaKeyboardReport),
}

/// The keyboard report asserting a single scancode in slot 0.
pub open spec fn spec_keyboard_report(scancode: u8) -> KeyboardReport {
    KeyboardReport { modifier: 0, reserved: 0, keycodes: [scancode, 0, 0, 0, 0, 0] }
}

/// The report a key of type `code` produces for `event`: a release always
/// clears the interface (scancode slot 0, or usage 0).
pub open spec fn spec_send_code(code: KeyType, event: Event) -> Report {
    match code {
        KeyType::Media(usage) => Report::Media(
            MediaKeyboardReport { usage_id: if event is Pressed { usage } else { 0 } },
        ),
        KeyType::Keycode(scancode) => Report::Keyboard(
            spec_keyboard_report(if event is Pressed { scancode } else { 0 }),
        ),
    }
}

/// Build the single report for one press or release of a key of type `code`.
pub fn send_code(code: KeyType, event: Event) -> (r: Report)
    ensures
        r == spec_send_code(code, event),
{
    match code {
        KeyType::Media(usage) => {
            let id: u16 = if event == Event::Pressed { usage } else { 0 };
            Report::Media(MediaKeyboardReport { usage_id: id })
        },
        KeyType::Keycode(scancode) => {
            let slot0: u8 = if event == Event::Pressed { scancode } else { 0 };
            Report::Keyboard(
                KeyboardReport { modifier: 0, reserved: 0, keycodes: [slot0, 0, 0, 0, 0, 0] },
            )
        },
    }
}

/// Build the press-then-release pulse pair a validated rotation tick
/// produces on the interface its code routes to.
pub fn handle_encoder_interaction(code: KeyType) -> (r: (Report, Report))
    ensures
        r.0 == spec_send_code(code, Event::Pressed),
        r.1 == spec_send_code(code, Event::Released),
{
    (send_code(code, Event::Pressed), send_code(code, Event::Released))
}

/// Whether a key is one of the encoder's rotation directions. Rotation
/// events arrive as a lone `Pressed` pulse and get a synthetic release.
pub open spec fn spec_is_rotation(key: Key) -> bool {
    key is EncoderLeft || key is EncoderRight
}

/// The ordered report traffic one delivered event produces under `layout`:
/// a rotation tick yields a press-then-release pulse pair; every other key
/// yields the single report for its own edge.
pub open spec fn spec_reports_for(layout: KeyLayout, ev: KeyEvent) -> Seq<Report> {
    let code = layout.spec_code_for(ev.key);
    if spec_is_rotation(ev.key) {
        seq![spec_send_code(code, Event::Pressed), spec_send_code(code, Event::Released)]
    } else {
        seq![spec_send_code(code, ev.event)]
    }
}

/// The ordered report traffic a whole event sequence produces under
/// `layout`: the traffic of the first event, then the traffic of the rest.
pub open spec fn spec_dispatch(layout: KeyLayout, events: Seq<KeyEvent>) -> Seq<Report>
    decreases events.len(),
{
    if events.len() == 0 {
        Seq::empty()
    } else {
        spec_reports_for(layout, events[0]) + spec_dispatch(layout, events.skip(1))
    }
}

/// Process one delivered event completely: resolve it through the layout
/// table and produce, in transmit order, every report it calls for.
pub fn dispatch_event(layout: &KeyLayout, ev: KeyEvent) -> (reports: Vec<Report>)
    ensures
        reports@ == spec_reports_for(*layout, ev),
{
    let code = layout.code_for(ev.key);
    let mut reports: Vec<Report> = Vec::new();
    match ev.key {
        Key::EncoderLeft | Key::EncoderRight => {
            let (press, release) = handle_encoder_interaction(code);
            reports.push(press);
            reports.push(release);
        },
        _ => {
            reports.push(send_code(code, ev.event));
        },
    }
    proof {
        assert(reports@ =~= spec_reports_for(*layout, ev));
    }
    reports
}

/// Process a sequence of delivered events in order, one event completely
/// before the next. The result is pinned to `spec_dispatch`, so the report
/// traffic is a pure function of the layout and the delivered events.
pub fn dispatch_events(layout: &KeyLayout, events: &Vec<KeyEvent>) -> (reports: Vec<Report>)
    ensures
        reports@ == spec_dispatch(*layout, events@),
{
    let mut reports: Vec<Report> = Vec::new();
    let mut i: usize = 0;
    while i < events.len()
        invariant
            i <= events@.len(),
            reports@ == spec_dispatch(*layout, events@.take(i as int)),
        decreases events@.len() - i,
    {
        let mut step = dispatch_event(layout, events[i]);
        reports.append(&mut step);
        proof {
            lemma_spec_dispatch_snoc(*layout, events@.take(i as int), events@[i as int]);
            assert(events@.take(i + 1 as int) =~= events@.take(i as int).push(events@[i as int]));
        }
        i = i + 1;
    }
    proof {
        assert(events@.take(events@.len() as int) =~= events@);
    }
    reports
}

/// The device never represents chords: every report it synthesizes
/// asserts at most one key — a keyboard report carries no modifier and
/// nothing outside slot 0, and a media report carries a single usage.
pub proof fn lemma_no_chords(layout: KeyLayout, ev: KeyEvent)
    ensures
        forall|i: int|
            0 <= i < spec_reports_for(layout, ev).len() ==> (match #[trigger] spec_reports_for(
                layout,
                ev,
            )[i] {
                Report::Keyboard(r) => r.modifier == 0 && r.reserved == 0 && (forall|slot: int|
                    1 <= slot < 6 ==> r.keycodes@[slot] == 0),
                Report::Media(_) => true,
            }),
{
    assert forall|i: int| 0 <= i < spec_reports_for(layout, ev).len() implies (
    match #[trigger] spec_reports_for(layout, ev)[i] {
        Report::Keyboard(r) => r.modifier == 0 && r.reserved == 0 && (forall|slot: int|
            1 <= slot < 6 ==> r.keycodes@[slot] == 0),
        Report::Media(_) => true,
    }) by {
        let report = spec_reports_for(layout, ev)[i];
        match report {
            Report::Keyboard(r) => {
                assert(forall|slot: int| 1 <= slot < 6 ==> r.keycodes@[slot] == 0);
            },
            Report::Media(_) => {},
        }
    }
}

/// The fixed 8-byte boot-protocol wire form of a keyboard report:
/// modifier, reserved, then the six keycode slots in order.
pub open spec fn spec_keyboard_wire(r: KeyboardReport) -> Seq<u8> {
    seq![
        r.modifier,
        r.reserved,
        r.keycodes@[0],
        r.keycodes@[1],
        r.keycodes@[2],
        r.keycodes@[3],
        r.keycodes@[4],
        r.keycodes@[5],
    ]
}

/// The 2-byte little-endian wire form of a consumer-control report.
pub open spec fn spec_media_wire(r: MediaKeyboardReport) -> Seq<u8> {
    seq![(r.usage_id & 0xff) as u8, ((r.usage_id >> 8) & 0xff) as u8]
}

/// The usage a 2-byte little-endian consumer-control frame carries.
pub open spec fn spec_media_wire_usage(bytes: Seq<u8>) -> u16
    recommends
        bytes.len() == 2,
{
    (bytes[0] as u16) | (bytes[1] as u16) << 8
}

/// Frame a keyboard report for the wire.
pub fn keyboard_wire_bytes(r: &KeyboardReport) -> (bytes: [u8; 8])
    ensures
        bytes@ == spec_keyboard_wire(*r),
{
    let bytes: [u8; 8] = [
        r.modifier,
        r.reserved,
        r.keycodes[0],
        r.keycodes[1],
        r.keycodes[2],
        r.keycodes[3],
        r.keycodes[4],
        r.keycodes[5],
    ];
    proof {
        assert(bytes@ =~= spec_keyboard_wire(*r));
    }
    bytes
}

/// Frame a consumer-control report for the wire, little-endian. The two
/// bytes carry the usage exactly: decoding them recovers `usage_id`.
pub fn media_wire_bytes(r: &MediaKeyboardReport) -> (bytes: [u8; 2])
    ensures
        bytes@ == spec_media_wire(*r),
        spec_media_wire_usage(bytes@) == r.usage_id,
{
    let low: u8 = (r.usage_id & 0xff) as u8;
    let high: u8 = ((r.usage_id >> 8) & 0xff) as u8;
    let bytes: [u8; 2] = [low, high];
    proof {
        let usage = r.usage_id;
        assert(bytes@ =~= spec_media_wire(*r));
        assert((usage & 0xff) < 256 && ((usage >> 8) & 0xff) < 256) by (bit_vector);
        assert(usage == ((usage & 0xff) | (((usage >> 8) & 0xff) << 8))) by (bit_vector);
        assert((bytes@[0] as u16) == (usage & 0xff));
        assert((bytes@[1] as u16) == ((usage >> 8) & 0xff));
    }
    bytes
}

/// One turn of the dispatcher loop: pull the oldest event queued for
/// subscriber `sub` and process it completely, producing every report it
/// calls for in transmit order. Returns `None`, leaving the bus as it
/// was, when nothing is queued; the surrounding task then suspends until
/// an event arrives. The caller transmits the reports one by one before
/// pulling again, which serializes all outbound HID traffic.
pub fn dispatch_next(bus: &mut EventBus, sub: usize, layout: &KeyLayout) -> (reports: Option<
    Vec<Report>,
>)
    requires
        old(bus).well_formed(),
        sub < old(bus).spec_num_subscribers(),
    ensures
        final(bus).well_formed(),
        final(bus).spec_capacity() == old(bus).spec_capacity(),
        final(bus).spec_num_subscribers() == old(bus).spec_num_subscribers(),
        old(bus).spec_queue(sub as int).len() == 0 ==> reports is None && *final(bus) == *old(
            bus,
        ),
        old(bus).spec_queue(sub as int).len() > 0 ==> {
            &&& reports matches Some(r) && r@ == spec_reports_for(
                *layout,
                old(bus).spec_queue(sub as int)[0],
            )
            &&& final(bus).spec_queue(sub as int) == old(bus).spec_queue(sub as int).skip(1)
            &&& forall|other: int|
                0 <= other < old(bus).spec_num_subscribers() && other != sub
                    ==> #[trigger] final(bus).spec_queue(other) == old(bus).spec_queue(other)
        },
{
    match bus.try_next(sub) {
        None => None,
        Some(ev) => Some(dispatch_event(layout, ev)),
    }
}

/// Dispatching an event sequence extended by one event appends exactly
/// that event's traffic.
pub proof fn lemma_spec_dispatch_snoc(layout: KeyLayout, events: Seq<KeyEvent>, ev: KeyEvent)
    ensures
        spec_dispatch(layout, events.push(ev)) == spec_dispatch(layout, events)
            + spec_reports_for(layout, ev),
    decreases events.len(),
{
    let extended = events.push(ev);
    if events.len() == 0 {
        assert(extended.skip(1) =~= Seq::<KeyEvent>::empty());
        assert(extended[0] == ev);
        assert(spec_dispatch(layout, extended.skip(1)) =~= Seq::<Report>::empty());
        assert(spec_dispatch(layout, extended) =~= spec_dispatch(layout, events)
            + spec_reports_for(layout, ev));
    } else {
        assert(extended.skip(1) =~= events.skip(1).push(ev));
        assert(extended[0] == events[0]);
        lemma_spec_dispatch_snoc(layout, events.skip(1), ev);
        assert(spec_dispatch(layout, extended) == spec_reports_for(layout, events[0])
            + spec_dispatch(layout, events.skip(1).push(ev)));
        assert(spec_dispatch(layout, extended) =~= spec_dispatch(layout, events)
            + spec_reports_for(layout, ev));
    }
}

/// Routing is deterministic: for a fixed layout table, the transmitted
/// report sequence is a pure function of the delivered event sequence, so
/// re-running equal event sequences always produces equal report sequences.
pub proof fn lemma_routing_deterministic(
    layout: KeyLayout,
    events1: Seq<KeyEvent>,
    events2: Seq<KeyEvent>,
)
    requires
        events1 == events2,
    ensures
        spec_dispatch(layout, events1) == spec_dispatch(layout, events2),
{
}

} // verus!
