use comb::events::{forward_event, forward_events, DeviceEvent, DeviceInput, Event, EventKind, RawEvent, Timestamp};
use comb::input::{InputEvent, InputState};
use comb::key::Key;
use comb::multiplexer::{DeviceTable, ReadOutcome, CTRL};
use comb::rel_axis::RelAxis;

fn raw(secs: u64, type_: u16, code: u16, value: i32) -> RawEvent {
    RawEvent { timestamp: Timestamp { secs, nanos: 5 }, kind: EventKind { type_, code }, value }
}

#[test]
fn filtered_kinds_never_reach_the_pipeline() {
    assert!(forward_event("kbd", raw(1, 0, 0, 0)).is_empty());
    assert!(forward_event("kbd", raw(1, 0, 2, 0)).is_empty());
    assert!(forward_event("kbd", raw(1, 4, 4, 458756)).is_empty());
    // other miscellaneous events do pass
    let other = forward_event("kbd", raw(1, 4, 3, 9));
    assert_eq!(other.len(), 1);
    assert!(matches!(&other[0], Event::DeviceEvent(e) if e.kind() == EventKind { type_: 4, code: 3 } && e.value() == 9));
}

#[test]
fn decoded_inputs_follow_their_device_events() {
    let batch = vec![
        raw(1, 4, 4, 30),
        raw(1, 1, 30, 1),
        raw(1, 0, 0, 0),
        raw(2, 2, 8, -1),
        raw(3, 1, 84, 1),
        raw(4, 1, 30, 0),
    ];
    let events = forward_events("kbd", &batch);
    assert_eq!(events.len(), 7);
    for (i, e) in events.iter().enumerate() {
        if let Event::DeviceInput(input) = e {
            match &events[i - 1] {
                Event::DeviceEvent(prev) => {
                    assert_eq!(prev.device(), input.device());
                    assert_eq!(prev.timestamp(), input.timestamp);
                }
                _ => panic!("input without its device event"),
            }
        }
    }
    assert!(matches!(&events[1], Event::DeviceInput(i) if i.input_event() == InputEvent::Key(Key::A, InputState::Pressed)));
    assert!(matches!(&events[3], Event::DeviceInput(i) if i.input_event() == InputEvent::RelAxis(RelAxis::Wheel, -1)));
    assert!(matches!(&events[4], Event::DeviceEvent(e) if e.kind().code == 84));
    assert!(matches!(&events[6], Event::DeviceInput(i) if i.device() == "kbd"));
}

#[test]
fn device_input_decoding() {
    let e = DeviceEvent::new("pad".to_string(), raw(7, 1, 304, 2));
    let i = DeviceInput::try_from_event(&e).unwrap();
    assert_eq!(i.device(), "pad");
    assert_eq!(i.timestamp, Timestamp { secs: 7, nanos: 5 });
    assert_eq!(i.input_event(), InputEvent::Btn(comb::btn::Btn::South, InputState::Repeated));
    assert!(DeviceInput::try_from_event(&DeviceEvent::new("pad".to_string(), raw(7, 1, 304, 3))).is_none());
    assert!(DeviceInput::try_from_event(&DeviceEvent::new("pad".to_string(), raw(7, 5, 0, 1))).is_none());
}

#[test]
fn table_tokens_stay_stable() {
    let mut table = DeviceTable::new();
    let a = table.add("a".to_string()).unwrap();
    let b = table.add("b".to_string()).unwrap();
    let c = table.add("c".to_string()).unwrap();
    assert!(a > CTRL && a < b && b < c);
    assert_eq!(table.add("b".to_string()), None);
    assert_eq!(table.remove("a"), Some(a));
    assert_eq!(table.remove("a"), None);
    // the others keep their tokens after a removal
    assert_eq!(table.position_of_token(b).map(|i| table.slots[i].id.clone()), Some("b".to_string()));
    assert_eq!(table.position_of_token(c).map(|i| table.slots[i].id.clone()), Some("c".to_string()));
    let d = table.add("a".to_string()).unwrap();
    assert!(d > c);
}

#[test]
fn reads_and_vanishing_devices() {
    let mut table = DeviceTable::new();
    let t = table.add("/dev/input/event3".to_string()).unwrap();
    let events = table.on_read(t, ReadOutcome::Events(vec![raw(1, 1, 30, 1)]));
    assert_eq!(events.len(), 2);
    assert!(table.on_read(t, ReadOutcome::WouldBlock).is_empty());
    assert!(table.on_read(t + 100, ReadOutcome::Events(vec![raw(1, 1, 30, 1)])).is_empty());
    assert!(table.on_read(t, ReadOutcome::Failed).is_empty());
    assert_eq!(table.position("/dev/input/event3"), None);
    assert_eq!(table.remove_token(t), None);
    let again = table.add("/dev/input/event3".to_string()).unwrap();
    assert_ne!(again, t);
}
