//! The enrichment path: decoding verdicts, name resolution and ordering as
//! the user callback observes them.

use listen_core::enrich::{enrich_all, process_notification, resolution_applies, WorkItem};
use listen_core::event::{Button, Event, EventType, Key, Timestamp};

fn at(millis: u64) -> Timestamp {
    Timestamp { millis }
}

#[test]
fn key_press_keeps_resolved_name() {
    let decoded = Some(EventType::KeyPress(Key { code: 65 }));
    let event = process_notification(decoded, Some(String::from("a")), at(1)).unwrap();
    assert_eq!(event.event_type, EventType::KeyPress(Key { code: 65 }));
    assert_eq!(event.name, Some(String::from("a")));
    assert_eq!(event.time, at(1));
}

#[test]
fn key_press_without_resolution_has_no_name() {
    let decoded = Some(EventType::KeyPress(Key { code: 65 }));
    let event = process_notification(decoded, None, at(2)).unwrap();
    assert_eq!(event.name, None);
}

#[test]
fn non_key_press_is_nameless_regardless_of_resolver() {
    let cases = vec![
        EventType::KeyRelease(Key { code: 65 }),
        EventType::ButtonPress(Button::Left),
        EventType::ButtonRelease(Button::Unknown(9)),
        EventType::MouseMove { x: 10, y: 20 },
        EventType::Wheel { delta_x: 0, delta_y: -1 },
    ];
    for event_type in cases {
        let event = process_notification(Some(event_type), Some(String::from("x")), at(3)).unwrap();
        assert_eq!(event.name, None);
        assert_eq!(event.event_type, event_type);
    }
}

#[test]
fn rejected_payload_yields_no_event() {
    assert_eq!(process_notification(None, None, at(4)), None);
    assert_eq!(process_notification(None, Some(String::from("a")), at(4)), None);
}

#[test]
fn resolution_applies_to_key_presses_only() {
    assert!(resolution_applies(&EventType::KeyPress(Key { code: 1 })));
    assert!(!resolution_applies(&EventType::KeyRelease(Key { code: 1 })));
    assert!(!resolution_applies(&EventType::ButtonPress(Button::Right)));
    assert!(!resolution_applies(&EventType::MouseMove { x: 0, y: 0 }));
    assert!(!resolution_applies(&EventType::Wheel { delta_x: 1, delta_y: 0 }));
}

#[test]
fn order_is_preserved_across_the_batch() {
    let items = vec![
        WorkItem {
            decoded: Some(EventType::KeyPress(Key { code: 65 })),
            resolved: Some(String::from("a")),
            time: at(10),
        },
        WorkItem { decoded: None, resolved: None, time: at(11) },
        WorkItem {
            decoded: Some(EventType::MouseMove { x: 10, y: 20 }),
            resolved: None,
            time: at(12),
        },
        WorkItem {
            decoded: Some(EventType::KeyRelease(Key { code: 65 })),
            resolved: None,
            time: at(13),
        },
    ];
    let events = enrich_all(&items);
    assert_eq!(events.len(), 3);
    assert_eq!(events[0].event_type, EventType::KeyPress(Key { code: 65 }));
    assert_eq!(events[0].time, at(10));
    assert_eq!(events[1].event_type, EventType::MouseMove { x: 10, y: 20 });
    assert_eq!(events[1].time, at(12));
    assert_eq!(events[2].event_type, EventType::KeyRelease(Key { code: 65 }));
    assert_eq!(events[2].time, at(13));
}

#[test]
fn empty_run_yields_no_events() {
    let items: Vec<WorkItem> = Vec::new();
    let events: Vec<Event> = enrich_all(&items);
    assert!(events.is_empty());
}

#[test]
fn end_to_end_scenario() {
    // A raw pair that decodes to a key press of "A", with the resolver
    // answering "a".
    let first = process_notification(
        Some(EventType::KeyPress(Key { code: 65 })),
        Some(String::from("a")),
        at(100),
    );
    let first = first.unwrap();
    assert_eq!(first.event_type, EventType::KeyPress(Key { code: 65 }));
    assert_eq!(first.name, Some(String::from("a")));

    // A raw pair that decodes to a pointer move to (10, 20).
    let second = process_notification(Some(EventType::MouseMove { x: 10, y: 20 }), None, at(101));
    let second = second.unwrap();
    assert_eq!(second.event_type, EventType::MouseMove { x: 10, y: 20 });
    assert_eq!(second.name, None);

    // A raw pair the decoder rejects: zero events.
    let third = process_notification(None, None, at(102));
    assert_eq!(third, None);
}
