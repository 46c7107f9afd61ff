use lino_core::events::ChangeEvent;
use lino_core::events::EventQueue;

fn path_of(ev: &ChangeEvent) -> &str {
    match ev {
        ChangeEvent::Created(p) => p,
        ChangeEvent::Modified(p) => p,
        ChangeEvent::Removed(p) => p,
    }
}

#[test]
fn queue_drains_in_arrival_order() {
    let mut q = EventQueue::new();
    assert_eq!(q.len(), 0);
    assert!(q.try_receive().is_none());

    q.push(ChangeEvent::Created("a.ts".to_string()));
    q.push(ChangeEvent::Modified("b.ts".to_string()));
    q.push(ChangeEvent::Removed("a.ts".to_string()));
    assert_eq!(q.len(), 3);

    let first = q.try_receive().expect("first event");
    assert!(matches!(first, ChangeEvent::Created(_)));
    assert_eq!(path_of(&first), "a.ts");

    let second = q.try_receive().expect("second event");
    assert!(matches!(second, ChangeEvent::Modified(_)));
    assert_eq!(path_of(&second), "b.ts");

    let third = q.try_receive().expect("third event");
    assert!(matches!(third, ChangeEvent::Removed(_)));
    assert_eq!(path_of(&third), "a.ts");

    assert!(q.try_receive().is_none());
    assert_eq!(q.len(), 0);
}

#[test]
fn duplicate_events_are_not_coalesced() {
    let mut q = EventQueue::new();
    q.push(ChangeEvent::Modified("a.ts".to_string()));
    q.push(ChangeEvent::Modified("a.ts".to_string()));
    assert_eq!(q.len(), 2);
    assert!(q.try_receive().is_some());
    assert!(q.try_receive().is_some());
    assert!(q.try_receive().is_none());
}
