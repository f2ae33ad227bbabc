use youtube_player_api::{Callback, EventName, EventRegistry};

fn ns(s: &str) -> Option<String> {
    Some(s.to_string())
}

#[test]
fn new_registry_is_empty() {
    let reg = EventRegistry::new();
    assert!(!reg.is_installed(EventName::Ready));
    assert!(reg.fire(EventName::StateChange).is_empty());
}

#[test]
fn two_handlers_fire_in_registration_order() {
    let mut reg = EventRegistry::new();
    reg.subscribe(EventName::StateChange, None, Callback::External(1));
    reg.subscribe(EventName::StateChange, ns("ui"), Callback::External(2));
    reg.subscribe(EventName::Error, None, Callback::External(3));
    assert_eq!(
        vec![Callback::External(1), Callback::External(2)],
        reg.fire(EventName::StateChange)
    );
    assert_eq!(vec![Callback::External(3)], reg.fire(EventName::Error));
    assert!(reg.fire(EventName::Ready).is_empty());
}

#[test]
fn first_subscription_alone_asks_for_a_listener() {
    let mut reg = EventRegistry::new();
    assert!(reg.subscribe(EventName::Ready, None, Callback::External(1)));
    assert!(!reg.subscribe(EventName::Ready, ns("a"), Callback::External(2)));
    assert!(reg.subscribe(EventName::Error, None, Callback::External(3)));
    assert!(reg.is_installed(EventName::Ready));
    assert!(reg.is_installed(EventName::Error));
    assert!(!reg.is_installed(EventName::ApiChange));
}

#[test]
fn unsubscribe_namespace_keeps_the_rest() {
    let mut reg = EventRegistry::new();
    reg.subscribe(EventName::StateChange, ns("a"), Callback::External(1));
    reg.subscribe(EventName::StateChange, None, Callback::External(2));
    reg.subscribe(EventName::StateChange, ns("b"), Callback::External(3));
    reg.subscribe(EventName::StateChange, ns("a"), Callback::External(4));
    reg.subscribe(EventName::Error, ns("a"), Callback::External(5));
    reg.unsubscribe(EventName::StateChange, Some("a"));
    assert_eq!(
        vec![Callback::External(2), Callback::External(3)],
        reg.fire(EventName::StateChange)
    );
    // the same namespace on another event is untouched
    assert_eq!(vec![Callback::External(5)], reg.fire(EventName::Error));
    // still firing after a later subscription
    reg.subscribe(EventName::StateChange, ns("a"), Callback::External(6));
    assert_eq!(
        vec![Callback::External(2), Callback::External(3), Callback::External(6)],
        reg.fire(EventName::StateChange)
    );
}

#[test]
fn unsubscribe_without_namespace_clears_but_keeps_listener() {
    let mut reg = EventRegistry::new();
    reg.subscribe(EventName::Ready, ns("a"), Callback::External(1));
    reg.subscribe(EventName::Ready, None, Callback::External(2));
    reg.unsubscribe(EventName::Ready, None);
    assert!(reg.fire(EventName::Ready).is_empty());
    assert!(reg.is_installed(EventName::Ready));
    // a new subscription needs no second listener
    assert!(!reg.subscribe(EventName::Ready, None, Callback::External(3)));
    assert_eq!(vec![Callback::External(3)], reg.fire(EventName::Ready));
}

#[test]
fn unsubscribe_unknown_event_changes_nothing() {
    let mut reg = EventRegistry::new();
    reg.unsubscribe(EventName::Error, Some("x"));
    assert!(!reg.is_installed(EventName::Error));
    assert!(reg.fire(EventName::Error).is_empty());
}

#[test]
fn unsubscribe_missing_namespace_keeps_all() {
    let mut reg = EventRegistry::new();
    reg.subscribe(EventName::Error, ns("a"), Callback::External(1));
    reg.subscribe(EventName::Error, None, Callback::External(2));
    reg.unsubscribe(EventName::Error, Some("zz"));
    assert_eq!(
        vec![Callback::External(1), Callback::External(2)],
        reg.fire(EventName::Error)
    );
}
