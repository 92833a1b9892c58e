use cordis_rs::{Event, EventBus, ServiceRegistry};

struct Greeting(&'static str);

#[test]
fn registered_service_is_found_by_type() {
    let mut reg = ServiceRegistry::new();
    assert!(reg.get::<Greeting>().is_none());
    reg.register(Greeting("hi"));
    assert_eq!(reg.get::<Greeting>().unwrap().0, "hi");
    reg.register(Greeting("hello"));
    assert_eq!(reg.get::<Greeting>().unwrap().0, "hello");
    assert!(reg.get::<u32>().is_none());
    reg.register(7u32);
    assert_eq!(*reg.get::<u32>().unwrap(), 7);
}

#[test]
fn default_registry_is_empty() {
    let reg = ServiceRegistry::default();
    assert!(reg.get::<Greeting>().is_none());
}

#[test]
fn subscriber_receives_published_events() {
    let bus = EventBus::default();
    bus.publish(Event::SystemPrompt("lost".into()));
    let mut rx = bus.subscribe();
    bus.publish(Event::Thought { agent: "a".into(), text: "t".into() });
    match rx.try_recv() {
        Ok(Event::Thought { agent, text }) => {
            assert_eq!(agent, "a");
            assert_eq!(text, "t");
        }
        other => panic!("unexpected {:?}", other),
    }
    assert!(rx.try_recv().is_err());
}
