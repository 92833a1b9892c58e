use cordis_rs::{Event, TraceCollector, TraceEntry};

#[test]
fn record_appends_in_order() {
    let mut t = TraceCollector::new();
    assert!(t.is_empty());
    t.record(TraceEntry::PluginLoaded("a".into()));
    t.record(TraceEntry::Event(Event::SystemPrompt("p".into())));
    t.record(TraceEntry::PluginUnloaded("a".into()));
    assert_eq!(t.len(), 3);
    assert!(!t.is_empty());
    let s = t.snapshot();
    assert!(matches!(&s[0], TraceEntry::PluginLoaded(id) if id == "a"));
    assert!(matches!(&s[1], TraceEntry::Event(Event::SystemPrompt(p)) if p == "p"));
    assert!(matches!(&s[2], TraceEntry::PluginUnloaded(id) if id == "a"));
}

#[test]
fn checkpoint_records_label() {
    let mut t = TraceCollector::default();
    t.checkpoint("fork-1");
    t.checkpoint("");
    let s = t.snapshot();
    assert_eq!(s.len(), 2);
    assert!(matches!(&s[0], TraceEntry::Checkpoint(l) if l == "fork-1"));
    assert!(matches!(&s[1], TraceEntry::Checkpoint(l) if l.is_empty()));
}

#[test]
fn snapshot_is_a_copy() {
    let mut t = TraceCollector::new();
    t.checkpoint("one");
    let before = t.snapshot();
    t.checkpoint("two");
    assert_eq!(before.len(), 1);
    assert_eq!(t.snapshot().len(), 2);
}

#[test]
fn cloned_event_keeps_json_payload() {
    let payload = serde_json::Value::from(vec![1, 2, 3]);
    let e = Event::ToolCall { agent: "main".into(), tool: "bash".into(), args: payload.clone() };
    let entry = TraceEntry::Event(e);
    let copy = entry.clone();
    match copy {
        TraceEntry::Event(Event::ToolCall { agent, tool, args }) => {
            assert_eq!(agent, "main");
            assert_eq!(tool, "bash");
            assert_eq!(args, payload);
            assert_ne!(args, serde_json::Value::Null);
        }
        other => panic!("unexpected {:?}", other),
    }
    let custom = Event::Custom("k".into(), serde_json::Value::from("v")).clone();
    assert!(matches!(custom, Event::Custom(k, v) if k == "k" && v == serde_json::Value::from("v")));
}
