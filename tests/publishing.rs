use rust_backend::progress::progress_message;
use rust_backend::publisher::SessionRegistry;

#[test]
fn progress_message_text() {
    assert_eq!(
        progress_message(1000, "Uploading started..."),
        "{\"progress\": 10.00, \"filename\": \"Uploading started...\"}"
    );
    assert_eq!(progress_message(3667, "a.png"), "{\"progress\": 36.67, \"filename\": \"a.png\"}");
    assert_eq!(progress_message(9000, "c.webp"), "{\"progress\": 90.00, \"filename\": \"c.webp\"}");
    assert_eq!(progress_message(5, ""), "{\"progress\": 0.05, \"filename\": \"\"}");
    assert_eq!(progress_message(10000, "x"), "{\"progress\": 100.00, \"filename\": \"x\"}");
}

#[test]
fn registry_routes_by_session() {
    let mut reg: SessionRegistry<u32> = SessionRegistry::new();
    assert!(reg.sink_for("s1").is_none());
    reg.register("s1".to_string(), 1);
    reg.register("s2".to_string(), 2);
    assert_eq!(reg.sink_for("s1"), Some(&1));
    assert_eq!(reg.sink_for("s2"), Some(&2));
    assert_eq!(reg.len(), 2);
    reg.register("s1".to_string(), 10);
    assert_eq!(reg.sink_for("s1"), Some(&10));
    assert_eq!(reg.len(), 2);
    reg.unregister("s1");
    assert!(reg.sink_for("s1").is_none());
    assert_eq!(reg.sink_for("s2"), Some(&2));
    reg.unregister("missing");
    assert_eq!(reg.len(), 1);
}

#[test]
fn progress_message_event() {
    let m = rust_backend::progress::ProgressMessage::new(6333, "b.png");
    assert_eq!(m.0, "{\"progress\": 63.33, \"filename\": \"b.png\"}");
}
