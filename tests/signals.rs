use capybar::signals::{Signal, SignalValue, ValueKind};

#[test]
fn initial_state() {
    let signal = Signal::new();
    assert!(signal.last_value_ref().is_none());
}

#[test]
fn emit_store_last_value() {
    let mut signal = Signal::new();
    signal.emit(&42i32);
    assert_eq!(signal.get_last_value_cloned::<i32>(), Some(42));
}

#[test]
fn emit_unclonable_does_not_store() {
    let mut signal = Signal::new();
    signal.emit(&100u8);
    signal.emit_unclonable(&200u8);
    assert_eq!(signal.get_last_value_cloned::<u8>(), Some(100));
}

#[test]
fn type_erasure_handling() {
    let mut signal = Signal::new();
    signal.emit(&1i32);
    signal.emit(&"string");
    let result = signal.get_last_value_cloned::<&str>();
    assert_eq!(result, Some("string"));
}

#[test]
fn with_last_value_helper() {
    let mut signal = Signal::new();
    signal.emit(&999u64);
    signal.with_last_value(|opt| {
        assert_eq!(opt.and_then(|v| v.downcast_ref::<u64>()).copied(), Some(999));
    });
}

#[test]
fn get_last_value_wrong_type() {
    let mut signal = Signal::new();
    signal.emit(&5i16);
    assert!(signal.get_last_value_cloned::<i32>().is_none());
}

#[test]
fn no_panic_on_no_listeners() {
    let mut signal = Signal::new();
    signal.emit(&"test");
    signal.emit_unclonable(&42i32);
}

#[test]
fn connect_after_emit_replays_kept_value() {
    let mut signal = Signal::new();
    signal.emit(&String::from("us"));
    let (index, replay) = signal.connect(ValueKind::Text);
    assert_eq!(index, 0);
    match replay {
        Some(SignalValue::Text(s)) => assert_eq!(s, "us"),
        other => panic!("unexpected replay {other:?}"),
    }
    let (_, other) = signal.connect(ValueKind::I32);
    assert!(other.is_none());
}

#[test]
fn connect_without_value_replays_nothing() {
    let mut signal = Signal::new();
    let (index, replay) = signal.connect(ValueKind::Bool);
    assert_eq!(index, 0);
    assert!(replay.is_none());
}

#[test]
fn emit_reaches_only_listeners_of_its_type() {
    let mut signal = Signal::new();
    signal.connect(ValueKind::I32);
    signal.connect(ValueKind::Str);
    signal.connect(ValueKind::I32);
    signal.connect(ValueKind::Bool);
    assert_eq!(signal.emit(&10i32), vec![0, 2]);
    assert_eq!(signal.emit(&"text"), vec![1]);
    assert_eq!(signal.emit_unclonable(&true), vec![3]);
    assert!(signal.emit(&7u64).is_empty());
    assert_eq!(signal.listener_count(), 4);
}

#[test]
fn latest_emit_is_kept() {
    let mut signal = Signal::new();
    signal.emit(&1i32);
    signal.emit(&2i32);
    signal.emit(&3i32);
    signal.emit_unclonable(&4i32);
    assert_eq!(signal.get_last_value_cloned::<i32>(), Some(3));
}
