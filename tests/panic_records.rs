use sourmash_ffi::panic_record::{
    describe_panic, panic_message, push_decimal, PanicPayload, PanicRecord, SourceLocation,
    FALLBACK_MESSAGE, UNNAMED_THREAD,
};

#[test]
fn literal_payload_message() {
    let p = PanicPayload::Literal(String::from("index out of range"));
    assert_eq!(panic_message(&p), "index out of range");
}

#[test]
fn owned_payload_message() {
    let p = PanicPayload::Owned(format!("bad k-mer {}", 21));
    assert_eq!(panic_message(&p), "bad k-mer 21");
}

#[test]
fn other_payload_falls_back() {
    let m = panic_message(&PanicPayload::Other);
    assert_eq!(m, "Box<Any>");
    assert_eq!(m, FALLBACK_MESSAGE);
    assert!(!m.is_empty());
}

#[test]
fn decimal_notation() {
    let cases: Vec<(u32, &str)> =
        vec![(0, "0"), (7, "7"), (10, "10"), (42, "42"), (1009, "1009"), (u32::MAX, "4294967295")];
    for (n, text) in cases {
        let mut out = String::from("line ");
        push_decimal(&mut out, n);
        assert_eq!(out, format!("line {}", text));
    }
}

#[test]
fn description_with_location() {
    let loc = Some(SourceLocation { file: String::from("src/sketch.rs"), line: 57 });
    let d = describe_panic(&Some(String::from("worker")), "boom", &loc);
    assert_eq!(d, "thread 'worker' panicked with 'boom' at src/sketch.rs:57");
}

#[test]
fn description_without_location_unnamed_thread() {
    let d = describe_panic(&None, "boom", &None);
    assert_eq!(d, "thread 'unnamed' panicked with 'boom'");
    assert_eq!(UNNAMED_THREAD, "unnamed");
}

#[test]
fn capture_composes_description() {
    let loc = Some(SourceLocation { file: String::from("lib.rs"), line: 3 });
    let r = PanicRecord::capture(&PanicPayload::Other, &Some(String::from("main")), &loc);
    assert_eq!(r.description, "thread 'main' panicked with 'Box<Any>' at lib.rs:3");
}
