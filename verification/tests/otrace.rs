use zerofs::otrace::{
    event_line, format_duration, format_params, join_line, ObjectAccessEvent, ObjectOperation,
    ObjectParams,
};

fn human(bytes: u64) -> String {
    format!("<{bytes}>")
}

fn quotient(n: u64, d: u64, decimals: usize) -> String {
    format!("{:.*}", decimals, n as f64 / d as f64)
}

fn params() -> ObjectParams {
    ObjectParams {
        offset: Some(4096),
        length: Some(1048576),
        size: Some(77),
        target_path: Some("b/c".to_string()),
    }
}

#[test]
fn each_operation_shows_its_own_parameters() {
    let all = Some(params());
    let shown = |op| format_params(&all, op, &human);
    assert_eq!(shown(Some(ObjectOperation::ObjGet)), " off=4096 len=<1048576>");
    assert_eq!(shown(Some(ObjectOperation::ObjPut)), " size=<77>");
    assert_eq!(shown(Some(ObjectOperation::ObjCopy)), " -> b/c");
    assert_eq!(shown(Some(ObjectOperation::ObjRename)), " -> b/c");
    assert_eq!(shown(Some(ObjectOperation::Other)), "");
    assert_eq!(shown(None), "");
    assert_eq!(format_params(&None, Some(ObjectOperation::ObjGet), &human), "");
}

#[test]
fn absent_parameters_are_left_out() {
    let none = Some(ObjectParams { offset: None, length: None, size: None, target_path: None });
    for op in [
        ObjectOperation::ObjGet,
        ObjectOperation::ObjPut,
        ObjectOperation::ObjCopy,
        ObjectOperation::ObjRename,
    ] {
        assert_eq!(format_params(&none, Some(op), &human), "");
    }
    let offset = Some(ObjectParams { length: None, ..params() });
    assert_eq!(format_params(&offset, Some(ObjectOperation::ObjGet), &human), " off=4096");
}

#[test]
fn durations_are_scaled() {
    for (us, text) in [
        (0, "0µs"),
        (999, "999µs"),
        (1000, "1.0ms"),
        (1250, "1.2ms"),
        (999_999, "1000.0ms"),
        (1_000_000, "1.00s"),
        (62_345_678, "62.35s"),
    ] {
        assert_eq!(format_duration(us, &quotient), text);
    }
}

#[test]
fn only_another_store_is_named() {
    assert_eq!(join_line("GET", "data", "a/b", " off=1", "  5µs", false), "GET | a/b off=1  5µs");
    assert_eq!(join_line("GET", "wal", "a/b", "", "", true), "GET | wal a/b  ERR");
    assert_eq!(join_line("GET", "", "a", "", "", false), "GET |  a");
}

#[test]
fn a_request_is_one_line() {
    let mut event = ObjectAccessEvent {
        operation: Some((ObjectOperation::ObjPut, "PUT".to_string())),
        params: Some(params()),
        duration_us: Some(1500),
        error: true,
        store: "wal".to_string(),
        path: "seg/1".to_string(),
    };
    assert_eq!(event_line(&event, &human, &quotient), "PUT | wal seg/1 size=<77>  1.5ms  ERR");
    event.operation = None;
    event.duration_us = None;
    event.error = false;
    event.store = "data".to_string();
    assert_eq!(event_line(&event, &human, &quotient), "?? | seg/1");
}
