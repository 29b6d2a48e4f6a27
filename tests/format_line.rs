use common_tracing::format::{EventFormatter, LogEvent, SpanFrame};
use common_tracing::level::Level;

fn frame(name: &str, id: u64, fields: &str) -> SpanFrame {
    SpanFrame { name: name.to_string(), id, fields: fields.to_string() }
}

fn event(level: Level, spans: Vec<SpanFrame>, fields: &str) -> LogEvent {
    LogEvent {
        timestamp: "2021-01-01T00:00:00".to_string(),
        level,
        thread_name: "Some(\"main\")".to_string(),
        thread_id: "ThreadId(1)".to_string(),
        spans,
        fields: fields.to_string(),
    }
}

#[test]
fn no_spans_leaves_no_separator() {
    let line = EventFormatter::new().format_event(&event(Level::Info, vec![], "msg"));
    assert_eq!(line, "2021-01-01T00:00:00  INFO 000Some(\"main\") ThreadId(1) msg\n");
}

#[test]
fn spans_rendered_root_to_leaf() {
    let spans = vec![frame("a", 1, ""), frame("b", 255, "x=1")];
    let line = EventFormatter::new().format_event(&event(Level::Error, spans, "msg"));
    assert_eq!(line, "2021-01-01T00:00:00 ERROR 000Some(\"main\") ThreadId(1) a#1:b#ff{x=1}: msg\n");
}

#[test]
fn single_span_without_fields() {
    let line = EventFormatter::new().format_event(&event(Level::Warn, vec![frame("req", 16, "")], "k=v"));
    assert_eq!(line, "2021-01-01T00:00:00  WARN 000Some(\"main\") ThreadId(1) req#10: k=v\n");
}

#[test]
fn span_id_in_hex() {
    let line = EventFormatter::new().format_event(&event(
        Level::Trace,
        vec![frame("s", u64::MAX, ""), frame("t", 0, "")],
        "",
    ));
    assert_eq!(line, "2021-01-01T00:00:00 TRACE 000Some(\"main\") ThreadId(1) s#ffffffffffffffff:t#0: \n");
}

#[test]
fn unnamed_thread_and_short_id_are_zero_padded() {
    let mut e = event(Level::Debug, vec![], "x");
    e.thread_name = "None".to_string();
    e.thread_id = "7".to_string();
    let line = EventFormatter::new().format_event(&e);
    assert_eq!(line, "2021-01-01T00:00:00 DEBUG 00000000000None 07 x\n");
}

#[test]
fn long_thread_name_is_not_cut() {
    let mut e = event(Level::Info, vec![], "x");
    e.thread_name = "Some(\"a-very-long-worker-name\")".to_string();
    let line = EventFormatter::new().format_event(&e);
    assert_eq!(line, "2021-01-01T00:00:00  INFO Some(\"a-very-long-worker-name\") ThreadId(1) x\n");
}

#[test]
fn level_names() {
    assert_eq!(Level::Error.as_str(), "ERROR");
    assert_eq!(Level::Warn.as_str(), "WARN");
    assert_eq!(Level::Info.as_str(), "INFO");
    assert_eq!(Level::Debug.as_str(), "DEBUG");
    assert_eq!(Level::Trace.as_str(), "TRACE");
}
