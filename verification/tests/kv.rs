use tracing_slog::KvPair;
use tracing_slog::Record;
use tracing_slog::SlogLevel;
use tracing_slog::TraceLevel;
use tracing_slog::TracingKvSerializer;
use tracing_slog::build_event;
use tracing_slog::field_name;
use tracing_slog::get_target;
use tracing_slog::sloglevel_to_trace;

fn record_with(tag: &str, module: &str, pairs: &[(&str, &str)]) -> Record {
    Record {
        msg: "msg".to_string(),
        level: SlogLevel::Info,
        tag: tag.to_string(),
        module: module.to_string(),
        file: "f.rs".to_string(),
        line: 7,
        column: 2,
        pairs: pairs
            .iter()
            .map(|(k, v)| KvPair {
                key: k.to_string(),
                value: v.to_string(),
            })
            .collect(),
    }
}

#[test]
fn empty_serializer_yields_none() {
    let ser = TracingKvSerializer::default();
    assert!(ser.as_str().is_none());
}

#[test]
fn one_pair_serializes_without_trailing_comma() {
    let mut ser = TracingKvSerializer::default();
    ser.emit_pair("arg1", "val1");
    assert_eq!(ser.as_str().unwrap(), "arg1=val1");
}

#[test]
fn pairs_join_in_presentation_order() {
    let mut ser = TracingKvSerializer::default();
    ser.emit_pair("arg2", "val2");
    ser.emit_pair("arg1", "val1");
    assert_eq!(ser.as_str().unwrap(), "arg2=val2,arg1=val1");
}

#[test]
fn repeated_pair_keeps_both_and_strips_one_comma() {
    let mut ser = TracingKvSerializer::default();
    ser.emit_pair("arg1", "val1");
    ser.emit_pair("arg1", "val1");
    assert_eq!(ser.as_str().unwrap(), "arg1=val1,arg1=val1");
}

#[test]
fn empty_value_keeps_equals_sign() {
    let mut ser = TracingKvSerializer::default();
    ser.emit_pair("k", "");
    assert_eq!(ser.as_str().unwrap(), "k=");
}

#[test]
fn level_map_table() {
    assert_eq!(sloglevel_to_trace(SlogLevel::Trace), TraceLevel::Trace);
    assert_eq!(sloglevel_to_trace(SlogLevel::Debug), TraceLevel::Debug);
    assert_eq!(sloglevel_to_trace(SlogLevel::Info), TraceLevel::Info);
    assert_eq!(sloglevel_to_trace(SlogLevel::Warning), TraceLevel::Warn);
    assert_eq!(sloglevel_to_trace(SlogLevel::Error), TraceLevel::Error);
    assert_eq!(sloglevel_to_trace(SlogLevel::Critical), TraceLevel::Error);
}

#[test]
fn target_prefers_nonempty_tag() {
    let tagged = record_with("net", "a::b", &[]);
    assert_eq!(get_target(&tagged), "net");
    let untagged = record_with("", "a::b", &[]);
    assert_eq!(get_target(&untagged), "a::b");
}

#[test]
fn build_event_translates_all_parts() {
    let record = record_with("", "app::mod", &[("arg2", "val2"), ("arg1", "val1")]);
    let event = build_event(&record);
    assert_eq!(event.level, TraceLevel::Info);
    assert_eq!(event.message, "msg");
    assert_eq!(event.target, "app::mod");
    assert_eq!(event.module, "app::mod");
    assert_eq!(event.file, "f.rs");
    assert_eq!(event.line, 7);
    assert_eq!(event.column, 2);
    assert_eq!(event.kv.as_deref(), Some("arg2=val2,arg1=val1"));
}

#[test]
fn build_event_without_pairs_has_no_kv() {
    let record = record_with("", "app::mod", &[]);
    let event = build_event(&record);
    assert!(event.kv.is_none());
}

#[test]
fn field_name_table_is_stable() {
    assert_eq!(field_name(0), "message");
    assert_eq!(field_name(1), "slog.target");
    assert_eq!(field_name(2), "slog.module_path");
    assert_eq!(field_name(3), "slog.file");
    assert_eq!(field_name(4), "slog.line");
    assert_eq!(field_name(5), "slog.column");
    assert_eq!(field_name(6), "slog.kv");
}
