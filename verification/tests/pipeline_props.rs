use tracepipe::codec::{extract, HeaderCarrier, TraceContext};
use tracepipe::exporter::{backoff_nanos, default_config, BatchExporter, ExporterConfig};
use tracepipe::registry::TracerRegistry;
use tracepipe::scope::{make_record, CorrelationStack, LogLevel};
use tracepipe::span::{AttrValue, Span, SpanRecord, SpanStatus};

fn record(n: u64) -> SpanRecord {
    SpanRecord {
        trace_id: 0x10 + n as u128,
        span_id: 1 + n,
        parent_span_id: None,
        trace_flags: 1,
        name: String::from("work"),
        start_time: n,
        end_time: n + 5,
        status: SpanStatus::Unset,
        attributes: Vec::new(),
        events: Vec::new(),
    }
}

fn small_config() -> ExporterConfig {
    ExporterConfig {
        max_batch: 2,
        flush_interval: 100,
        queue_ceiling: 4,
        max_attempts: 2,
        base_backoff: 10,
    }
}

#[test]
fn child_span_inherits_parent_context() {
    let parent = TraceContext {
        trace_id: 0x4bf92f3577b34da6a3ce929d0e0e4736,
        span_id: 0x00f067aa0ba902b7,
        trace_flags: 1,
        is_remote: true,
    };
    let s = Span::new(String::from("child"), Some(parent), 77, 88, 1000);
    assert_eq!(s.trace_id, parent.trace_id);
    assert_eq!(s.parent_span_id, Some(parent.span_id));
    assert_eq!(s.trace_flags, 1);
    assert_eq!(s.span_id, 88);
}

#[test]
fn root_span_has_no_parent_and_nonzero_trace_id() {
    let reg = TracerRegistry::init(String::from("svc"), default_config());
    let s = reg.start_span(String::from("root"), None);
    assert_eq!(s.parent_span_id, None);
    assert_ne!(s.trace_id, 0);
    assert_ne!(s.span_id, 0);
    assert!(s.end_time.is_none());
}

#[test]
fn end_to_end_child_from_canonical_header() {
    let mut c = HeaderCarrier::new();
    c.append_str("traceparent", "00-4bf92f3577b34da6a3ce929d0e0e4736-00f067aa0ba902b7-01");
    let parent = extract(&c).expect("canonical header must extract");
    assert_eq!(parent.trace_id, 0x4bf92f3577b34da6a3ce929d0e0e4736u128);
    assert_eq!(parent.span_id, 0x00f067aa0ba902b7u64);
    assert!(parent.sampled());
    let reg = TracerRegistry::init(String::from("svc"), default_config());
    let child = reg.start_span(String::from("handle"), Some(parent));
    assert_eq!(child.trace_id, parent.trace_id);
    assert_ne!(child.span_id, 0);
    assert_ne!(child.span_id, parent.span_id);
}

#[test]
fn ending_twice_enqueues_exactly_once() {
    let mut reg = TracerRegistry::init(String::from("svc"), default_config());
    let mut s = reg.start_span(String::from("once"), None);
    let first = reg.end_span(&mut s);
    assert!(first);
    assert_eq!(reg.exporter.queue.len(), 1);
    let second = reg.end_span(&mut s);
    assert!(!second);
    assert_eq!(reg.exporter.queue.len(), 1);
}

#[test]
fn mutation_after_end_is_ignored() {
    let mut s = Span::new(String::from("w"), None, 5, 6, 100);
    s.set_attribute(String::from("k"), AttrValue::Int(1));
    s.set_status(SpanStatus::Done);
    let rec = s.end(150).expect("first end yields the record");
    assert_eq!(rec.attributes.len(), 1);
    assert_eq!(rec.end_time, 150);
    assert_eq!(rec.status, SpanStatus::Done);
    s.set_attribute(String::from("late"), AttrValue::Flag(true));
    s.add_event(String::from("late"), 160, Vec::new());
    s.set_status(SpanStatus::Failed);
    assert!(s.end(160).is_none());
    assert_eq!(s.end_time, Some(150));
    assert_eq!(s.status, SpanStatus::Done);
}

#[test]
fn end_time_never_precedes_start_time() {
    let mut s = Span::new(String::from("w"), None, 5, 6, 100);
    let rec = s.end(40).unwrap();
    assert_eq!(rec.start_time, 100);
    assert_eq!(rec.end_time, 100);
}

#[test]
fn events_and_attributes_are_recorded_in_order() {
    let mut s = Span::new(String::from("w"), None, 5, 6, 0);
    s.set_attribute(String::from("a"), AttrValue::Text(String::from("x")));
    s.set_attribute(String::from("b"), AttrValue::Int(2));
    s.add_event(String::from("e1"), 1, vec![(String::from("foo"), AttrValue::Text(String::from("1")))]);
    s.add_event(String::from("e2"), 2, Vec::new());
    let rec = s.end(9).unwrap();
    assert_eq!(rec.attributes[0].0, "a");
    assert_eq!(rec.attributes[1].0, "b");
    assert_eq!(rec.events[0].name, "e1");
    assert_eq!(rec.events[1].name, "e2");
    assert_eq!(rec.events[0].attributes.len(), 1);
}

#[test]
fn queue_never_exceeds_ceiling_under_sink_failure() {
    let mut e = BatchExporter::new(small_config());
    let mut now = 0u64;
    for n in 0..20u64 {
        e.enqueue(record(n), now);
        assert!(e.queue.len() <= 4);
        if e.sending.is_none() && e.ready_to_flush(now) {
            e.start_flush(now);
        }
        if e.sending_due(now) {
            e.on_send_result(false, now);
        }
        now += 1;
    }
    assert!(e.queue.len() <= 4);
    assert!(e.dropped_overflow > 0 || e.dropped_failed > 0);
}

#[test]
fn overflow_drops_newest_and_counts() {
    let mut e = BatchExporter::new(small_config());
    for n in 0..6u64 {
        let accepted = e.enqueue(record(n), 0);
        assert_eq!(accepted, n < 4);
    }
    assert_eq!(e.queue.len(), 4);
    assert_eq!(e.dropped_overflow, 2);
    assert_eq!(e.queue[0].span_id, 1);
    assert_eq!(e.queue[3].span_id, 4);
}

#[test]
fn batch_cut_at_size_threshold() {
    let mut e = BatchExporter::new(default_config());
    for n in 0..511u64 {
        e.enqueue(record(n), 0);
    }
    assert!(!e.ready_to_flush(0));
    e.enqueue(record(511), 0);
    assert!(e.ready_to_flush(0));
    assert!(e.start_flush(0));
    assert_eq!(e.sending.as_ref().unwrap().spans.len(), 512);
    assert_eq!(e.queue.len(), 0);
}

#[test]
fn batch_cut_at_time_threshold() {
    let mut e = BatchExporter::new(default_config());
    e.enqueue(record(0), 1_000);
    assert!(!e.ready_to_flush(1_000));
    assert!(!e.ready_to_flush(5_000_000_999));
    assert!(e.ready_to_flush(5_000_001_000));
    assert!(e.start_flush(5_000_001_000));
    assert_eq!(e.sending.as_ref().unwrap().spans.len(), 1);
}

#[test]
fn batch_cut_takes_front_and_leaves_rest() {
    let mut e = BatchExporter::new(small_config());
    for n in 0..3u64 {
        e.enqueue(record(n), 0);
    }
    assert!(e.start_flush(0));
    let batch = &e.sending.as_ref().unwrap().spans;
    assert_eq!(batch.len(), 2);
    assert_eq!(batch[0].span_id, 1);
    assert_eq!(batch[1].span_id, 2);
    assert_eq!(e.queue.len(), 1);
    assert_eq!(e.queue[0].span_id, 3);
}

#[test]
fn successful_send_discards_batch() {
    let mut e = BatchExporter::new(small_config());
    e.enqueue(record(0), 0);
    e.enqueue(record(1), 0);
    assert!(e.start_flush(0));
    e.on_send_result(true, 1);
    assert!(e.sending.is_none());
    assert_eq!(e.dropped_failed, 0);
}

#[test]
fn failed_send_backs_off_then_drops_after_budget() {
    let mut e = BatchExporter::new(small_config());
    e.enqueue(record(0), 0);
    e.enqueue(record(1), 0);
    assert!(e.start_flush(0));
    e.on_send_result(false, 0);
    let p = e.sending.as_ref().expect("one retry remains");
    assert_eq!(p.attempts, 1);
    assert_eq!(p.not_before, 20);
    assert!(!e.sending_due(19));
    assert!(e.sending_due(20));
    e.on_send_result(false, 20);
    assert!(e.sending.is_none());
    assert_eq!(e.dropped_failed, 2);
}

#[test]
fn backoff_doubles_and_saturates() {
    assert_eq!(backoff_nanos(10, 0), 10);
    assert_eq!(backoff_nanos(10, 1), 20);
    assert_eq!(backoff_nanos(10, 3), 80);
    assert_eq!(backoff_nanos(u64::MAX / 2 + 1, 1), u64::MAX);
    assert_eq!(backoff_nanos(u64::MAX, 4), u64::MAX);
}

#[test]
fn final_flush_cuts_without_threshold() {
    let mut e = BatchExporter::new(default_config());
    e.enqueue(record(0), 0);
    assert!(!e.ready_to_flush(1));
    assert!(e.start_final_flush(1));
    assert_eq!(e.sending.as_ref().unwrap().spans.len(), 1);
    assert_eq!(e.queue.len(), 0);
    assert!(!e.start_final_flush(2));
}

#[test]
fn record_inside_scope_carries_hex_identifiers() {
    let outer = Span::new(String::from("outer"), None, 0x4bf92f3577b34da6a3ce929d0e0e4736, 0x00f067aa0ba902b7, 0);
    let mut stack = CorrelationStack::new();
    stack.bind(&outer);
    let r = make_record(&stack, LogLevel::Info, String::from("hello"), 7, Vec::new());
    assert_eq!(r.trace_id_hex.as_deref(), Some(b"4bf92f3577b34da6a3ce929d0e0e4736".as_slice()));
    assert_eq!(r.span_id_hex.as_deref(), Some(b"00f067aa0ba902b7".as_slice()));
    assert_eq!(r.timestamp, 7);
}

#[test]
fn nested_scope_shadows_and_restores() {
    let outer = Span::new(String::from("outer"), None, 0xa1, 0xb1, 0);
    let inner = Span::new(String::from("inner"), None, 0xa2, 0xb2, 0);
    let mut stack = CorrelationStack::new();
    stack.bind(&outer);
    stack.bind(&inner);
    let r_inner = make_record(&stack, LogLevel::Debug, String::from("in"), 1, Vec::new());
    assert_eq!(r_inner.span_id_hex.as_deref(), Some(b"00000000000000b2".as_slice()));
    assert_eq!(stack.unbind(), Some((0xa2, 0xb2)));
    let r_outer = make_record(&stack, LogLevel::Warn, String::from("out"), 2, Vec::new());
    assert_eq!(r_outer.span_id_hex.as_deref(), Some(b"00000000000000b1".as_slice()));
    assert_eq!(stack.unbind(), Some((0xa1, 0xb1)));
}

#[test]
fn record_outside_any_scope_carries_no_identifiers() {
    let mut stack = CorrelationStack::new();
    let r = make_record(&stack, LogLevel::Error, String::from("bare"), 3, Vec::new());
    assert!(r.trace_id_hex.is_none());
    assert!(r.span_id_hex.is_none());
    assert_eq!(stack.unbind(), None);
    let fields = vec![(String::from("k"), String::from("v"))];
    let r2 = make_record(&stack, LogLevel::Info, String::from("kv"), 4, fields);
    assert_eq!(r2.fields.len(), 1);
}

#[test]
fn shutdown_abandons_and_counts_everything_resident() {
    let mut reg = TracerRegistry::init(String::from("svc"), small_config());
    assert!(reg.is_running());
    let mut a = reg.start_span(String::from("a"), None);
    let mut b = reg.start_span(String::from("b"), None);
    reg.end_span(&mut a);
    reg.end_span(&mut b);
    assert_eq!(reg.exporter.queue.len(), 2);
    reg.shutdown();
    assert!(!reg.is_running());
    assert_eq!(reg.exporter.queue.len(), 0);
    assert!(reg.exporter.sending.is_none());
    assert_eq!(reg.exporter.dropped_failed, 2);
}
