use tracepipe::codec::{extract, inject, parse_traceparent, render_traceparent, HeaderCarrier, TraceContext};

fn carrier_with(name: &str, value: &str) -> HeaderCarrier {
    let mut c = HeaderCarrier::new();
    c.append_str(name, value);
    c
}

const CANONICAL: &str = "00-4bf92f3577b34da6a3ce929d0e0e4736-00f067aa0ba902b7-01";

#[test]
fn extracts_canonical_header() {
    let c = carrier_with("traceparent", CANONICAL);
    let ctx = extract(&c).expect("canonical header must extract");
    assert_eq!(ctx.trace_id, 0x4bf92f3577b34da6a3ce929d0e0e4736u128);
    assert_eq!(ctx.span_id, 0x00f067aa0ba902b7u64);
    assert_eq!(ctx.trace_flags, 0x01);
    assert!(ctx.sampled());
    assert!(ctx.is_remote);
}

#[test]
fn header_name_lookup_is_case_insensitive() {
    let c = carrier_with("TraceParent", CANONICAL);
    assert!(extract(&c).is_some());
    let c2 = carrier_with("TRACEPARENT", CANONICAL);
    assert!(extract(&c2).is_some());
}

#[test]
fn first_matching_header_wins() {
    let mut c = HeaderCarrier::new();
    c.append_str("content-type", "text/plain");
    c.append_str("traceparent", CANONICAL);
    c.append_str("traceparent", "00-aaaaaaaaaaaaaaaaaaaaaaaaaaaaaaaa-bbbbbbbbbbbbbbbb-00");
    let ctx = extract(&c).expect("must extract the first match");
    assert_eq!(ctx.span_id, 0x00f067aa0ba902b7u64);
}

#[test]
fn extract_then_inject_reproduces_identical_string() {
    let c = carrier_with("traceparent", CANONICAL);
    let ctx = extract(&c).unwrap();
    let mut out = HeaderCarrier::new();
    inject(&ctx, &mut out);
    let got = out.get(b"traceparent").expect("injected header must be present");
    assert_eq!(got.as_slice(), CANONICAL.as_bytes());
}

#[test]
fn roundtrip_preserves_flags_verbatim() {
    let s = "00-000000000000000000000000000000ff-00000000000000ff-fe";
    let ctx = parse_traceparent(s.as_bytes()).unwrap();
    assert_eq!(ctx.trace_flags, 0xfe);
    assert!(!ctx.sampled());
    let rendered = render_traceparent(&ctx);
    assert_eq!(rendered.as_slice(), s.as_bytes());
}

#[test]
fn renders_canonical_form() {
    let ctx = TraceContext {
        trace_id: 0x4bf92f3577b34da6a3ce929d0e0e4736,
        span_id: 0x00f067aa0ba902b7,
        trace_flags: 1,
        is_remote: false,
    };
    let rendered = render_traceparent(&ctx);
    assert_eq!(rendered.as_slice(), CANONICAL.as_bytes());
}

#[test]
fn missing_header_extracts_nothing() {
    let c = HeaderCarrier::new();
    assert!(extract(&c).is_none());
    let c2 = carrier_with("content-type", "text/plain");
    assert!(extract(&c2).is_none());
}

#[test]
fn malformed_values_extract_nothing() {
    let bad = [
        "",
        "hello",
        "00",
        "00-4bf92f3577b34da6a3ce929d0e0e4736-00f067aa0ba902b7",
        "00-4bf92f3577b34da6a3ce929d0e0e4736-00f067aa0ba902b7-0",
        "00-4bf92f3577b34da6a3ce929d0e0e4736-00f067aa0ba902b7-011",
        "00-4BF92F3577B34DA6A3CE929D0E0E4736-00f067aa0ba902b7-01",
        "00-4bf92f3577b34da6a3ce929d0e0e473g-00f067aa0ba902b7-01",
        "01-4bf92f3577b34da6a3ce929d0e0e4736-00f067aa0ba902b7-01",
        "ff-4bf92f3577b34da6a3ce929d0e0e4736-00f067aa0ba902b7-01",
        "00_4bf92f3577b34da6a3ce929d0e0e4736-00f067aa0ba902b7-01",
        "00-4bf92f3577b34da6a3ce929d0e0e4736_00f067aa0ba902b7-01",
        "00-4bf92f3577b34da6a3ce929d0e0e4736-00f067aa0ba902b7_01",
    ];
    for value in bad {
        let c = carrier_with("traceparent", value);
        assert!(extract(&c).is_none(), "{value:?} must not extract");
    }
}

#[test]
fn all_zero_identifiers_are_invalid() {
    let zero_trace = "00-00000000000000000000000000000000-00f067aa0ba902b7-01";
    let zero_span = "00-4bf92f3577b34da6a3ce929d0e0e4736-0000000000000000-01";
    assert!(parse_traceparent(zero_trace.as_bytes()).is_none());
    assert!(parse_traceparent(zero_span.as_bytes()).is_none());
}
