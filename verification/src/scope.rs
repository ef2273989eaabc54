//! Correlation bridge.
//!
//! While a span is active, its trace and span identifiers are bound
//! onto an ambient stack of correlation scopes; nested bindings shadow
//! outer ones and unbinding restores the previous binding. Every log
//! record built while a binding is active carries the bound
//! identifiers in their canonical hex forms (32 and 16 lowercase
//! digits), so logs and traces can be joined afterwards; a record
//! built outside any binding carries neither.

use vstd::prelude::*;
use crate::hex::{hex_render, lemma_pow16_widths, render_hex};
use crate::span::Span;

verus! {

/// Severity of a log record.
#[derive(Clone, Copy, PartialEq, Eq, Structural, Debug)]
pub enum LogLevel {
    Debug,
    Info,
    Warn,
    Error,
}

/// A structured log record: severity, message, timestamp, arbitrary
/// caller-supplied fields, and — while a correlation scope is bound —
/// the canonical hex forms of the active trace and span identifiers.
pub struct LogRecord {
    pub level: LogLevel,
    pub message: String,
    pub timestamp: u64,
    pub fields: Vec<(String, String)>,
    pub trace_id_hex: Option<Vec<u8>>,
    pub span_id_hex: Option<Vec<u8>>,
}

/// The ambient stack of correlation scopes of one task: each frame is
/// the `(trace_id, span_id)` pair of a span that is active there.
pub struct CorrelationStack {
    frames: Vec<(u128, u64)>,
}

impl View for CorrelationStack {
    type V = Seq<(u128, u64)>;

    closed spec fn view(&self) -> Seq<(u128, u64)> {
        self.frames@
    }
}

impl CorrelationStack {
    /// The innermost binding, if any: nested bindings shadow outer
    /// ones.
    pub open spec fn active(&self) -> Option<(u128, u64)> {
        if self@.len() == 0 {
            Option::None
        } else {
            Option::Some(self@.last())
        }
    }

    /// A stack with no binding.
    pub fn new() -> (r: CorrelationStack)
        ensures
            r@ == Seq::<(u128, u64)>::empty(),
    {
        CorrelationStack { frames: Vec::new() }
    }

    /// Bind a span's identifiers for the work that follows, shadowing
    /// any outer binding until `unbind` is called.
    pub fn bind(&mut self, span: &Span)
        ensures
            final(self)@ == old(self)@.push((span.trace_id, span.span_id)),
            final(self).active() == Option::Some((span.trace_id, span.span_id)),
    {
        self.frames.push((span.trace_id, span.span_id));
    }

    /// Remove the innermost binding, restoring the one it shadowed.
    /// With nothing bound this changes nothing.
    pub fn unbind(&mut self) -> (r: Option<(u128, u64)>)
        ensures
            old(self)@.len() == 0 ==> r is None && *final(self) == *old(self),
            old(self)@.len() > 0 ==> r == Option::Some(old(self)@.last()) && final(self)@ == old(
                self,
            )@.drop_last(),
    {
        if self.frames.len() == 0 {
            return None;
        }
        self.frames.pop()
    }

    /// The innermost binding.
    pub fn current(&self) -> (r: Option<(u128, u64)>)
        ensures
            r == self.active(),
    {
        if self.frames.len() == 0 {
            None
        } else {
            let pair = self.frames[self.frames.len() - 1];
            Some(pair)
        }
    }
}

/// Build a structured log record under the ambient correlation stack.
/// Inside a bound scope the record carries exactly the active span's
/// trace and span identifiers, rendered as 32 and 16 lowercase hex
/// digits; outside any scope it carries neither.
pub fn make_record(
    stack: &CorrelationStack,
    level: LogLevel,
    message: String,
    timestamp: u64,
    fields: Vec<(String, String)>,
) -> (r: LogRecord)
    ensures
        r.level == level,
        r.message == message,
        r.timestamp == timestamp,
        r.fields == fields,
        stack.active() matches Some(ids) ==> (r.trace_id_hex matches Some(t) && t@ == hex_render(
            ids.0 as nat,
            32,
        )) && (r.span_id_hex matches Some(s) && s@ == hex_render(ids.1 as nat, 16)),
        stack.active() is None ==> r.trace_id_hex is None && r.span_id_hex is None,
{
    proof {
        lemma_pow16_widths();
    }
    match stack.current() {
        Some((trace_id, span_id)) => {
            let t = render_hex(trace_id, 32);
            let s = render_hex(span_id as u128, 16);
            LogRecord {
                level,
                message,
                timestamp,
                fields,
                trace_id_hex: Some(t),
                span_id_hex: Some(s),
            }
        },
        None => LogRecord {
            level,
            message,
            timestamp,
            fields,
            trace_id_hex: None,
            span_id_hex: None,
        },
    }
}

} // verus!
