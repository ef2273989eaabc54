//! Span recorder.
//!
//! A span is one timed unit of work inside a trace. It is exclusively
//! owned and mutated by the task that started it; ending it freezes it
//! and yields a record whose ownership passes to the batch exporter.
//! Ending is idempotent: only the first call yields a record, so a
//! span is handed over for export at most once. Mutations after the
//! end are silently ignored.

use vstd::prelude::*;
use crate::codec::TraceContext;

verus! {

/// A scalar attribute value.
#[derive(Debug)]
pub enum AttrValue {
    Text(String),
    Int(i64),
    Flag(bool),
}

/// A timed event recorded on a span.
#[derive(Debug)]
pub struct SpanEvent {
    pub name: String,
    pub timestamp: u64,
    pub attributes: Vec<(String, AttrValue)>,
}

/// Completion status of a span.
#[derive(Clone, Copy, PartialEq, Eq, Structural, Debug)]
pub enum SpanStatus {
    Unset,
    Done,
    Failed,
}

/// An in-flight unit of work.
pub struct Span {
    pub trace_id: u128,
    pub span_id: u64,
    pub parent_span_id: Option<u64>,
    pub trace_flags: u8,
    pub name: String,
    pub start_time: u64,
    pub end_time: Option<u64>,
    pub status: SpanStatus,
    pub attributes: Vec<(String, AttrValue)>,
    pub events: Vec<SpanEvent>,
}

/// The frozen form of an ended span, as the exporter queues it.
pub struct SpanRecord {
    pub trace_id: u128,
    pub span_id: u64,
    pub parent_span_id: Option<u64>,
    pub trace_flags: u8,
    pub name: String,
    pub start_time: u64,
    pub end_time: u64,
    pub status: SpanStatus,
    pub attributes: Vec<(String, AttrValue)>,
    pub events: Vec<SpanEvent>,
}

impl SpanRecord {
    /// An ended span's record closes no earlier than it opened.
    pub open spec fn wf(&self) -> bool {
        self.trace_id != 0 && self.span_id != 0 && self.start_time <= self.end_time
    }
}

/// The record an ending span yields when the clock reads `now`: its
/// fields frozen, with the end time clamped so it never precedes the
/// start time.
pub open spec fn export_record(s: Span, now: u64) -> SpanRecord {
    SpanRecord {
        trace_id: s.trace_id,
        span_id: s.span_id,
        parent_span_id: s.parent_span_id,
        trace_flags: s.trace_flags,
        name: s.name,
        start_time: s.start_time,
        end_time: if now >= s.start_time {
            now
        } else {
            s.start_time
        },
        status: s.status,
        attributes: s.attributes,
        events: s.events,
    }
}

/// Two spans describe the same unit of work: identifiers, linkage,
/// name and start time all agree.
pub open spec fn same_identity(a: Span, b: Span) -> bool {
    &&& a.trace_id == b.trace_id
    &&& a.span_id == b.span_id
    &&& a.parent_span_id == b.parent_span_id
    &&& a.trace_flags == b.trace_flags
    &&& a.start_time == b.start_time
}

impl Span {
    /// The span has ended and is frozen.
    pub open spec fn is_ended(&self) -> bool {
        self.end_time is Some
    }

    /// Identifiers are not the reserved zero values and the end time,
    /// once set, does not precede the start time.
    pub open spec fn wf(&self) -> bool {
        &&& self.trace_id != 0
        &&& self.span_id != 0
        &&& (self.end_time matches Some(e) ==> self.start_time <= e)
    }

    /// The context this span would propagate to its own children.
    pub open spec fn spec_context(&self) -> TraceContext {
        TraceContext {
            trace_id: self.trace_id,
            span_id: self.span_id,
            trace_flags: self.trace_flags,
            is_remote: false,
        }
    }

    /// The outbound context of this span.
    pub fn context(&self) -> (c: TraceContext)
        ensures
            c == self.spec_context(),
    {
        TraceContext {
            trace_id: self.trace_id,
            span_id: self.span_id,
            trace_flags: self.trace_flags,
            is_remote: false,
        }
    }

    /// Start a span at time `now`. With a parent context present the
    /// span joins the parent's trace and records the parent's span id;
    /// without one it roots a new trace under the freshly generated
    /// trace id. The span id is always the freshly generated one.
    pub fn new(
        name: String,
        parent: Option<TraceContext>,
        fresh_trace_id: u128,
        fresh_span_id: u64,
        now: u64,
    ) -> (s: Span)
        requires
            fresh_trace_id != 0,
            fresh_span_id != 0,
            parent matches Some(p) ==> p.wf(),
        ensures
            s.wf(),
            !s.is_ended(),
            parent matches Some(p) ==> s.trace_id == p.trace_id && s.parent_span_id == Some(
                p.span_id,
            ) && s.trace_flags == p.trace_flags,
            parent is None ==> s.trace_id == fresh_trace_id && s.parent_span_id is None
                && s.trace_flags == 1,
            s.span_id == fresh_span_id,
            s.name == name,
            s.start_time == now,
            s.status == SpanStatus::Unset,
            s.attributes@.len() == 0,
            s.events@.len() == 0,
    {
        match parent {
            Some(p) => Span {
                trace_id: p.trace_id,
                span_id: fresh_span_id,
                parent_span_id: Some(p.span_id),
                trace_flags: p.trace_flags,
                name,
                start_time: now,
                end_time: None,
                status: SpanStatus::Unset,
                attributes: Vec::new(),
                events: Vec::new(),
            },
            None => Span {
                trace_id: fresh_trace_id,
                span_id: fresh_span_id,
                parent_span_id: None,
                trace_flags: 1,
                name,
                start_time: now,
                end_time: None,
                status: SpanStatus::Unset,
                attributes: Vec::new(),
                events: Vec::new(),
            },
        }
    }

    /// Append an attribute. After the span has ended this is a no-op.
    pub fn set_attribute(&mut self, key: String, value: AttrValue)
        ensures
            same_identity(*final(self), *old(self)),
            final(self).name == old(self).name,
            final(self).end_time == old(self).end_time,
            final(self).status == old(self).status,
            final(self).events == old(self).events,
            old(self).is_ended() ==> *final(self) == *old(self),
            !old(self).is_ended() ==> final(self).attributes@ == old(self).attributes@.push(
                (key, value),
            ),
    {
        if self.end_time.is_some() {
            return ;
        }
        self.attributes.push((key, value));
    }

    /// Append an event. After the span has ended this is a no-op.
    pub fn add_event(&mut self, name: String, timestamp: u64, attributes: Vec<(String, AttrValue)>)
        ensures
            same_identity(*final(self), *old(self)),
            final(self).name == old(self).name,
            final(self).end_time == old(self).end_time,
            final(self).status == old(self).status,
            final(self).attributes == old(self).attributes,
            old(self).is_ended() ==> *final(self) == *old(self),
            !old(self).is_ended() ==> final(self).events@ == old(self).events@.push(
                SpanEvent { name, timestamp, attributes },
            ),
    {
        if self.end_time.is_some() {
            return ;
        }
        self.events.push(SpanEvent { name, timestamp, attributes });
    }

    /// Set the completion status. After the span has ended this is a
    /// no-op.
    pub fn set_status(&mut self, status: SpanStatus)
        ensures
            same_identity(*final(self), *old(self)),
            final(self).name == old(self).name,
            final(self).end_time == old(self).end_time,
            final(self).attributes == old(self).attributes,
            final(self).events == old(self).events,
            old(self).is_ended() ==> *final(self) == *old(self),
            !old(self).is_ended() ==> final(self).status == status,
    {
        if self.end_time.is_some() {
            return ;
        }
        self.status = status;
    }

    /// End the span at time `now`. The first call freezes the span and
    /// yields its export record, whose ownership passes to the caller
    /// (and from there to the exporter's queue); the recorded payload
    /// moves out with it. Any later call yields nothing and changes
    /// nothing, so one span can never produce two export records.
    pub fn end(&mut self, now: u64) -> (r: Option<SpanRecord>)
        ensures
            old(self).is_ended() ==> r is None && *final(self) == *old(self),
            !old(self).is_ended() ==> r == Some(export_record(*old(self), now)),
            final(self).is_ended(),
            same_identity(*final(self), *old(self)),
            old(self).wf() ==> final(self).wf(),
            old(self).wf() ==> (r matches Some(rec) ==> rec.wf()),
    {
        if self.end_time.is_some() {
            return None;
        }
        let end_time: u64 = if now >= self.start_time {
            now
        } else {
            self.start_time
        };
        self.end_time = Some(end_time);
        let mut name: String = String::new();
        let mut attributes: Vec<(String, AttrValue)> = Vec::new();
        let mut events: Vec<SpanEvent> = Vec::new();
        core::mem::swap(&mut name, &mut self.name);
        core::mem::swap(&mut attributes, &mut self.attributes);
        core::mem::swap(&mut events, &mut self.events);
        Some(
            SpanRecord {
                trace_id: self.trace_id,
                span_id: self.span_id,
                parent_span_id: self.parent_span_id,
                trace_flags: self.trace_flags,
                name,
                start_time: self.start_time,
                end_time,
                status: self.status,
                attributes,
                events,
            },
        )
    }
}

} // verus!
