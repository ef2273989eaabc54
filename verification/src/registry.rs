//! Process-wide tracer registry.
//!
//! One registry is constructed at process start and torn down at
//! process stop; request-handling code reaches it by reference. It
//! holds the exporter and the span-creation authority. Starting a
//! span draws fresh identifiers and the clock from the host; ending a
//! span freezes it and hands its record to the exporter exactly once.
//! Shutdown is for the very end of the process: the surrounding
//! process first drives the exporter to drain within its grace
//! period, then `shutdown` abandons whatever remains, so export can
//! never block termination.

use vstd::prelude::*;
use crate::codec::TraceContext;
use crate::span::{Span, export_record, same_identity};
use crate::exporter::{BatchExporter, ExporterConfig, sat_add64};
use crate::host::{fresh_trace_id, fresh_span_id, now_unix_nanos};

verus! {

/// The registry: service identity, lifecycle state, and the exporter.
pub struct TracerRegistry {
    pub service_name: String,
    pub exporter: BatchExporter,
    pub running: bool,
}

impl TracerRegistry {
    /// The registry's invariant: its exporter is well formed.
    pub open spec fn wf(&self) -> bool {
        self.exporter.wf()
    }

    /// Construct the registry, once, before the first request is
    /// served. Spans can be started until `shutdown`.
    pub fn init(service_name: String, config: ExporterConfig) -> (r: TracerRegistry)
        requires
            config.wf(),
        ensures
            r.wf(),
            r.running,
            r.service_name == service_name,
            r.exporter.config == config,
            r.exporter.queue@.len() == 0,
            r.exporter.sending is None,
            r.exporter.dropped_overflow == 0,
            r.exporter.dropped_failed == 0,
    {
        TracerRegistry { service_name, exporter: BatchExporter::new(config), running: true }
    }

    /// Whether the registry is between `init` and `shutdown`.
    pub fn is_running(&self) -> (r: bool)
        ensures
            r == self.running,
    {
        self.running
    }

    /// Start a span. With a parent context present, the span joins
    /// the parent's trace and records the parent's span id; without
    /// one it roots a new trace under a freshly drawn non-zero trace
    /// id. Its own span id is always freshly drawn and non-zero, and
    /// its start time is read from the clock.
    pub fn start_span(&self, name: String, parent: Option<TraceContext>) -> (s: Span)
        requires
            self.running,
            parent matches Some(p) ==> p.wf(),
        ensures
            s.wf(),
            !s.is_ended(),
            parent matches Some(p) ==> s.trace_id == p.trace_id && s.parent_span_id == Some(
                p.span_id,
            ) && s.trace_flags == p.trace_flags,
            parent is None ==> s.parent_span_id is None,
            s.trace_id != 0,
            s.span_id != 0,
            s.name == name,
            s.attributes@.len() == 0,
            s.events@.len() == 0,
    {
        let trace_id = fresh_trace_id();
        let span_id = fresh_span_id();
        let now = now_unix_nanos();
        Span::new(name, parent, trace_id, span_id, now)
    }

    /// End a span at time `now` and hand its record to the exporter.
    /// Only the first call for a span enqueues anything: a span that
    /// has already ended leaves both the span and the registry exactly
    /// as they were, so no span is ever queued for export twice.
    pub fn end_span_at(&mut self, span: &mut Span, now: u64) -> (enqueued: bool)
        requires
            old(self).wf(),
            old(self).running,
        ensures
            final(self).wf(),
            final(self).running,
            final(self).service_name == old(self).service_name,
            final(self).exporter.config == old(self).exporter.config,
            old(span).is_ended() ==> !enqueued && *final(self) == *old(self) && *final(span)
                == *old(span),
            !old(span).is_ended() ==> final(span).is_ended() && same_identity(
                *final(span),
                *old(span),
            ) && enqueued == (old(self).exporter.queue@.len()
                < old(self).exporter.config.queue_ceiling),
            !old(span).is_ended() && enqueued ==> final(self).exporter.queue@ == old(
                self,
            ).exporter.queue@.push(export_record(*old(span), now)),
            !old(span).is_ended() && !enqueued ==> final(self).exporter.queue == old(
                self,
            ).exporter.queue && final(self).exporter.dropped_overflow == sat_add64(
                old(self).exporter.dropped_overflow,
                1,
            ),
    {
        match span.end(now) {
            None => false,
            Some(rec) => self.exporter.enqueue(rec, now),
        }
    }

    /// End a span at the clock's current reading. Whatever the clock
    /// returned, an accepted span lands at the back of the queue with
    /// this span's identifiers, and a span that had already ended
    /// changes nothing at all.
    pub fn end_span(&mut self, span: &mut Span) -> (enqueued: bool)
        requires
            old(self).wf(),
            old(self).running,
        ensures
            final(self).wf(),
            final(self).running,
            final(self).service_name == old(self).service_name,
            final(self).exporter.config == old(self).exporter.config,
            old(span).is_ended() ==> !enqueued && *final(self) == *old(self) && *final(span)
                == *old(span),
            !old(span).is_ended() ==> final(span).is_ended() && same_identity(
                *final(span),
                *old(span),
            ) && enqueued == (old(self).exporter.queue@.len()
                < old(self).exporter.config.queue_ceiling),
            !old(span).is_ended() && enqueued ==> final(self).exporter.queue@.len() == old(
                self,
            ).exporter.queue@.len() + 1 && final(self).exporter.queue@.last().trace_id == old(
                span,
            ).trace_id && final(self).exporter.queue@.last().span_id == old(span).span_id,
    {
        let now = now_unix_nanos();
        self.end_span_at(span, now)
    }

    /// Tear the registry down at process stop. The exporter's
    /// remaining spans — already past their drain grace period — are
    /// abandoned and counted, and no further span may be started.
    pub fn shutdown(&mut self)
        requires
            old(self).wf(),
        ensures
            final(self).wf(),
            !final(self).running,
            final(self).service_name == old(self).service_name,
            final(self).exporter.config == old(self).exporter.config,
            final(self).exporter.queue@.len() == 0,
            final(self).exporter.sending is None,
            final(self).exporter.dropped_overflow == old(self).exporter.dropped_overflow,
            final(self).exporter.dropped_failed == sat_add64(
                sat_add64(
                    old(self).exporter.dropped_failed,
                    old(self).exporter.queue@.len() as u64,
                ),
                old(self).exporter.spec_sending_len() as u64,
            ),
    {
        self.exporter.discard_pending();
        self.running = false;
    }
}

} // verus!
