//! Batch exporter.
//!
//! Finished spans accumulate in a bounded queue and are flushed to an
//! abstract sink as batches. A batch is cut when the accumulating
//! queue reaches the configured batch size or when the configured
//! interval has elapsed since the queue last became non-empty,
//! whichever comes first. The sink call itself happens outside this
//! module: the surrounding process asks for the pending batch, performs
//! the send, and reports the outcome back. A failed send is retried a
//! bounded number of times with doubling backoff; past the budget the
//! batch is dropped and counted. When the queue is at its ceiling the
//! newest span is dropped and counted, so the resident queue can never
//! grow without bound and a producer is never blocked.

use vstd::prelude::*;
use crate::span::SpanRecord;

verus! {

/// Saturating addition on `u64`.
pub open spec fn sat_add64(a: u64, b: u64) -> u64 {
    if a + b > u64::MAX {
        u64::MAX
    } else {
        (a + b) as u64
    }
}

/// The retry delay after `n` doublings of `base`, saturating.
pub open spec fn spec_backoff(base: u64, n: nat) -> u64
    decreases n,
{
    if n == 0 {
        base
    } else {
        let p = spec_backoff(base, (n - 1) as nat);
        if p > u64::MAX / 2 {
            u64::MAX
        } else {
            (2 * p) as u64
        }
    }
}

/// The retry delay after `n` doublings of `base`, executably.
pub fn backoff_nanos(base: u64, n: u32) -> (r: u64)
    ensures
        r == spec_backoff(base, n as nat),
    decreases n,
{
    if n == 0 {
        base
    } else {
        let p = backoff_nanos(base, n - 1);
        if p > u64::MAX / 2 {
            u64::MAX
        } else {
            2 * p
        }
    }
}

/// Exporter tuning: batch size and flush interval, the queue's hard
/// ceiling, and the retry budget with its base backoff delay.
#[derive(Clone, Copy, PartialEq, Eq, Structural, Debug)]
pub struct ExporterConfig {
    pub max_batch: usize,
    pub flush_interval: u64,
    pub queue_ceiling: usize,
    pub max_attempts: u32,
    pub base_backoff: u64,
}

impl ExporterConfig {
    /// Batches hold at least one span, the ceiling admits at least one
    /// batch, and at least one send attempt is made.
    pub open spec fn wf(&self) -> bool {
        1 <= self.max_batch <= self.queue_ceiling && self.max_attempts >= 1
    }
}

/// The stock configuration: batches of 512 spans flushed at least
/// every 5 seconds, a ceiling of ten batches, three send attempts,
/// one second of base backoff.
pub fn default_config() -> (c: ExporterConfig)
    ensures
        c.wf(),
        c.max_batch == 512,
        c.flush_interval == 5_000_000_000,
        c.queue_ceiling == 5120,
        c.max_attempts == 3,
        c.base_backoff == 1_000_000_000,
{
    ExporterConfig {
        max_batch: 512,
        flush_interval: 5_000_000_000,
        queue_ceiling: 5120,
        max_attempts: 3,
        base_backoff: 1_000_000_000,
    }
}

/// A batch that has been cut and is being sent: its spans, how many
/// attempts have already failed, and the earliest time the next
/// attempt is due.
pub struct PendingSend {
    pub spans: Vec<SpanRecord>,
    pub attempts: u32,
    pub not_before: u64,
}

/// The exporter's whole state: the accumulating queue, the time it
/// last became non-empty, the batch in flight if any, and the two drop
/// counters (overflow at the producer side, exhausted retries at the
/// sink side).
pub struct BatchExporter {
    pub config: ExporterConfig,
    pub queue: Vec<SpanRecord>,
    pub oldest_pending_since: Option<u64>,
    pub sending: Option<PendingSend>,
    pub dropped_overflow: u64,
    pub dropped_failed: u64,
}

/// How many spans the next cut takes: a full batch, or the whole
/// queue when it is shorter.
pub open spec fn flush_cut_count(e: BatchExporter) -> int {
    if e.queue@.len() <= e.config.max_batch {
        e.queue@.len() as int
    } else {
        e.config.max_batch as int
    }
}

impl BatchExporter {
    /// Number of spans held by the batch in flight.
    pub open spec fn spec_sending_len(&self) -> nat {
        match self.sending {
            Option::Some(p) => p.spans@.len(),
            Option::None => 0,
        }
    }

    /// All spans resident in the exporter.
    pub open spec fn resident(&self) -> nat {
        self.queue@.len() + self.spec_sending_len()
    }

    /// The exporter's invariant: the queue never exceeds its ceiling,
    /// a batch in flight is non-empty, no larger than a batch and
    /// still within its retry budget, and the accumulation timestamp
    /// is present exactly while the queue is non-empty.
    pub open spec fn wf(&self) -> bool {
        &&& self.config.wf()
        &&& self.queue@.len() <= self.config.queue_ceiling
        &&& (self.sending matches Some(p) ==> 1 <= p.spans@.len() <= self.config.max_batch
            && p.attempts < self.config.max_attempts)
        &&& (self.oldest_pending_since is Some <==> self.queue@.len() > 0)
    }

    /// A batch is due: the queue holds a full batch, or the interval
    /// has elapsed since it last became non-empty.
    pub open spec fn should_flush(&self, now: u64) -> bool {
        ||| self.queue@.len() >= self.config.max_batch
        ||| (self.oldest_pending_since matches Some(t) && now >= t && now - t
            >= self.config.flush_interval)
    }

    /// A fresh, empty exporter.
    pub fn new(config: ExporterConfig) -> (e: BatchExporter)
        requires
            config.wf(),
        ensures
            e.wf(),
            e.config == config,
            e.queue@.len() == 0,
            e.sending is None,
            e.oldest_pending_since is None,
            e.dropped_overflow == 0,
            e.dropped_failed == 0,
    {
        BatchExporter {
            config,
            queue: Vec::new(),
            oldest_pending_since: None,
            sending: None,
            dropped_overflow: 0,
            dropped_failed: 0,
        }
    }

    /// Accept a finished span into the accumulating queue, or drop it
    /// when the queue is already at its ceiling. Never blocks, never
    /// grows the queue past the ceiling, and counts every drop.
    pub fn enqueue(&mut self, span: SpanRecord, now: u64) -> (accepted: bool)
        requires
            old(self).wf(),
        ensures
            final(self).wf(),
            final(self).config == old(self).config,
            final(self).sending == old(self).sending,
            final(self).dropped_failed == old(self).dropped_failed,
            final(self).queue@.len() <= final(self).config.queue_ceiling,
            accepted == (old(self).queue@.len() < old(self).config.queue_ceiling),
            accepted ==> final(self).queue@ == old(self).queue@.push(span)
                && final(self).dropped_overflow == old(self).dropped_overflow && final(self).oldest_pending_since == (if old(self).queue@.len() == 0 {
                Some(now)
            } else {
                old(self).oldest_pending_since
            }),
            !accepted ==> final(self).queue == old(self).queue && final(self).dropped_overflow
                == sat_add64(old(self).dropped_overflow, 1) && final(self).oldest_pending_since
                == old(self).oldest_pending_since,
    {
        if self.queue.len() < self.config.queue_ceiling {
            if self.queue.len() == 0 {
                self.oldest_pending_since = Some(now);
            }
            self.queue.push(span);
            true
        } else {
            self.dropped_overflow = self.dropped_overflow.saturating_add(1);
            false
        }
    }

    /// Whether a batch is due now.
    pub fn ready_to_flush(&self, now: u64) -> (r: bool)
        ensures
            r == self.should_flush(now),
    {
        if self.queue.len() >= self.config.max_batch {
            return true;
        }
        match self.oldest_pending_since {
            Some(t) => now >= t && now - t >= self.config.flush_interval,
            None => false,
        }
    }

    /// Cut the next batch from the front of the queue, when one is due
    /// and none is already in flight. The batch moves into the sending
    /// slot with a fresh attempt budget; accumulation timing restarts
    /// for whatever remains queued.
    pub fn start_flush(&mut self, now: u64) -> (started: bool)
        requires
            old(self).wf(),
        ensures
            final(self).wf(),
            final(self).config == old(self).config,
            final(self).dropped_overflow == old(self).dropped_overflow,
            final(self).dropped_failed == old(self).dropped_failed,
            started == (old(self).sending is None && old(self).should_flush(now)),
            !started ==> *final(self) == *old(self),
            started ==> (final(self).sending matches Some(p)
                && p.spans@ == old(self).queue@.subrange(0, flush_cut_count(*old(self)))
                && p.attempts == 0 && p.not_before == now),
            started ==> final(self).queue@ == old(self).queue@.subrange(
                flush_cut_count(*old(self)),
                old(self).queue@.len() as int,
            ),
            started ==> final(self).oldest_pending_since == (if old(self).queue@.len()
                > flush_cut_count(*old(self)) {
                Option::Some(now)
            } else {
                Option::<u64>::None
            }),
    {
        if self.sending.is_some() {
            return false;
        }
        if !self.ready_to_flush(now) {
            return false;
        }
        self.cut_batch(now);
        true
    }

    /// Cut the next batch from the front of the queue even though no
    /// threshold has fired: the final flush attempt at shutdown takes
    /// whatever has accumulated. Cuts exactly when a batch could be
    /// cut at all — something is queued and nothing is in flight.
    pub fn start_final_flush(&mut self, now: u64) -> (started: bool)
        requires
            old(self).wf(),
        ensures
            final(self).wf(),
            final(self).config == old(self).config,
            final(self).dropped_overflow == old(self).dropped_overflow,
            final(self).dropped_failed == old(self).dropped_failed,
            started == (old(self).sending is None && old(self).queue@.len() > 0),
            !started ==> *final(self) == *old(self),
            started ==> (final(self).sending matches Some(p)
                && p.spans@ == old(self).queue@.subrange(0, flush_cut_count(*old(self)))
                && p.attempts == 0 && p.not_before == now),
            started ==> final(self).queue@ == old(self).queue@.subrange(
                flush_cut_count(*old(self)),
                old(self).queue@.len() as int,
            ),
    {
        if self.sending.is_some() {
            return false;
        }
        if self.queue.len() == 0 {
            return false;
        }
        self.cut_batch(now);
        true
    }

    /// Move the first batch-size spans of the queue into the sending
    /// slot with a fresh attempt budget; accumulation timing restarts
    /// for whatever remains queued.
    fn cut_batch(&mut self, now: u64)
        requires
            old(self).wf(),
            old(self).sending is None,
            old(self).queue@.len() > 0,
        ensures
            final(self).wf(),
            final(self).config == old(self).config,
            final(self).dropped_overflow == old(self).dropped_overflow,
            final(self).dropped_failed == old(self).dropped_failed,
            final(self).sending matches Some(p) && p.spans@ == old(self).queue@.subrange(
                0,
                flush_cut_count(*old(self)),
            ) && p.attempts == 0 && p.not_before == now,
            final(self).queue@ == old(self).queue@.subrange(
                flush_cut_count(*old(self)),
                old(self).queue@.len() as int,
            ),
            final(self).oldest_pending_since == (if old(self).queue@.len() > flush_cut_count(
                *old(self),
            ) {
                Option::Some(now)
            } else {
                Option::<u64>::None
            }),
    {
        let k: usize = if self.queue.len() <= self.config.max_batch {
            self.queue.len()
        } else {
            self.config.max_batch
        };
        let mut rest = self.queue.split_off(k);
        core::mem::swap(&mut self.queue, &mut rest);
        self.oldest_pending_since = if self.queue.len() > 0 {
            Some(now)
        } else {
            None
        };
        self.sending = Some(PendingSend { spans: rest, attempts: 0, not_before: now });
        proof {
            assert(old(self).queue@.subrange(0, old(self).queue@.len() as int) =~= old(self).queue@);
        }
    }

    /// Whether a send attempt is due: a batch is in flight and its
    /// backoff delay has passed.
    pub fn sending_due(&self, now: u64) -> (r: bool)
        ensures
            r == (self.sending matches Some(p) && now >= p.not_before),
    {
        match &self.sending {
            Some(p) => now >= p.not_before,
            None => false,
        }
    }

    /// The batch in flight, for the surrounding process to hand to the
    /// sink.
    pub fn sending_batch(&self) -> (r: Option<&Vec<SpanRecord>>)
        ensures
            r is Some <==> self.sending is Some,
            r matches Some(v) ==> self.sending matches Some(p) && v@ == p.spans@,
    {
        match &self.sending {
            Some(p) => Some(&p.spans),
            None => None,
        }
    }

    /// Record the sink's verdict on the batch in flight. Success
    /// discards the batch; failure either schedules a retry with a
    /// doubled backoff delay or, once the attempt budget is spent,
    /// drops the batch and adds its size to the failure counter.
    /// Neither outcome ever disturbs the accumulating queue.
    pub fn on_send_result(&mut self, ok: bool, now: u64)
        requires
            old(self).wf(),
            old(self).sending is Some,
        ensures
            final(self).wf(),
            final(self).config == old(self).config,
            final(self).queue == old(self).queue,
            final(self).oldest_pending_since == old(self).oldest_pending_since,
            final(self).dropped_overflow == old(self).dropped_overflow,
            ok ==> final(self).sending is None && final(self).dropped_failed == old(self).dropped_failed,
            !ok ==> (old(self).sending matches Some(p) ==> {
                &&& p.attempts + 1 >= old(self).config.max_attempts ==> final(self).sending is None
                    && final(self).dropped_failed == sat_add64(
                    old(self).dropped_failed,
                    p.spans@.len() as u64,
                )
                &&& p.attempts + 1 < old(self).config.max_attempts ==> (final(self).sending
                    matches Some(q) && q.spans == p.spans && q.attempts == p.attempts + 1
                    && q.not_before == sat_add64(
                    now,
                    spec_backoff(old(self).config.base_backoff, (p.attempts + 1) as nat),
                ) && final(self).dropped_failed == old(self).dropped_failed)
            }),
    {
        let mut pend: Option<PendingSend> = None;
        core::mem::swap(&mut pend, &mut self.sending);
        match pend {
            None => {
                proof {
                    assert(false);
                }
            },
            Some(mut p) => {
                if !ok {
                    let next_attempts = p.attempts + 1;
                    if next_attempts >= self.config.max_attempts {
                        let n: u64 = p.spans.len() as u64;
                        self.dropped_failed = self.dropped_failed.saturating_add(n);
                    } else {
                        let delay = backoff_nanos(self.config.base_backoff, next_attempts);
                        p.attempts = next_attempts;
                        p.not_before = now.saturating_add(delay);
                        self.sending = Some(p);
                    }
                }
            },
        }
    }

    /// Abandon everything resident: both the accumulating queue and
    /// any batch in flight are dropped and counted. Used at shutdown
    /// once the drain grace period has passed, so that export can
    /// never block process termination.
    pub fn discard_pending(&mut self)
        requires
            old(self).wf(),
        ensures
            final(self).wf(),
            final(self).config == old(self).config,
            final(self).queue@.len() == 0,
            final(self).sending is None,
            final(self).oldest_pending_since is None,
            final(self).dropped_overflow == old(self).dropped_overflow,
            final(self).dropped_failed == sat_add64(
                sat_add64(old(self).dropped_failed, old(self).queue@.len() as u64),
                old(self).spec_sending_len() as u64,
            ),
    {
        let qn: u64 = self.queue.len() as u64;
        self.dropped_failed = self.dropped_failed.saturating_add(qn);
        self.queue.truncate(0);
        self.oldest_pending_since = None;
        let mut pend: Option<PendingSend> = None;
        core::mem::swap(&mut pend, &mut self.sending);
        match pend {
            None => {
                self.dropped_failed = self.dropped_failed.saturating_add(0);
            },
            Some(p) => {
                let n: u64 = p.spans.len() as u64;
                self.dropped_failed = self.dropped_failed.saturating_add(n);
            },
        }
    }
}

/// Law: bounded memory. In every well-formed exporter state the
/// accumulating queue is within its configured ceiling, and everything
/// resident — queue plus the batch in flight — is within the ceiling
/// plus one batch. Since every operation preserves well-formedness,
/// sustained sink failure can never grow the exporter without bound.
pub proof fn lemma_bounded_resident(e: BatchExporter)
    requires
        e.wf(),
    ensures
        e.queue@.len() <= e.config.queue_ceiling,
        e.resident() <= e.config.queue_ceiling + e.config.max_batch,
{
}

} // verus!
