//! The polling loop's decisions.
//!
//! Each cycle the scheduler computes a lookback window, walks the catalog in
//! fixed-size batches, routes each group's fetched events through the
//! deduplicator to the sink, classifies each fetch failure, and ends the
//! cycle with the deduplicator's reset check.  Those decisions live here,
//! verified; the surrounding binary owns the loop itself, performing the
//! remote fetches and the pacing sleeps between groups, batches and cycles
//! that the configuration prescribes.

use crate::dedup::accept_next;
use crate::dedup::accept_would_emit;
use crate::dedup::Deduplicator;
use crate::errors::action_of;
use crate::errors::classify;
use crate::errors::Classification;
use crate::errors::ErrorAction;
use crate::errors::FetchError;
use crate::errors::kind_of;
use crate::event::LogEvent;
use crate::event::LogEventView;
use vstd::prelude::*;

verus! {

/// The externally supplied constants of a run: the lookback window length,
/// the batch size, and the pacing and cooldown intervals.
pub struct PollConfig {
    /// Length of the lookback window subtracted from now, in milliseconds.
    pub lookback_millis: i64,
    /// Number of groups fetched per batch.
    pub batch_size: usize,
    /// Pause after each group's fetch, in milliseconds.
    pub group_delay_millis: u64,
    /// Pause after each batch, in milliseconds.
    pub batch_delay_millis: u64,
    /// Pause after each full cycle, in milliseconds.
    pub cycle_delay_millis: u64,
    /// Pause of the whole batch after a rate-limited fetch, in milliseconds.
    pub rate_limit_delay_millis: u64,
    /// Extra pause after a deduplicator reset, in milliseconds.
    pub cooldown_millis: u64,
    /// Capacity of the deduplicator, `N_max`.
    pub dedup_capacity: usize,
}

impl PollConfig {
    /// A window cannot look back a negative distance, and a batch holds at
    /// least one group.
    pub open spec fn wf(&self) -> bool {
        self.lookback_millis >= 0 && self.batch_size >= 1
    }
}

impl Default for PollConfig {
    /// The default constants: a 30 s lookback, batches of five groups,
    /// 50 ms between groups, 250 ms between batches, 5 s between cycles,
    /// a 1 s rate-limit backoff, a 20 s reset cooldown, and room for
    /// 100000 identifiers.
    fn default() -> (c: PollConfig)
        ensures
            c.wf(),
            c.lookback_millis == 30000,
            c.batch_size == 5,
            c.group_delay_millis == 50,
            c.batch_delay_millis == 250,
            c.cycle_delay_millis == 5000,
            c.rate_limit_delay_millis == 1000,
            c.cooldown_millis == 20000,
            c.dedup_capacity == 100000,
    {
        PollConfig {
            lookback_millis: 30000,
            batch_size: 5,
            group_delay_millis: 50,
            batch_delay_millis: 250,
            cycle_delay_millis: 5000,
            rate_limit_delay_millis: 1000,
            cooldown_millis: 20000,
            dedup_capacity: 100000,
        }
    }
}

/// A classified fetch failure together with the pause it imposes on the
/// rest of the batch.
pub struct FailureOutcome {
    pub classification: Classification,
    pub pause_millis: u64,
}

/// The recorded identifiers and the emitted events after routing one
/// sequence of fetched events through the deduplicator, in order: an event
/// is emitted exactly when it is novel for the set built up so far, and
/// every event's identifier is recorded as it passes.
pub open spec fn route(s: Set<Seq<char>>, evs: Seq<LogEventView>) -> (Set<Seq<char>>, Seq<
    LogEventView,
>)
    decreases evs.len(),
{
    if evs.len() == 0 {
        (s, Seq::empty())
    } else {
        let (s1, out1) = route(s, evs.drop_last());
        let e = evs.last();
        if accept_would_emit(s1, e.event_id) {
            (accept_next(s1, e.event_id), out1.push(e))
        } else {
            (accept_next(s1, e.event_id), out1)
        }
    }
}

/// Law: routing records exactly the identifiers of the routed events, in
/// order, whether or not an event was emitted — so by the deduplicator's
/// growth bound the recorded set gains at most one identifier per event
/// between two reset checks.
pub proof fn lemma_route_records(s: Set<Seq<char>>, evs: Seq<LogEventView>)
    ensures
        route(s, evs).0 == crate::dedup::accept_all(
            s,
            evs.map_values(|e: LogEventView| e.event_id),
        ),
    decreases evs.len(),
{
    let ids = evs.map_values(|e: LogEventView| e.event_id);
    if evs.len() > 0 {
        lemma_route_records(s, evs.drop_last());
        assert(evs.drop_last().map_values(|e: LogEventView| e.event_id) =~= ids.drop_last());
        assert(ids.last() == evs.last().event_id);
    }
}

/// The start of the window `[now - lookback, now)` that one cycle fetches.
pub fn window_start(now_millis: i64, lookback_millis: i64) -> (w: i64)
    requires
        lookback_millis >= 0,
        now_millis - lookback_millis >= i64::MIN,
    ensures
        w == now_millis - lookback_millis,
{
    now_millis - lookback_millis
}

/// Relies on chrono::Utc::now for the present moment; returns it as epoch
/// milliseconds.  Nothing further can be promised of a clock reading.
#[verifier::external_body]
fn now_millis() -> i64 {
    chrono::Utc::now().timestamp_millis()
}

/// The state the polling loop carries across cycles: the immutable catalog,
/// the run's constants, and the deduplicator, its only mutable part.
pub struct Scheduler {
    /// The filtered group names, fixed for the whole run.
    pub catalog: Vec<String>,
    /// The run's constants.
    pub config: PollConfig,
    /// The shared record of already-emitted identifiers.
    pub dedup: Deduplicator,
}

impl Scheduler {
    /// The configuration is sound and the deduplicator is at the configured
    /// capacity.
    pub open spec fn wf(&self) -> bool {
        &&& self.config.wf()
        &&& self.dedup.wf()
        &&& self.dedup@.finite()
        &&& self.dedup.cap() == self.config.dedup_capacity
    }

    /// A scheduler at the start of a run: nothing emitted yet.
    pub fn new(catalog: Vec<String>, config: PollConfig) -> (s: Scheduler)
        requires
            config.wf(),
        ensures
            s.wf(),
            s.catalog == catalog,
            s.config == config,
            s.dedup@ == Set::<Seq<char>>::empty(),
    {
        let dedup = Deduplicator::new(config.dedup_capacity);
        Scheduler { catalog, config, dedup }
    }

    /// The window start for a cycle beginning at the present moment: reads
    /// the clock once and returns the reading together with the window
    /// start, which lies exactly one lookback before it.  Only a reading so
    /// close to the representable minimum that the subtraction would wrap
    /// yields nothing.
    pub fn current_window(&self) -> (r: Option<(i64, i64)>)
        requires
            self.config.wf(),
        ensures
            r matches Some((now, start)) ==> start == now - self.config.lookback_millis,
    {
        let now = now_millis();
        match now.checked_sub(self.config.lookback_millis) {
            Some(start) => Some((now, start)),
            None => None,
        }
    }

    /// The end of the batch that starts at group index `start`: one batch
    /// size further, or at the catalog's end, whichever comes first.  The
    /// batches `[0, end_0)`, `[end_0, end_1)`, … partition the catalog in
    /// order.
    pub fn batch_end(&self, start: usize) -> (end: usize)
        requires
            self.wf(),
            start < self.catalog.len(),
        ensures
            start < end <= self.catalog.len(),
            end - start <= self.config.batch_size,
            end == start + self.config.batch_size || end == self.catalog.len(),
    {
        let remaining = self.catalog.len() - start;
        if remaining <= self.config.batch_size {
            self.catalog.len()
        } else {
            start + self.config.batch_size
        }
    }

    /// Route one group's fetched events through the deduplicator: record
    /// every identifier and return, in the remote service's order, exactly
    /// the events that are novel — those the caller forwards to the sink,
    /// tagged with the group's name.
    pub fn handle_fetch_success(&mut self, events: &Vec<LogEvent>) -> (emitted: Vec<LogEvent>)
        requires
            old(self).wf(),
        ensures
            final(self).wf(),
            final(self).catalog == old(self).catalog,
            final(self).config == old(self).config,
            final(self).dedup@ == route(old(self).dedup@, events.deep_view()).0,
            emitted.deep_view() == route(old(self).dedup@, events.deep_view()).1,
    {
        let ghost evs = events.deep_view();
        let mut emitted: Vec<LogEvent> = Vec::new();
        let mut k: usize = 0;
        proof {
            assert(emitted.deep_view() =~= route(old(self).dedup@, evs.subrange(0, 0)).1);
        }
        while k < events.len()
            invariant
                k <= events.len(),
                evs == events.deep_view(),
                self.wf(),
                self.catalog == old(self).catalog,
                self.config == old(self).config,
                self.dedup@ == route(old(self).dedup@, evs.subrange(0, k as int)).0,
                emitted.deep_view() == route(old(self).dedup@, evs.subrange(0, k as int)).1,
            decreases events.len() - k,
        {
            proof {
                assert(evs.subrange(0, k + 1).drop_last() =~= evs.subrange(0, k as int));
                assert(evs.subrange(0, k + 1).last() == evs[k as int]);
                assert(evs[k as int] == events@[k as int]@);
            }
            let ghost pre_emitted = emitted.deep_view();
            let event = &events[k];
            let novel = self.dedup.accept(&event.event_id);
            if novel {
                emitted.push(event.duplicate());
                proof {
                    assert(emitted.deep_view() =~= pre_emitted.push(evs[k as int]));
                }
            }
            k += 1;
        }
        proof {
            assert(evs.subrange(0, events.len() as int) =~= evs);
        }
        emitted
    }

    /// Classify one group's fetch failure and say how long the rest of the
    /// batch must pause: the configured rate-limit backoff after a
    /// throttling response, nothing otherwise.  The caller logs the failure
    /// and always goes on with the next group.
    pub fn handle_fetch_failure(&self, e: &FetchError) -> (o: FailureOutcome)
        ensures
            o.classification.kind == kind_of(*e),
            o.classification.action == action_of(o.classification.kind),
            o.pause_millis == if o.classification.action is PauseBatch {
                self.config.rate_limit_delay_millis
            } else {
                0u64
            },
    {
        let classification = classify(e);
        let pause_millis = match classification.action {
            ErrorAction::PauseBatch => self.config.rate_limit_delay_millis,
            _ => 0,
        };
        FailureOutcome { classification, pause_millis }
    }

    /// The end-of-cycle bookkeeping: run the deduplicator's reset check.
    /// Returns whether a reset happened, in which case the caller sleeps the
    /// cooldown interval before the next cycle; either way at most the
    /// configured capacity of identifiers stays recorded.
    pub fn end_cycle(&mut self) -> (cooldown: bool)
        requires
            old(self).wf(),
        ensures
            final(self).wf(),
            final(self).catalog == old(self).catalog,
            final(self).config == old(self).config,
            cooldown == (old(self).dedup@.len() > old(self).config.dedup_capacity),
            final(self).dedup@ == if cooldown {
                Set::<Seq<char>>::empty()
            } else {
                old(self).dedup@
            },
            final(self).dedup@.len() <= final(self).config.dedup_capacity,
    {
        self.dedup.reset_if_full()
    }
}

} // verus!
