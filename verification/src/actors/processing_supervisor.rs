//! The supervisor's decisions: how many workers to run, and what it counts.
//! It sizes the worker pool by the queue depth, the number of active workers
//! and (for growth) whether the machine has resources to spare.
use vstd::prelude::*;
use crate::actors::github_factory::GitHubFactoryConfig;

verus! {

/// Every this many seconds, stale repository claims are reset.
pub const STALE_CLAIM_CHECK_INTERVAL_SECS: u64 = 300;

/// A claim older than this many minutes is stale.
pub const STALE_CLAIM_TIMEOUT_MINUTES: i64 = 60;

/// Every this many seconds, the worker pool is resized.
pub const SCALING_CHECK_INTERVAL_SECS: u64 = 30;

/// Every this many seconds, diagnostics are reported.
pub const DIAGNOSTICS_INTERVAL_SECS: u64 = 3600;

/// Seconds to wait after start before submitting the existing accounts.
pub const EXISTING_ACCOUNTS_DELAY_SECS: u64 = 1;

/// Existing accounts are read this many at a time.
pub const EXISTING_ACCOUNTS_BATCH: usize = 100;

/// Pause between two batches of existing accounts, in milliseconds.
pub const EXISTING_ACCOUNTS_PAUSE_MS: u64 = 100;

/// How long the supervisor waits for an answer of the factory, in seconds.
pub const FACTORY_CALL_TIMEOUT_SECS: u64 = 1;

/// How long a statistics request waits for the factory, in seconds.
pub const STATS_CALL_TIMEOUT_SECS: u64 = 5;

/// The supervisor that coordinates all processing.
#[derive(Debug, Clone, Copy)]
pub struct ProcessingSupervisor;

/// How the worker pool is to be resized.
#[derive(Debug, Clone, Copy, PartialEq, Eq, Structural)]
pub enum ScalingPlan {
    /// Grow to `target` workers, where the machine's resources allow it.
    ScaleUpIfResourcesAllow { target: usize },
    /// Shrink to `target` workers.
    ScaleDown { target: usize },
    /// Keep the pool as it is.
    Hold,
}

pub open spec fn spec_max(a: int, b: int) -> int {
    if a >= b {
        a
    } else {
        b
    }
}

pub open spec fn spec_min(a: int, b: int) -> int {
    if a <= b {
        a
    } else {
        b
    }
}

/// What changes the supervisor's counters.
#[derive(Debug, Clone, Copy, PartialEq, Eq, Structural)]
pub enum CounterEvent {
    /// A job was submitted for an account.
    Submitted,
    /// The diagnostics were reported.
    PeriodReported,
    /// The factory accepted a resize of the pool to `target` workers.
    Resized { target: usize },
}

/// How many of the events are submissions.
pub open spec fn count_submissions(es: Seq<CounterEvent>) -> nat
    decreases es.len(),
{
    if es.len() == 0 {
        0
    } else {
        count_submissions(es.drop_last()) + if es.last() is Submitted {
            1nat
        } else {
            0nat
        }
    }
}

/// What the supervisor counts.
#[derive(Debug, Clone, Copy)]
pub struct SupervisorCounters {
    pub factory_config: GitHubFactoryConfig,
    pub total_accounts_processed: u64,
    pub current_worker_count: usize,
    pub last_hour_accounts_processed: u64,
}

impl SupervisorCounters {
    /// The worker count is the initial one, or lies between the initial
    /// count and the maximum.
    pub open spec fn wf(&self) -> bool {
        let c = self.factory_config;
        self.current_worker_count == c.num_initial_workers || (c.num_initial_workers
            <= self.current_worker_count <= c.max_workers)
    }

    /// The growth step: a tenth of the workers, at least one.
    pub open spec fn step_size(count: usize) -> int {
        spec_max(1, count as int / 10)
    }

    pub open spec fn spec_plan(&self, queue_depth: usize, active_workers: usize) -> ScalingPlan {
        let c = self.factory_config;
        let cur = self.current_worker_count;
        if queue_depth > 0 && cur < c.max_workers {
            ScalingPlan::ScaleUpIfResourcesAllow {
                target: spec_min(cur + Self::step_size(cur), c.max_workers as int) as usize,
            }
        } else if queue_depth == 0 && active_workers < cur / 2 && cur > c.num_initial_workers {
            ScalingPlan::ScaleDown {
                target: spec_max(
                    c.num_initial_workers as int,
                    spec_max(0, cur - Self::step_size(cur)),
                ) as usize,
            }
        } else {
            ScalingPlan::Hold
        }
    }

    /// The counters after an event.
    pub open spec fn after(self, e: CounterEvent) -> SupervisorCounters {
        match e {
            CounterEvent::Submitted => SupervisorCounters {
                total_accounts_processed: (self.total_accounts_processed + 1) as u64,
                last_hour_accounts_processed: (self.last_hour_accounts_processed + 1) as u64,
                ..self
            },
            CounterEvent::PeriodReported => SupervisorCounters {
                last_hour_accounts_processed: 0,
                ..self
            },
            CounterEvent::Resized { target } => SupervisorCounters {
                current_worker_count: target,
                ..self
            },
        }
    }

    /// The counters after a sequence of events, in order.
    pub open spec fn after_all(self, es: Seq<CounterEvent>) -> SupervisorCounters
        decreases es.len(),
    {
        if es.len() == 0 {
            self
        } else {
            self.after_all(es.drop_last()).after(es.last())
        }
    }

    /// A supervisor that has processed nothing and runs the initial workers.
    pub fn new(factory_config: GitHubFactoryConfig) -> (s: SupervisorCounters)
        ensures
            s.wf(),
            s.factory_config == factory_config,
            s.total_accounts_processed == 0,
            s.last_hour_accounts_processed == 0,
            s.current_worker_count == factory_config.num_initial_workers,
    {
        SupervisorCounters {
            factory_config,
            total_accounts_processed: 0,
            current_worker_count: factory_config.num_initial_workers,
            last_hour_accounts_processed: 0,
        }
    }

    /// On a new account, the queue depth is asked for only while the pool
    /// is below its maximum.
    pub fn wants_queue_depth(&self) -> (b: bool)
        ensures
            b == (self.current_worker_count < self.factory_config.max_workers),
    {
        self.current_worker_count < self.factory_config.max_workers
    }

    /// On a new account, with `queue_depth` jobs queued: where work is
    /// waiting and the pool is below its maximum, one more worker, if the
    /// machine's resources allow it.
    pub fn new_account_target(&self, queue_depth: usize) -> (t: Option<usize>)
        ensures
            t == if queue_depth > 0 && self.current_worker_count < self.factory_config.max_workers {
                Some((self.current_worker_count + 1) as usize)
            } else {
                None::<usize>
            },
            self.wf() && t is Some ==> {
                &&& self.current_worker_count < t->0
                &&& self.factory_config.num_initial_workers <= t->0
                &&& t->0 <= self.factory_config.max_workers
            },
    {
        if queue_depth > 0 && self.current_worker_count < self.factory_config.max_workers {
            Some(self.current_worker_count + 1)
        } else {
            None
        }
    }

    /// The periodic resize, with `queue_depth` jobs queued and
    /// `active_workers` busy: grow by a tenth (at least one, at most to the
    /// maximum) while work is waiting; shrink by a tenth (at least one, never
    /// below the initial count) while nothing waits and fewer than half work.
    pub fn scaling_plan(&self, queue_depth: usize, active_workers: usize) -> (p: ScalingPlan)
        ensures
            p == self.spec_plan(queue_depth, active_workers),
            queue_depth == 0 && active_workers < self.current_worker_count / 2
                && self.current_worker_count > self.factory_config.num_initial_workers ==> p
                is ScaleDown,
            queue_depth > 0 && self.current_worker_count < self.factory_config.max_workers ==> p
                is ScaleUpIfResourcesAllow,
            self.wf() ==> match p {
                ScalingPlan::ScaleUpIfResourcesAllow { target } => {
                    &&& self.current_worker_count < target <= self.factory_config.max_workers
                    &&& self.factory_config.num_initial_workers <= target
                    &&& target - self.current_worker_count <= Self::step_size(
                        self.current_worker_count,
                    )
                },
                ScalingPlan::ScaleDown { target } => {
                    &&& self.factory_config.num_initial_workers <= target
                        < self.current_worker_count
                    &&& target <= self.factory_config.max_workers
                    &&& self.current_worker_count - target <= Self::step_size(
                        self.current_worker_count,
                    )
                },
                ScalingPlan::Hold => true,
            },
    {
        proof {
            lemma_scaling_decisions(*self, queue_depth, active_workers);
        }
        let cur = self.current_worker_count;
        let initial = self.factory_config.num_initial_workers;
        let max = self.factory_config.max_workers;
        let step: usize = if cur / 10 > 1 {
            cur / 10
        } else {
            1
        };
        if queue_depth > 0 && cur < max {
            let target = if cur <= max - step {
                cur + step
            } else {
                max
            };
            ScalingPlan::ScaleUpIfResourcesAllow { target }
        } else if queue_depth == 0 && active_workers < cur / 2 && cur > initial {
            let reduced = if cur >= step {
                cur - step
            } else {
                0
            };
            let target = if reduced > initial {
                reduced
            } else {
                initial
            };
            ScalingPlan::ScaleDown { target }
        } else {
            ScalingPlan::Hold
        }
    }

    /// The factory accepted a resize to `target` workers.
    pub fn apply_adjustment(&mut self, target: usize)
        requires
            old(self).factory_config.num_initial_workers <= target
                <= old(self).factory_config.max_workers,
        ensures
            *final(self) == old(self).after(CounterEvent::Resized { target }),
            final(self).wf(),
            final(self).current_worker_count == target,
            final(self).factory_config == old(self).factory_config,
            final(self).total_accounts_processed == old(self).total_accounts_processed,
            final(self).last_hour_accounts_processed == old(self).last_hour_accounts_processed,
    {
        self.current_worker_count = target;
    }

    /// A job was submitted for an account.
    pub fn record_submission(&mut self)
        requires
            old(self).total_accounts_processed < u64::MAX,
            old(self).last_hour_accounts_processed < u64::MAX,
        ensures
            *final(self) == old(self).after(CounterEvent::Submitted),
            final(self).total_accounts_processed == old(self).total_accounts_processed + 1,
            final(self).last_hour_accounts_processed == old(self).last_hour_accounts_processed
                + 1,
            final(self).current_worker_count == old(self).current_worker_count,
            final(self).factory_config == old(self).factory_config,
    {
        self.total_accounts_processed = self.total_accounts_processed + 1;
        self.last_hour_accounts_processed = self.last_hour_accounts_processed + 1;
    }

    /// The diagnostics were reported: the count of the period starts over.
    pub fn reset_period(&mut self)
        ensures
            *final(self) == old(self).after(CounterEvent::PeriodReported),
            final(self).last_hour_accounts_processed == 0,
            final(self).total_accounts_processed == old(self).total_accounts_processed,
            final(self).current_worker_count == old(self).current_worker_count,
            final(self).factory_config == old(self).factory_config,
    {
        self.last_hour_accounts_processed = 0;
    }
}

/// Applying any resize the supervisor decides keeps the worker count between
/// the initial count and the maximum (or at the initial count).
pub proof fn lemma_resize_keeps_bounds(
    s: SupervisorCounters,
    queue_depth: usize,
    active_workers: usize,
)
    requires
        s.wf(),
    ensures
        match s.spec_plan(queue_depth, active_workers) {
            ScalingPlan::ScaleUpIfResourcesAllow { target } => (SupervisorCounters {
                current_worker_count: target,
                ..s
            }).wf() && target > s.current_worker_count,
            ScalingPlan::ScaleDown { target } => (SupervisorCounters {
                current_worker_count: target,
                ..s
            }).wf() && target < s.current_worker_count,
            ScalingPlan::Hold => true,
        },
{
}

/// How the pool is resized, for a pool of `count` workers that started with
/// `initial` and may grow to `max`, with `queue_depth` jobs queued and
/// `active_workers` busy, and `step` a tenth of the workers (at least one):
/// while jobs wait and the pool is below its maximum, it grows by `step`, but
/// not past the maximum; while nothing waits, fewer than half the workers are
/// busy and the pool is above its initial size, it shrinks by `step`, but not
/// below the initial size; otherwise it stays as it is.
pub proof fn lemma_scaling_decisions(s: SupervisorCounters, queue_depth: usize, active_workers: usize)
    ensures
        ({
            let count = s.current_worker_count as int;
            let initial = s.factory_config.num_initial_workers as int;
            let max = s.factory_config.max_workers as int;
            let step = if count / 10 > 1 {
                count / 10
            } else {
                1
            };
            &&& queue_depth > 0 && count < max ==> s.spec_plan(queue_depth, active_workers) == (
            ScalingPlan::ScaleUpIfResourcesAllow {
                target: (if count + step <= max {
                    count + step
                } else {
                    max
                }) as usize,
            })
            &&& queue_depth == 0 && active_workers < count / 2 && count > initial ==> s.spec_plan(
                queue_depth,
                active_workers,
            ) == (ScalingPlan::ScaleDown {
                target: (if count - step >= initial {
                    count - step
                } else {
                    initial
                }) as usize,
            })
            &&& !(queue_depth > 0 && count < max) && !(queue_depth == 0 && active_workers < count
                / 2 && count > initial) ==> s.spec_plan(queue_depth, active_workers)
                == ScalingPlan::Hold
        }),
{
}

/// What each event does to the counters: only a submission adds to the total,
/// by exactly one; reporting the diagnostics starts the period's count over
/// and leaves the total and the worker count as they are; nothing but a
/// resize changes the worker count.
pub proof fn lemma_counter_event_effects(s: SupervisorCounters, e: CounterEvent)
    requires
        e is Submitted ==> s.total_accounts_processed < u64::MAX
            && s.last_hour_accounts_processed < u64::MAX,
    ensures
        s.after(e).total_accounts_processed >= s.total_accounts_processed,
        s.after(e).total_accounts_processed == s.total_accounts_processed + if e is Submitted {
            1int
        } else {
            0int
        },
        s.after(e).factory_config == s.factory_config,
        !(e is Resized) ==> s.after(e).current_worker_count == s.current_worker_count,
        e is PeriodReported ==> s.after(e).last_hour_accounts_processed == 0,
{
}

/// The total of accounts processed never decreases: over any sequence of
/// events it grows by exactly the number of submissions among them (where
/// that fits in the counter).
pub proof fn lemma_total_counts_submissions(s: SupervisorCounters, es: Seq<CounterEvent>)
    requires
        s.total_accounts_processed + count_submissions(es) <= u64::MAX,
    ensures
        s.after_all(es).total_accounts_processed == s.total_accounts_processed
            + count_submissions(es),
        s.after_all(es).total_accounts_processed >= s.total_accounts_processed,
        s.after_all(es).factory_config == s.factory_config,
    decreases es.len(),
{
    if es.len() > 0 {
        lemma_total_counts_submissions(s, es.drop_last());
    }
}

/// Walks through the existing accounts, a batch at a time.
#[derive(Clone, Copy)]
pub struct ExistingAccountsScan {
    offset: usize,
    total_submitted: u64,
    /// Batches read so far.
    batches: Ghost<nat>,
}

impl ExistingAccountsScan {
    /// Where the next batch starts: a batch further on for each batch read.
    #[verifier::type_invariant]
    spec fn wf(self) -> bool {
        self.offset == self.batches@ * EXISTING_ACCOUNTS_BATCH
    }

    pub closed spec fn spec_offset(self) -> usize {
        self.offset
    }

    pub closed spec fn spec_total_submitted(self) -> u64 {
        self.total_submitted
    }

    pub closed spec fn spec_batches(self) -> nat {
        self.batches@
    }

    pub fn new() -> (s: ExistingAccountsScan)
        ensures
            s.spec_offset() == 0,
            s.spec_total_submitted() == 0,
            s.spec_batches() == 0,
    {
        ExistingAccountsScan { offset: 0, total_submitted: 0, batches: Ghost(0) }
    }

    /// Where the next batch starts: the batch size times the batches read.
    pub fn offset(&self) -> (o: usize)
        ensures
            o == self.spec_offset(),
            o == self.spec_batches() * EXISTING_ACCOUNTS_BATCH,
    {
        proof {
            use_type_invariant(self);
        }
        self.offset
    }

    /// How many accounts were submitted so far.
    pub fn total_submitted(&self) -> (n: u64)
        ensures
            n == self.spec_total_submitted(),
    {
        self.total_submitted
    }

    /// A batch of `fetched` accounts was read, of which `submitted` were
    /// submitted. An empty batch ends the walk (false is returned); otherwise
    /// the next batch starts a batch further on.
    pub fn after_batch(&mut self, fetched: usize, submitted: u64) -> (more: bool)
        requires
            submitted <= fetched,
            fetched > 0 ==> old(self).spec_offset() + EXISTING_ACCOUNTS_BATCH <= usize::MAX,
            fetched > 0 ==> old(self).spec_total_submitted() + submitted <= u64::MAX,
        ensures
            more == (fetched > 0),
            more ==> final(self).spec_offset() == old(self).spec_offset() + EXISTING_ACCOUNTS_BATCH
                && final(self).spec_total_submitted() == old(self).spec_total_submitted()
                + submitted && final(self).spec_batches() == old(self).spec_batches() + 1,
            !more ==> *final(self) == *old(self),
    {
        proof {
            use_type_invariant(&*self);
        }
        if fetched == 0 {
            return false;
        }
        let offset = self.offset + EXISTING_ACCOUNTS_BATCH;
        let total = self.total_submitted + submitted;
        *self = ExistingAccountsScan {
            offset,
            total_submitted: total,
            batches: Ghost(self.batches@ + 1),
        };
        true
    }
}

} // verus!
