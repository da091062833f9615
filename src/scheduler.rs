//! The scheduler: the coordinator together with its two clocks, driven by
//! timestamped inputs.

use vstd::prelude::*;
use crate::coordinator::Coordinator;
use crate::settings::SyncConfig;
use crate::signal::{ExecutionOutcome, SyncAction, SyncSignal};
use crate::timer::{DebounceTimer, PullTicker};

verus! {

/// One thing that happens to the scheduler. Times are milliseconds on a
/// monotonic clock.
#[derive(Clone, Debug, PartialEq, Eq)]
pub enum Input {
    /// A change was seen in the working directory.
    Modified { at: u64 },
    /// The clock reads `at`: timers that have run out fire.
    Clock { at: u64 },
    /// The outstanding action ended.
    Done { outcome: ExecutionOutcome },
}

pub open spec fn time_of(input: Input) -> Option<u64> {
    match input {
        Input::Modified { at } => Some(at),
        Input::Clock { at } => Some(at),
        Input::Done { .. } => None,
    }
}

/// The time of the latest timestamped input.
pub open spec fn last_time(inputs: Seq<Input>) -> Option<u64>
    decreases inputs.len(),
{
    if inputs.len() == 0 {
        None
    } else {
        match time_of(inputs.last()) {
            Some(t) => Some(t),
            None => last_time(inputs.drop_last()),
        }
    }
}

/// The time of the latest modification.
pub open spec fn last_modification(inputs: Seq<Input>) -> Option<u64>
    decreases inputs.len(),
{
    if inputs.len() == 0 {
        None
    } else {
        match inputs.last() {
            Input::Modified { at } => Some(at),
            _ => last_modification(inputs.drop_last()),
        }
    }
}

/// The start of the latest countdown: the latest modification, or else the
/// one that `earlier` started.
pub open spec fn latest_start(inputs: Seq<Input>, earlier: Option<u64>) -> Option<u64> {
    match last_modification(inputs) {
        Some(m) => Some(m),
        None => earlier,
    }
}

/// `input`, coming after `before`, keeps the clock monotonic and, if it is a
/// modification, comes less than `gap` after the previous one (`earlier`
/// being the one before all of `before`, if any).
pub open spec fn burst_step(before: Seq<Input>, input: Input, gap: u64, earlier: Option<u64>) -> bool {
    &&& (time_of(input) matches Some(t) ==> (last_time(before) matches Some(p) ==> p <= t))
    &&& (input matches Input::Modified { at } ==> (latest_start(before, earlier) matches Some(m)
        ==> at < m + gap))
}

/// A sequence of inputs on a monotonic clock whose modifications follow each
/// other, and the one at `earlier` if any, less than `gap` apart.
pub open spec fn is_burst(inputs: Seq<Input>, gap: u64, earlier: Option<u64>) -> bool {
    forall|k: int|
        0 <= k < inputs.len() ==> #[trigger] burst_step(inputs.take(k), inputs[k], gap, earlier)
}

/// What the input at position `k` launches, run from `s`.
pub open spec fn launch_at(s: Scheduler, inputs: Seq<Input>, k: int) -> Option<SyncAction> {
    s.run(inputs.take(k)).launched(inputs[k])
}

/// No input of the sequence, run from `s`, launches a push.
pub open spec fn launches_no_push(s: Scheduler, inputs: Seq<Input>) -> bool {
    forall|k: int| 0 <= k < inputs.len() ==> #[trigger] launch_at(s, inputs, k) != Some(
        SyncAction::Push,
    )
}

pub open spec fn no_modification(inputs: Seq<Input>) -> bool {
    forall|k: int| 0 <= k < inputs.len() ==> !(#[trigger] inputs[k] is Modified)
}

/// The coordinator with its debounce countdown and pull ticker.
#[derive(Clone, Copy, Debug, PartialEq, Eq, Structural)]
pub struct Scheduler {
    pub coordinator: Coordinator,
    pub debounce: DebounceTimer,
    pub ticker: PullTicker,
}

impl Scheduler {
    /// The coordinator is well formed, the ticker has a period, and the
    /// coordinator's view of the countdown is the countdown's own.
    pub open spec fn wf(self) -> bool {
        &&& self.coordinator.wf()
        &&& self.ticker.wf()
        &&& self.coordinator.debounce_active == self.debounce.is_running()
    }

    /// The debounce countdown runs out at this input, so a push is scheduled.
    pub open spec fn schedules_push(self, input: Input) -> bool {
        input matches Input::Clock { at } && self.debounce.elapsed_at(at)
    }

    pub open spec fn ticks(self, input: Input) -> bool {
        input matches Input::Clock { at } && self.ticker.due_at(at)
    }

    /// The coordinator after the countdown fired, if it did.
    pub open spec fn after_debounce(self, input: Input) -> Coordinator {
        if self.schedules_push(input) {
            self.coordinator.next(SyncSignal::PushDue)
        } else {
            self.coordinator
        }
    }

    /// The state after one input.
    pub open spec fn after(self, input: Input) -> Scheduler {
        match input {
            Input::Modified { at } => Scheduler {
                coordinator: self.coordinator.next(SyncSignal::Modification),
                debounce: DebounceTimer { started: Some(at), ..self.debounce },
                ..self
            },
            Input::Clock { at } => Scheduler {
                coordinator: if self.ticks(input) {
                    self.after_debounce(input).next(SyncSignal::PullDue)
                } else {
                    self.after_debounce(input)
                },
                debounce: if self.schedules_push(input) {
                    DebounceTimer { started: None, ..self.debounce }
                } else {
                    self.debounce
                },
                ticker: if self.ticks(input) {
                    PullTicker { last: self.ticker.latest_tick(at) as u64, ..self.ticker }
                } else {
                    self.ticker
                },
            },
            Input::Done { outcome } => Scheduler {
                coordinator: self.coordinator.next(SyncSignal::ExecutionDone { outcome }),
                ..self
            },
        }
    }

    /// The action that one input launches, if any.
    pub open spec fn launched(self, input: Input) -> Option<SyncAction> {
        match input {
            Input::Modified { .. } => None,
            Input::Clock { .. } => {
                let first = if self.schedules_push(input) {
                    self.coordinator.started(SyncSignal::PushDue)
                } else {
                    None
                };
                if first is Some {
                    first
                } else if self.ticks(input) {
                    self.after_debounce(input).started(SyncSignal::PullDue)
                } else {
                    None
                }
            },
            Input::Done { outcome } => self.coordinator.started(
                SyncSignal::ExecutionDone { outcome },
            ),
        }
    }

    /// The state after a sequence of inputs, taken in order.
    pub open spec fn run(self, inputs: Seq<Input>) -> Scheduler
        decreases inputs.len(),
    {
        if inputs.len() == 0 {
            self
        } else {
            self.run(inputs.drop_last()).after(inputs.last())
        }
    }

    /// How many pushes a sequence of inputs schedules.
    pub open spec fn pushes_scheduled(self, inputs: Seq<Input>) -> nat
        decreases inputs.len(),
    {
        if inputs.len() == 0 {
            0
        } else {
            self.pushes_scheduled(inputs.drop_last()) + if self.run(
                inputs.drop_last(),
            ).schedules_push(inputs.last()) {
                1nat
            } else {
                0nat
            }
        }
    }

    /// A scheduler at rest at time `start`; absent when the pull interval is
    /// zero, since pulls would then be due without end.
    pub fn new(config: &SyncConfig, start: u64) -> (r: Option<Scheduler>)
        ensures
            r is None <==> config.tpull_ms == 0,
            r matches Some(s) ==> {
                &&& s.wf()
                &&& s.coordinator == Coordinator::idle()
                &&& s.debounce == (DebounceTimer { duration: config.tpush_ms, started: None })
                &&& s.ticker == (PullTicker { period: config.tpull_ms, last: start })
            },
    {
        if config.tpull_ms == 0 {
            None
        } else {
            Some(
                Scheduler {
                    coordinator: Coordinator::new(),
                    debounce: DebounceTimer::new(config.tpush_ms),
                    ticker: PullTicker::new(config.tpull_ms, start),
                },
            )
        }
    }

    /// Takes one input; returns the action to launch now, if any.
    pub fn handle(&mut self, input: Input) -> (r: Option<SyncAction>)
        requires
            old(self).wf(),
        ensures
            final(self).wf(),
            *final(self) == old(self).after(input),
            r == old(self).launched(input),
    {
        let ghost s0 = *self;
        match input {
            Input::Modified { at } => {
                let r = self.coordinator.handle(SyncSignal::Modification);
                self.debounce.restart(at);
                r
            },
            Input::Clock { at } => {
                let fired = self.debounce.fire(at);
                let first = if fired {
                    self.coordinator.handle(SyncSignal::PushDue)
                } else {
                    None
                };
                assert(self.coordinator == s0.after_debounce(input));
                let ticked = self.ticker.fire(at);
                let second = if ticked {
                    self.coordinator.handle(SyncSignal::PullDue)
                } else {
                    None
                };
                if first.is_some() {
                    first
                } else {
                    second
                }
            },
            Input::Done { outcome } => self.coordinator.handle(
                SyncSignal::ExecutionDone { outcome },
            ),
        }
    }

    /// Milliseconds from `now` until a timer next needs attention.
    pub fn next_wakeup(&self, now: u64) -> (r: u64)
        ensures
            r <= crate::timer::wait_until(now, self.ticker.last + self.ticker.period),
            self.debounce.started matches Some(t) ==> r <= crate::timer::wait_until(
                now,
                t + self.debounce.duration,
            ),
            r == crate::timer::wait_until(now, self.ticker.last + self.ticker.period) || (self.debounce.started matches Some(t)
                && r == crate::timer::wait_until(now, t + self.debounce.duration)),
    {
        let tick = self.ticker.remaining(now);
        match self.debounce.remaining(now) {
            Some(d) => if d < tick {
                d
            } else {
                tick
            },
            None => tick,
        }
    }
}

/// Every input keeps the scheduler well formed and its periods unchanged.
pub proof fn lemma_run_wf(s: Scheduler, inputs: Seq<Input>)
    requires
        s.wf(),
    ensures
        s.run(inputs).wf(),
        s.run(inputs).debounce.duration == s.debounce.duration,
        s.run(inputs).ticker.period == s.ticker.period,
    decreases inputs.len(),
{
    if inputs.len() > 0 {
        lemma_run_wf(s, inputs.drop_last());
        let r = s.run(inputs.drop_last());
        let input = inputs.last();
        if let Input::Clock { at } = input {
            if r.ticks(input) {
                let k = (at - r.ticker.last) / (r.ticker.period as int);
                assert(k * r.ticker.period <= at - r.ticker.last) by (nonlinear_arith)
                    requires
                        k == (at - r.ticker.last) / (r.ticker.period as int),
                        r.ticker.period > 0,
                        at - r.ticker.last >= 0,
                ;
            }
        }
    }
}

proof fn lemma_burst_prefix(inputs: Seq<Input>, gap: u64, earlier: Option<u64>)
    requires
        inputs.len() > 0,
        is_burst(inputs, gap, earlier),
    ensures
        is_burst(inputs.drop_last(), gap, earlier),
        burst_step(inputs.drop_last(), inputs.last(), gap, earlier),
{
    let pre = inputs.drop_last();
    assert forall|k: int| 0 <= k < pre.len() implies #[trigger] burst_step(
        pre.take(k),
        pre[k],
        gap,
        earlier,
    ) by {
        assert(pre.take(k) =~= inputs.take(k));
        assert(burst_step(inputs.take(k), inputs[k], gap, earlier));
    }
    assert(inputs.take(inputs.len() - 1) =~= pre);
    assert(burst_step(inputs.take(inputs.len() - 1), inputs[inputs.len() - 1], gap, earlier));
}

proof fn lemma_burst_state(s: Scheduler, inputs: Seq<Input>)
    requires
        s.wf(),
        is_burst(inputs, s.debounce.duration, s.debounce.started),
    ensures
        match latest_start(inputs, s.debounce.started) {
            None => s.pushes_scheduled(inputs) == 0 && s.run(inputs).debounce.started is None,
            Some(m) => (s.pushes_scheduled(inputs) == 0 && s.run(inputs).debounce.started
                == Some(m)) || (s.pushes_scheduled(inputs) == 1
                && s.run(inputs).debounce.started is None && (last_time(inputs) matches Some(
                lt) && lt >= m + s.debounce.duration)),
        },
    decreases inputs.len(),
{
    if inputs.len() > 0 {
        let pre = inputs.drop_last();
        lemma_burst_prefix(inputs, s.debounce.duration, s.debounce.started);
        lemma_burst_state(s, pre);
        lemma_run_wf(s, pre);
    }
}

proof fn lemma_burst_take(inputs: Seq<Input>, k: int, gap: u64, earlier: Option<u64>)
    requires
        0 <= k <= inputs.len(),
        is_burst(inputs, gap, earlier),
    ensures
        is_burst(inputs.take(k), gap, earlier),
{
    let pre = inputs.take(k);
    assert forall|j: int| 0 <= j < pre.len() implies #[trigger] burst_step(
        pre.take(j),
        pre[j],
        gap,
        earlier,
    ) by {
        assert(pre.take(j) =~= inputs.take(j));
        assert(burst_step(inputs.take(j), inputs[j], gap, earlier));
    }
}

/// Coalescing: inputs on a monotonic clock whose modifications follow each
/// other, and the start of any countdown already running, faster than the
/// debounce duration schedule at most one push, and only once the clock
/// reads one debounce duration past the latest modification.
pub proof fn lemma_coalescing(s: Scheduler, inputs: Seq<Input>)
    requires
        s.wf(),
        is_burst(inputs, s.debounce.duration, s.debounce.started),
    ensures
        s.pushes_scheduled(inputs) <= 1,
        forall|k: int|
            0 <= k < inputs.len() && #[trigger] s.run(inputs.take(k)).schedules_push(inputs[k])
                ==> (inputs[k] matches Input::Clock { at } && latest_start(
                inputs.take(k),
                s.debounce.started,
            ) matches Some(m) && at >= m + s.debounce.duration),
{
    lemma_burst_state(s, inputs);
    assert forall|k: int|
        0 <= k < inputs.len() && #[trigger] s.run(inputs.take(k)).schedules_push(
            inputs[k],
        ) implies (inputs[k] matches Input::Clock { at } && latest_start(
        inputs.take(k),
        s.debounce.started,
    ) matches Some(m) && at >= m + s.debounce.duration) by {
        let pre = inputs.take(k);
        lemma_burst_take(inputs, k, s.debounce.duration, s.debounce.started);
        lemma_burst_state(s, pre);
        lemma_run_wf(s, pre);
    }
}

/// Without modifications, a running countdown fires at most once and nothing
/// starts a new one; with none running and no push queued, no push is ever
/// launched.
proof fn lemma_no_mod_state(s: Scheduler, inputs: Seq<Input>)
    requires
        s.wf(),
        no_modification(inputs),
    ensures
        (s.pushes_scheduled(inputs) == 0 && s.run(inputs).debounce.started
            == s.debounce.started) || (s.pushes_scheduled(inputs) == 1
            && s.debounce.started is Some && s.run(inputs).debounce.started is None),
        (s.debounce.started is None && !s.coordinator.queued_push) ==> {
            &&& s.run(inputs).debounce.started is None
            &&& !s.run(inputs).coordinator.queued_push
            &&& launches_no_push(s, inputs)
        },
    decreases inputs.len(),
{
    if inputs.len() > 0 {
        let pre = inputs.drop_last();
        let n = inputs.len() - 1;
        assert forall|k: int| 0 <= k < pre.len() implies !(#[trigger] pre[k] is Modified) by {
            assert(pre[k] == inputs[k]);
        }
        assert(!(inputs[n] is Modified));
        lemma_no_mod_state(s, pre);
        lemma_run_wf(s, pre);
        if s.debounce.started is None && !s.coordinator.queued_push {
            assert forall|k: int| 0 <= k < inputs.len() implies #[trigger] launch_at(
                s,
                inputs,
                k,
            ) != Some(SyncAction::Push) by {
                if k < n {
                    assert(inputs.take(k) =~= pre.take(k));
                    assert(pre[k] == inputs[k]);
                    assert(launch_at(s, pre, k) != Some(SyncAction::Push));
                } else {
                    assert(inputs.take(k) =~= pre);
                }
            }
        }
    }
}

/// A modification at `t`, then inputs without modifications, then the clock
/// reading `t2` at least one debounce duration after `t`: exactly one push is
/// scheduled in all, and no push is pending any more. Inputs that follow
/// without a modification (the push's completion among them) schedule no
/// further push. With nothing in between: the push is launched at once if the
/// executor was free, and then no later input launches another push; it is
/// queued if the executor was busy.
pub proof fn lemma_quiet_push(
    s: Scheduler,
    t: u64,
    mid: Seq<Input>,
    t2: u64,
    rest: Seq<Input>,
)
    requires
        s.wf(),
        t2 >= t + s.debounce.duration,
        no_modification(mid),
        no_modification(rest),
    ensures
        ({
            let s1 = s.after(Input::Modified { at: t });
            let tail = mid.push(Input::Clock { at: t2 });
            let s2 = s1.run(tail);
            &&& s1.pushes_scheduled(tail) == 1
            &&& !s2.coordinator.pending_push
            &&& s2.debounce.started is None
            &&& s2.pushes_scheduled(rest) == 0
            &&& !s2.run(rest).coordinator.pending_push
            &&& mid.len() == 0 ==> {
                &&& s1.schedules_push(Input::Clock { at: t2 })
                &&& !s.coordinator.executor_busy ==> s1.launched(Input::Clock { at: t2 })
                    == Some(SyncAction::Push)
                &&& !s.coordinator.executor_busy ==> launches_no_push(s2, rest)
                &&& s.coordinator.executor_busy ==> s2.coordinator.queued_push
            }
        }),
{
    let s1 = s.after(Input::Modified { at: t });
    let tail = mid.push(Input::Clock { at: t2 });
    assert(s1.wf());
    lemma_no_mod_state(s1, mid);
    lemma_run_wf(s1, mid);
    lemma_run_wf(s1, tail);
    assert(tail.drop_last() =~= mid);
    assert(tail.last() == Input::Clock { at: t2 });
    let s2 = s1.run(tail);
    assert(s2 == s1.run(mid).after(Input::Clock { at: t2 }));
    lemma_no_mod_state(s2, rest);
    lemma_run_wf(s2, rest);
    if mid.len() == 0 {
        assert(s1.run(mid) == s1);
    }
}

/// A failed action is not retried: with nothing queued behind it and no push
/// pending, its completion launches nothing and leaves the executor free,
/// and inputs without modifications then schedule and launch no push. The
/// loop goes on: a pull that falls due is launched, and a later modification
/// followed by one debounce duration of quiet launches a new push.
pub proof fn lemma_failure_not_retried(
    s: Scheduler,
    reason: String,
    rest: Seq<Input>,
    t: u64,
    t2: u64,
)
    requires
        s.wf(),
        s.coordinator.executor_busy,
        !s.coordinator.queued_push,
        !s.coordinator.queued_pull,
        s.debounce.started is None,
        no_modification(rest),
        t2 >= t + s.debounce.duration,
    ensures
        ({
            let f = Input::Done { outcome: ExecutionOutcome::Failure { reason } };
            let s1 = s.after(f);
            &&& s.launched(f) is None
            &&& !s1.coordinator.executor_busy
            &&& s1.pushes_scheduled(rest) == 0
            &&& launches_no_push(s1, rest)
            &&& forall|at: u64| #[trigger] s1.ticker.due_at(at) ==> s1.launched(
                Input::Clock { at },
            ) == Some(SyncAction::Pull)
            &&& s1.after(Input::Modified { at: t }).launched(Input::Clock { at: t2 }) == Some(
                SyncAction::Push,
            )
        }),
{
    let f = Input::Done { outcome: ExecutionOutcome::Failure { reason } };
    let s1 = s.after(f);
    assert(s1.wf());
    lemma_no_mod_state(s1, rest);
    lemma_quiet_push(s1, t, Seq::empty(), t2, Seq::empty());
}

} // verus!
