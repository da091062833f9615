//! The coordinator: the state machine that turns signals into pull and push
//! launches, one at a time, with nothing dropped.

use vstd::prelude::*;
use crate::signal::{SyncAction, SyncSignal};

verus! {

/// The coordinator's state. Created once with every flag clear.
#[derive(Clone, Copy, Debug, PartialEq, Eq, Structural)]
pub struct Coordinator {
    /// A modification happened and its push is neither scheduled nor running.
    pub pending_push: bool,
    /// The debounce countdown is running.
    pub debounce_active: bool,
    /// A pull or push is outstanding.
    pub executor_busy: bool,
    /// A push was asked for while the executor was busy.
    pub queued_push: bool,
    /// A pull was asked for while the executor was busy.
    pub queued_pull: bool,
}

impl Coordinator {
    /// Nothing is queued unless something runs, and a push is pending exactly
    /// while its countdown runs.
    pub open spec fn wf(self) -> bool {
        &&& !self.executor_busy ==> !self.queued_push && !self.queued_pull
        &&& self.pending_push == self.debounce_active
    }

    /// The state at process start: every flag clear.
    pub open spec fn idle() -> Coordinator {
        Coordinator {
            pending_push: false,
            debounce_active: false,
            executor_busy: false,
            queued_push: false,
            queued_pull: false,
        }
    }

    /// The state after one signal.
    pub open spec fn next(self, sig: SyncSignal) -> Coordinator {
        match sig {
            SyncSignal::Modification => Coordinator {
                pending_push: true,
                debounce_active: true,
                ..self
            },
            SyncSignal::PushDue => if !self.pending_push {
                self
            } else if !self.executor_busy {
                Coordinator {
                    pending_push: false,
                    debounce_active: false,
                    executor_busy: true,
                    ..self
                }
            } else {
                Coordinator {
                    pending_push: false,
                    debounce_active: false,
                    queued_push: true,
                    ..self
                }
            },
            SyncSignal::PullDue => if !self.executor_busy {
                Coordinator { executor_busy: true, ..self }
            } else {
                Coordinator { queued_pull: true, ..self }
            },
            SyncSignal::ExecutionDone { .. } => if !self.executor_busy {
                self
            } else if self.queued_push {
                Coordinator { queued_push: false, ..self }
            } else if self.queued_pull {
                Coordinator { queued_pull: false, ..self }
            } else {
                Coordinator { executor_busy: false, ..self }
            },
        }
    }

    /// The action that one signal launches, if any.
    pub open spec fn started(self, sig: SyncSignal) -> Option<SyncAction> {
        match sig {
            SyncSignal::Modification => None,
            SyncSignal::PushDue => if self.pending_push && !self.executor_busy {
                Some(SyncAction::Push)
            } else {
                None
            },
            SyncSignal::PullDue => if !self.executor_busy {
                Some(SyncAction::Pull)
            } else {
                None
            },
            SyncSignal::ExecutionDone { .. } => if self.executor_busy && self.queued_push {
                Some(SyncAction::Push)
            } else if self.executor_busy && self.queued_pull {
                Some(SyncAction::Pull)
            } else {
                None
            },
        }
    }

    /// Whether the signal reports the end of the outstanding action.
    pub open spec fn completes(self, sig: SyncSignal) -> bool {
        sig is ExecutionDone && self.executor_busy
    }

    /// The state after a sequence of signals, taken in order.
    pub open spec fn run(self, sigs: Seq<SyncSignal>) -> Coordinator
        decreases sigs.len(),
    {
        if sigs.len() == 0 {
            self
        } else {
            self.run(sigs.drop_last()).next(sigs.last())
        }
    }

    /// How many actions a sequence of signals launches.
    pub open spec fn launches(self, sigs: Seq<SyncSignal>) -> nat
        decreases sigs.len(),
    {
        if sigs.len() == 0 {
            0
        } else {
            self.launches(sigs.drop_last()) + if self.run(sigs.drop_last()).started(
                sigs.last(),
            ) is Some {
                1nat
            } else {
                0nat
            }
        }
    }

    /// How many outstanding actions a sequence of signals reports finished.
    pub open spec fn completions(self, sigs: Seq<SyncSignal>) -> nat
        decreases sigs.len(),
    {
        if sigs.len() == 0 {
            0
        } else {
            self.completions(sigs.drop_last()) + if self.run(sigs.drop_last()).completes(
                sigs.last(),
            ) {
                1nat
            } else {
                0nat
            }
        }
    }

    pub fn new() -> (r: Coordinator)
        ensures
            r == Coordinator::idle(),
            r.wf(),
    {
        Coordinator {
            pending_push: false,
            debounce_active: false,
            executor_busy: false,
            queued_push: false,
            queued_pull: false,
        }
    }

    /// Takes one signal; returns the action to launch now, if any.
    pub fn handle(&mut self, sig: SyncSignal) -> (r: Option<SyncAction>)
        requires
            old(self).wf(),
        ensures
            *final(self) == old(self).next(sig),
            r == old(self).started(sig),
            final(self).wf(),
    {
        match sig {
            SyncSignal::Modification => {
                self.pending_push = true;
                self.debounce_active = true;
                None
            },
            SyncSignal::PushDue => {
                if !self.pending_push {
                    None
                } else {
                    self.pending_push = false;
                    self.debounce_active = false;
                    if !self.executor_busy {
                        self.executor_busy = true;
                        Some(SyncAction::Push)
                    } else {
                        self.queued_push = true;
                        None
                    }
                }
            },
            SyncSignal::PullDue => {
                if !self.executor_busy {
                    self.executor_busy = true;
                    Some(SyncAction::Pull)
                } else {
                    self.queued_pull = true;
                    None
                }
            },
            SyncSignal::ExecutionDone { .. } => {
                if !self.executor_busy {
                    None
                } else if self.queued_push {
                    self.queued_push = false;
                    Some(SyncAction::Push)
                } else if self.queued_pull {
                    self.queued_pull = false;
                    Some(SyncAction::Pull)
                } else {
                    self.executor_busy = false;
                    None
                }
            },
        }
    }
}

/// Every signal keeps the coordinator well formed.
pub proof fn lemma_run_wf(s: Coordinator, sigs: Seq<SyncSignal>)
    requires
        s.wf(),
    ensures
        s.run(sigs).wf(),
    decreases sigs.len(),
{
    if sigs.len() > 0 {
        lemma_run_wf(s, sigs.drop_last());
    }
}

/// Mutual exclusion: an action is launched only when the executor is free or
/// the signal reports the outstanding one finished, and launching leaves the
/// executor busy. Over any sequence of signals, launches and completions
/// alternate: every launch but the one still running has been completed.
pub proof fn lemma_mutual_exclusion(s: Coordinator, sigs: Seq<SyncSignal>)
    requires
        s.wf(),
    ensures
        forall|sig: SyncSignal| #[trigger]
            s.started(sig) is Some ==> (!s.executor_busy || s.completes(sig)) && s.next(
                sig,
            ).executor_busy,
        s.launches(sigs) + (if s.executor_busy {
            1int
        } else {
            0int
        }) == s.completions(sigs) + (if s.run(sigs).executor_busy {
            1int
        } else {
            0int
        }),
    decreases sigs.len(),
{
    if sigs.len() > 0 {
        lemma_mutual_exclusion(s, sigs.drop_last());
        lemma_run_wf(s, sigs.drop_last());
    }
}

/// A pull asked for while an action runs is neither lost nor doubled. Whatever
/// other signals come before that action ends (changes, pushes falling due,
/// more pull requests), nothing is launched meanwhile. When it ends, the pull
/// is launched at once, unless a push was queued behind it: push intent goes
/// first, and the pull is launched as soon as that push ends. After that one
/// pull nothing is owed.
pub proof fn lemma_pull_after_busy(
    s: Coordinator,
    sigs: Seq<SyncSignal>,
    done: SyncSignal,
)
    requires
        s.wf(),
        s.executor_busy,
        done is ExecutionDone,
        forall|i: int| 0 <= i < sigs.len() ==> !(#[trigger] sigs[i] is ExecutionDone),
        exists|i: int| 0 <= i < sigs.len() && #[trigger] sigs[i] is PullDue,
    ensures
        s.launches(sigs) == 0,
        ({
            let r = s.run(sigs);
            &&& !r.queued_push ==> {
                &&& r.started(done) == Some(SyncAction::Pull)
                &&& !r.next(done).queued_pull
                &&& !r.next(done).queued_push
                &&& r.next(done).started(done) is None
                &&& !r.next(done).next(done).executor_busy
            }
            &&& r.queued_push ==> {
                &&& r.started(done) == Some(SyncAction::Push)
                &&& r.next(done).started(done) == Some(SyncAction::Pull)
                &&& !r.next(done).next(done).queued_pull
                &&& !r.next(done).next(done).queued_push
                &&& r.next(done).next(done).started(done) is None
            }
        }),
{
    lemma_busy_until_done(s, sigs);
}

proof fn lemma_busy_until_done(s: Coordinator, sigs: Seq<SyncSignal>)
    requires
        s.wf(),
        s.executor_busy,
        forall|i: int| 0 <= i < sigs.len() ==> !(#[trigger] sigs[i] is ExecutionDone),
    ensures
        s.launches(sigs) == 0,
        s.run(sigs).wf(),
        s.run(sigs).executor_busy,
        s.queued_push ==> s.run(sigs).queued_push,
        s.run(sigs).queued_pull == (s.queued_pull || exists|i: int|
            0 <= i < sigs.len() && #[trigger] sigs[i] is PullDue),
    decreases sigs.len(),
{
    if sigs.len() > 0 {
        let pre = sigs.drop_last();
        assert forall|i: int| 0 <= i < pre.len() implies !(#[trigger] pre[i] is ExecutionDone) by {
            assert(pre[i] == sigs[i]);
        }
        assert(!(sigs[sigs.len() - 1] is ExecutionDone));
        lemma_busy_until_done(s, pre);
        if sigs.last() is PullDue {
            assert(sigs[sigs.len() - 1] is PullDue);
        } else if exists|i: int| 0 <= i < sigs.len() && #[trigger] sigs[i] is PullDue {
            let i = choose|i: int| 0 <= i < sigs.len() && #[trigger] sigs[i] is PullDue;
            assert(pre[i] == sigs[i]);
        }
        if exists|i: int| 0 <= i < pre.len() && #[trigger] pre[i] is PullDue {
            let i = choose|i: int| 0 <= i < pre.len() && #[trigger] pre[i] is PullDue;
            assert(pre[i] == sigs[i]);
        }
    }
}

} // verus!
