use std::collections::VecDeque;

use vstd::prelude::*;

use crate::request::{spec_work_unit, LoadRequest, RequestTraversal, WorkUnit};

verus! {

/// What one service step leaves of the serviced task: the advanced
/// traversal if it still has work units, nothing once it is drained.
pub open spec fn task_after_service(t: RequestTraversal) -> Seq<RequestTraversal> {
    if t.spec_advance().spec_done() {
        Seq::<RequestTraversal>::empty()
    } else {
        seq![t.spec_advance()]
    }
}

/// One service step of the ready queue: the task scheduled longest ago
/// (the front) is removed, one work unit of it is executed, and, if work
/// remains, it is re-inserted at the opposite end so every other queued
/// task gets its turn first. An empty queue is left unchanged.
pub open spec fn sched_step(q: Seq<RequestTraversal>) -> Seq<RequestTraversal> {
    if q.len() == 0 {
        q
    } else {
        q.drop_first() + task_after_service(q[0])
    }
}

/// The ready queue after `n` service steps.
pub open spec fn sched_run(q: Seq<RequestTraversal>, n: nat) -> Seq<RequestTraversal>
    decreases n,
{
    if n == 0 {
        q
    } else {
        sched_run(sched_step(q), (n - 1) as nat)
    }
}

/// The tasks serviced by `n` service steps, in service order, each in the
/// state it was serviced in; steps on an empty queue service nothing.
pub open spec fn sched_trace(q: Seq<RequestTraversal>, n: nat) -> Seq<RequestTraversal>
    decreases n,
{
    if n == 0 {
        Seq::<RequestTraversal>::empty()
    } else if q.len() == 0 {
        sched_trace(sched_step(q), (n - 1) as nat)
    } else {
        seq![q[0]] + sched_trace(sched_step(q), (n - 1) as nat)
    }
}

/// Service-window law: over a window of `k` service steps, where each of
/// the first `k` queued tasks has at least two work units left, exactly
/// those `k` tasks are serviced, once each, in queue order; afterwards the
/// tasks behind the window stand at the front, still in order and
/// untouched, with the serviced tasks re-queued behind them in service
/// order. Tasks behind the window — in particular requests admitted at the
/// previous round boundary beyond the window — are not serviced within it.
pub proof fn lemma_service_window(q: Seq<RequestTraversal>, k: int)
    requires
        0 <= k <= q.len(),
        forall|j: int| 0 <= j < k ==> (#[trigger] q[j]).wf() && q[j].remaining() >= 2,
    ensures
        sched_trace(q, k as nat) == q.subrange(0, k),
        sched_run(q, k as nat) == q.subrange(k, q.len() as int) + q.subrange(0, k).map_values(
            |t: RequestTraversal| t.spec_advance(),
        ),
    decreases k,
{
    let n = q.len() as int;
    let adv = |t: RequestTraversal| t.spec_advance();
    if k == 0 {
        assert(sched_trace(q, 0nat) =~= q.subrange(0, 0));
        assert(sched_run(q, 0nat) =~= q.subrange(0, n) + q.subrange(0, 0).map_values(adv));
    } else {
        let t0 = q[0];
        // t0 has at least two work units left, so it is re-queued after service.
        assert(!t0.spec_advance().spec_done());
        let q1 = sched_step(q);
        assert(q1 =~= q.subrange(1, n) + seq![t0.spec_advance()]);
        assert forall|j: int| 0 <= j < k - 1 implies (#[trigger] q1[j]).wf() && q1[j].remaining()
            >= 2 by {
            assert(q1[j] == q[j + 1]);
        }
        lemma_service_window(q1, k - 1);
        assert(q1.subrange(0, k - 1) =~= q.subrange(1, k));
        assert(sched_trace(q, k as nat) =~= q.subrange(0, k));
        assert(q1.subrange(k - 1, q1.len() as int) =~= q.subrange(k, n) + seq![t0.spec_advance()]);
        assert(sched_run(q, k as nat) =~= q.subrange(k, n) + q.subrange(0, k).map_values(adv));
    }
}

/// Scheduler fairness law: given `N` tasks simultaneously ready, each with
/// at least `N` remaining work units, the next `N` service steps service
/// every one of those tasks exactly once, in the order they stand in the
/// queue — no task starves within a round.
pub proof fn lemma_scheduler_fairness(q: Seq<RequestTraversal>)
    requires
        q.len() >= 1,
        forall|j: int| 0 <= j < q.len() ==> (#[trigger] q[j]).wf() && q[j].remaining() >= q.len(),
    ensures
        sched_trace(q, q.len() as nat) == q,
{
    if q.len() == 1 {
        assert(sched_trace(sched_step(q), 0nat) == Seq::<RequestTraversal>::empty());
        assert(sched_trace(q, 1nat) == seq![q[0]] + sched_trace(sched_step(q), 0nat));
        assert(sched_trace(q, 1nat) =~= q);
    } else {
        lemma_service_window(q, q.len() as int);
        assert(q.subrange(0, q.len() as int) =~= q);
    }
}

/// Scheduler termination law: a task with exactly `k` work units and no
/// concurrent admissions fully drains after exactly `k` service steps —
/// every one of the `k` steps services it, the queue still holds it after
/// `k - 1` steps, and is empty after the `k`-th.
pub proof fn lemma_task_termination(t: RequestTraversal, k: int)
    requires
        t.wf(),
        t.remaining() == k,
        k >= 1,
    ensures
        sched_run(seq![t], (k - 1) as nat).len() == 1,
        sched_run(seq![t], k as nat).len() == 0,
        sched_trace(seq![t], k as nat).len() == k,
    decreases k,
{
    let q = seq![t];
    let q1 = sched_step(q);
    if k == 1 {
        assert(t.spec_advance().spec_done());
        assert(q1 =~= Seq::<RequestTraversal>::empty());
        assert(sched_run(q, 0nat) == q);
        assert(sched_run(q1, 0nat) =~= Seq::<RequestTraversal>::empty());
        assert(sched_trace(q1, 0nat) == Seq::<RequestTraversal>::empty());
        assert(sched_trace(q, 1nat) == seq![q[0]] + sched_trace(q1, 0nat));
        assert(sched_trace(q, 1nat).len() == 1);
    } else {
        assert(!t.spec_advance().spec_done());
        assert(q1 =~= seq![t.spec_advance()]);
        lemma_task_termination(t.spec_advance(), k - 1);
        assert(sched_run(q, k as nat) == sched_run(q1, (k - 1) as nat));
        assert(sched_run(q, (k - 1) as nat) == sched_run(q1, (k - 2) as nat));
        assert(sched_trace(q, k as nat).len() == 1 + sched_trace(q1, (k - 1) as nat).len());
    }
}

/// Cooperative round-robin scheduler over the in-flight request
/// traversals: a ready queue serviced from the front with re-insertion at
/// the back, plus the countdown of service steps left in the current
/// fairness round. New requests are admitted at round boundaries
/// (`needs_admission`, then `submit` and `start_round`); `step` services
/// one work unit of the task scheduled longest ago.
pub struct Scheduler {
    pub queue: VecDeque<RequestTraversal>,
    pub countdown: usize,
}

impl Scheduler {
    /// The ready queue, front first.
    pub open spec fn tasks(self) -> Seq<RequestTraversal> {
        self.queue@
    }

    /// Service steps left before the next admission boundary.
    pub open spec fn spec_countdown(self) -> int {
        self.countdown as int
    }

    /// Every queued task is well formed and still has work units left.
    pub open spec fn wf(self) -> bool {
        forall|j: int|
            0 <= j < self.queue@.len() ==> (#[trigger] self.queue@[j]).wf()
                && self.queue@[j].remaining() >= 1
    }

    /// Fresh, idle scheduler.
    pub fn new() -> (s: Self)
        ensures
            s.wf(),
            s.tasks() == Seq::<RequestTraversal>::empty(),
            s.spec_countdown() == 0,
    {
        let s = Scheduler { queue: VecDeque::new(), countdown: 0 };
        proof {
            assert(s.queue@ =~= Seq::<RequestTraversal>::empty());
        }
        s
    }

    /// Number of in-flight tasks.
    pub fn task_count(&self) -> (n: usize)
        ensures
            n == self.tasks().len(),
    {
        self.queue.len()
    }

    /// The current fairness round is exhausted: newly submitted requests
    /// are to be admitted before the next round starts.
    pub fn needs_admission(&self) -> (b: bool)
        ensures
            b == (self.spec_countdown() == 0),
    {
        self.countdown == 0
    }

    /// Admits a request: its fresh traversal joins the back of the ready
    /// queue, so it is serviced only in the following round.
    pub fn submit(&mut self, request: LoadRequest)
        requires
            old(self).wf(),
            request.wf(),
        ensures
            final(self).wf(),
            final(self).tasks() == old(self).tasks().push(
                (RequestTraversal { request, next_distance: 0u32 }),
            ),
            final(self).spec_countdown() == old(self).spec_countdown(),
    {
        let task = RequestTraversal::new(request);
        self.queue.push_back(task);
    }

    /// Opens a new fairness round: the next `task_count` service steps
    /// form the window within which every task now queued is serviced
    /// exactly once.
    pub fn start_round(&mut self)
        requires
            old(self).wf(),
        ensures
            final(self).wf(),
            final(self).tasks() == old(self).tasks(),
            final(self).spec_countdown() == old(self).tasks().len(),
    {
        self.countdown = self.queue.len();
    }

    /// Services one step: removes the task scheduled longest ago, yields
    /// its next work unit, and re-inserts the task at the back of the
    /// queue if it has further work; the queue evolves exactly by
    /// `sched_step`. Yields `None`, changing nothing, when the scheduler
    /// is idle — the caller then blocks for a new request.
    pub fn step(&mut self) -> (r: Option<WorkUnit>)
        requires
            old(self).wf(),
        ensures
            final(self).wf(),
            old(self).tasks().len() == 0 ==> r is None && final(self).tasks() == old(self).tasks()
                && final(self).spec_countdown() == old(self).spec_countdown(),
            old(self).tasks().len() > 0 ==> {
                &&& r == Some(
                    spec_work_unit(
                        old(self).tasks()[0].request,
                        old(self).tasks()[0].next_distance,
                    ),
                )
                &&& r->0.terrain.wf() && r->0.light.wf() && r->0.carver.wf() && r->0.biome.wf()
                    && r->0.structure_starts.wf()
                &&& final(self).tasks() == sched_step(old(self).tasks())
                &&& final(self).spec_countdown() == (if old(self).spec_countdown() > 0 {
                    old(self).spec_countdown() - 1
                } else {
                    0
                })
            },
    {
        let task_opt = self.queue.pop_front();
        match task_opt {
            None => None,
            Some(mut task) => {
                let unit = match task.next() {
                    Some(u) => u,
                    // A queued task always has a work unit left.
                    None => unreached(),
                };
                if !task.is_finished() {
                    self.queue.push_back(task);
                }
                if self.countdown > 0 {
                    self.countdown = self.countdown - 1;
                }
                proof {
                    assert(self.queue@ =~= sched_step(old(self).queue@));
                }
                Some(unit)
            },
        }
    }
}

} // verus!
