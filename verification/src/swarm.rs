//! One Execution together with the SubTasks and Reviews that it owns, and the
//! predicates that the scheduler and the consensus engine are stated over.

use vstd::prelude::*;
use crate::models::consensus_review::{
    spec_voted, ConsensusReview, ConsensusReviewView, ConsensusVote, CreateConsensusReview,
    SubmitReviewVote,
};
use crate::models::swarm_execution::{SwarmExecution, SwarmExecutionView};
use crate::models::swarm_task::{
    spec_assigned, spec_completed, spec_failed, spec_is_terminal, spec_retried, spec_running,
    spec_skipped,
    SwarmProgress, SwarmTask, SwarmTaskStatus, SwarmTaskView,
};

verus! {

/// An Execution with everything it exclusively owns.
///
/// `tasks` is kept in dispatch order. `votes` lists the Reviews on which a
/// verdict was cast, in the order in which the verdicts arrived.
#[derive(Debug)]
pub struct Swarm {
    pub execution: SwarmExecution,
    pub tasks: Vec<SwarmTask>,
    pub reviews: Vec<ConsensusReview>,
    pub votes: Vec<u128>,
}

/// Mathematical view of a [`Swarm`].
pub ghost struct SwarmView {
    pub execution: SwarmExecutionView,
    pub tasks: Seq<SwarmTaskView>,
    pub reviews: Seq<ConsensusReviewView>,
    pub votes: Seq<u128>,
}

impl View for Swarm {
    type V = SwarmView;

    open spec fn view(&self) -> SwarmView {
        SwarmView {
            execution: self.execution@,
            tasks: self.tasks.deep_view(),
            reviews: self.reviews.deep_view(),
            votes: self.votes@,
        }
    }
}

/// No two SubTasks share an identifier.
#[verifier::opaque]
pub open spec fn spec_ids_distinct(ts: Seq<SwarmTaskView>) -> bool {
    forall|i: int, j: int|
        0 <= i < j < ts.len() ==> (#[trigger] ts[i]).id != (#[trigger] ts[j]).id
}

/// Some SubTask before position `i` carries the identifier `d`.
pub open spec fn spec_names_earlier(ts: Seq<SwarmTaskView>, i: int, d: u128) -> bool {
    exists|j: int| 0 <= j < i && j < ts.len() && (#[trigger] ts[j]).id == d
}

/// Every dependency names a SubTask that stands earlier in dispatch order.
#[verifier::opaque]
pub open spec fn spec_forward_deps(ts: Seq<SwarmTaskView>) -> bool {
    forall|i: int, k: int|
        0 <= i < ts.len() && 0 <= k < ts[i].depends_on.len() ==> spec_names_earlier(
            ts,
            i,
            #[trigger] ts[i].depends_on[k],
        )
}

/// SubTasks stand in ascending `sequence_order`.
#[verifier::opaque]
pub open spec fn spec_in_sequence(ts: Seq<SwarmTaskView>) -> bool {
    forall|i: int, j: int|
        0 <= i < j < ts.len() ==> (#[trigger] ts[i]).sequence_order <= (
        #[trigger] ts[j]).sequence_order
}

/// The position of the first SubTask with identifier `id`, if there is one.
#[verifier::opaque]
pub open spec fn spec_position(ts: Seq<SwarmTaskView>, id: u128) -> Option<int> {
    if exists|i: int| 0 <= i < ts.len() && (#[trigger] ts[i]).id == id {
        Some(
            choose|i: int|
                0 <= i < ts.len() && (#[trigger] ts[i]).id == id && forall|j: int|
                    0 <= j < i ==> (#[trigger] ts[j]).id != id,
        )
    } else {
        None
    }
}

/// The SubTask named `d` exists and is completed.
pub open spec fn spec_dep_completed(ts: Seq<SwarmTaskView>, d: u128) -> bool {
    exists|j: int|
        0 <= j < ts.len() && (#[trigger] ts[j]).id == d && ts[j].status
            == SwarmTaskStatus::Completed
}

/// Every dependency of the SubTask at `i` is completed.
pub open spec fn spec_deps_completed(ts: Seq<SwarmTaskView>, i: int) -> bool {
    forall|k: int|
        0 <= k < ts[i].depends_on.len() ==> spec_dep_completed(ts, #[trigger] ts[i].depends_on[k])
}

/// The SubTask at `i` belongs to the ready set: pending, with every dependency completed.
pub open spec fn spec_is_ready(ts: Seq<SwarmTaskView>, i: int) -> bool {
    &&& 0 <= i < ts.len()
    &&& ts[i].status == SwarmTaskStatus::Pending
    &&& spec_deps_completed(ts, i)
}

/// How many of the first `n` SubTasks are ready.
pub open spec fn spec_ready_before(ts: Seq<SwarmTaskView>, n: int) -> int
    decreases n,
{
    if n <= 0 {
        0
    } else {
        spec_ready_before(ts, n - 1) + if spec_is_ready(ts, n - 1) {
            1int
        } else {
            0int
        }
    }
}

/// How many of the first `n` SubTasks have status `s`.
pub open spec fn spec_count_status(ts: Seq<SwarmTaskView>, s: SwarmTaskStatus, n: int) -> int
    decreases n,
{
    if n <= 0 {
        0
    } else {
        spec_count_status(ts, s, n - 1) + if n <= ts.len() && ts[n - 1].status == s {
            1int
        } else {
            0int
        }
    }
}

/// How many SubTasks have status `s`.
pub open spec fn spec_total_status(ts: Seq<SwarmTaskView>, s: SwarmTaskStatus) -> int {
    spec_count_status(ts, s, ts.len() as int)
}

/// How many SubTasks hold a worker slot: the running and the assigned ones.
pub open spec fn spec_active_count(ts: Seq<SwarmTaskView>) -> int {
    spec_total_status(ts, SwarmTaskStatus::Running) + spec_total_status(
        ts,
        SwarmTaskStatus::Assigned,
    )
}

/// Every SubTask is completed or skipped.
pub open spec fn spec_all_settled(ts: Seq<SwarmTaskView>) -> bool {
    forall|i: int| 0 <= i < ts.len() ==> (#[trigger] ts[i]).status.spec_is_settled()
}

/// No SubTask was dispatched ahead of its dependencies: whatever is assigned,
/// running or completed has every dependency completed.
#[verifier::opaque]
pub open spec fn spec_deps_respected(ts: Seq<SwarmTaskView>) -> bool {
    forall|i: int|
        0 <= i < ts.len() && ((#[trigger] ts[i]).status == SwarmTaskStatus::Assigned || ts[i].status
            == SwarmTaskStatus::Running || ts[i].status == SwarmTaskStatus::Completed)
            ==> spec_deps_completed(ts, i)
}

/// Some SubTask that has not reached a terminal status refers to the child task `task_id`.
pub open spec fn spec_holds_task(ts: Seq<SwarmTaskView>, task_id: u128) -> bool {
    exists|i: int|
        0 <= i < ts.len() && (#[trigger] ts[i]).task_id == task_id && !spec_is_terminal(
            ts[i].status,
        )
}

/// The progress snapshot of a list of SubTasks.
pub open spec fn spec_progress(ts: Seq<SwarmTaskView>) -> SwarmProgress {
    SwarmProgress {
        total: ts.len() as i32,
        completed: spec_total_status(ts, SwarmTaskStatus::Completed) as i32,
        running: spec_total_status(ts, SwarmTaskStatus::Running) as i32,
        failed: spec_total_status(ts, SwarmTaskStatus::Failed) as i32,
        pending: spec_total_status(ts, SwarmTaskStatus::Pending) as i32,
        skipped: spec_total_status(ts, SwarmTaskStatus::Skipped) as i32,
    }
}

/// How many of the first `n` Reviews carry the vote `v`.
pub open spec fn spec_count_votes(rs: Seq<ConsensusReviewView>, v: ConsensusVote, n: int) -> int
    decreases n,
{
    if n <= 0 {
        0
    } else {
        spec_count_votes(rs, v, n - 1) + if n <= rs.len() && rs[n - 1].vote == v {
            1int
        } else {
            0int
        }
    }
}

/// How many Reviews carry the vote `v`.
pub open spec fn spec_total_votes(rs: Seq<ConsensusReviewView>, v: ConsensusVote) -> int {
    spec_count_votes(rs, v, rs.len() as int)
}

impl SwarmView {
    /// The structural invariant: what every operation needs and keeps.
    pub open spec fn wf(self) -> bool {
        &&& self.execution.wf()
        &&& self.tasks.len() <= i32::MAX
        &&& self.reviews.len() <= i32::MAX
        &&& spec_ids_distinct(self.tasks)
        &&& spec_forward_deps(self.tasks)
        &&& spec_in_sequence(self.tasks)
        &&& self.execution.consensus_approvals == spec_total_votes(
            self.reviews,
            ConsensusVote::Approve,
        )
        &&& self.execution.consensus_rejections == spec_total_votes(
            self.reviews,
            ConsensusVote::Reject,
        )
    }

    /// Bounded parallelism: the SubTasks that hold a worker slot never
    /// outnumber the Execution's workers.
    pub open spec fn within_capacity(self) -> bool {
        spec_active_count(self.tasks) <= self.execution.max_parallel_workers
    }

    /// The scheduling invariant: bounded parallelism, and no SubTask
    /// dispatched ahead of its dependencies.
    pub open spec fn inv(self) -> bool {
        &&& self.within_capacity()
        &&& spec_deps_respected(self.tasks)
    }
}

impl Swarm {
    /// The structural invariant: what every operation needs and keeps.
    pub open spec fn wf(&self) -> bool {
        self@.wf()
    }

    /// The position of the first SubTask with identifier `id`.
    pub fn find_task(&self, id: u128) -> (r: Option<usize>)
        ensures
            r matches Some(i) ==> i < self.tasks.len() && self.tasks[i as int].id == id
                && spec_position(self@.tasks, id) == Some(i as int),
            r is None ==> spec_position(self@.tasks, id) is None,
    {
        reveal(spec_position);
        let mut i: usize = 0;
        while i < self.tasks.len()
            invariant
                i <= self.tasks.len(),
                forall|j: int| 0 <= j < i ==> self.tasks[j].id != id,
            decreases self.tasks.len() - i,
        {
            if self.tasks[i].id == id {
                proof {
                    reveal(spec_position);
                    let ts = self@.tasks;
                    assert(ts[i as int].id == id);
                    assert forall|j: int| 0 <= j < i implies (#[trigger] ts[j]).id != id by {
                        assert(self.tasks[j].id != id);
                    }
                    let c = spec_position(ts, id).unwrap();
                    if c < i {
                        assert(self.tasks[c].id != id);
                    }
                    if i < c {
                        assert(ts[i as int].id != id);
                    }
                }
                return Some(i);
            }
            i += 1;
        }
        proof {
            reveal(spec_position);
            let ts = self@.tasks;
            assert forall|j: int| 0 <= j < ts.len() implies (#[trigger] ts[j]).id != id by {
                assert(self.tasks[j].id != id);
            }
        }
        None
    }

    /// Whether the SubTask named `d` exists and is completed.
    pub fn is_dep_completed(&self, d: u128) -> (b: bool)
        ensures
            b == spec_dep_completed(self@.tasks, d),
    {
        let mut j: usize = 0;
        while j < self.tasks.len()
            invariant
                j <= self.tasks.len(),
                forall|m: int|
                    0 <= m < j ==> !(self.tasks[m].id == d && self.tasks[m].status
                        == SwarmTaskStatus::Completed),
            decreases self.tasks.len() - j,
        {
            if self.tasks[j].id == d && self.tasks[j].status == SwarmTaskStatus::Completed {
                assert(self@.tasks[j as int].id == d);
                return true;
            }
            j += 1;
        }
        proof {
            let ts = self@.tasks;
            assert forall|m: int| 0 <= m < ts.len() implies !((#[trigger] ts[m]).id == d
                && ts[m].status == SwarmTaskStatus::Completed) by {
                assert(!(self.tasks[m].id == d && self.tasks[m].status
                    == SwarmTaskStatus::Completed));
            }
        }
        false
    }

    /// Whether every dependency of the SubTask at `i` is completed.
    pub fn deps_completed(&self, i: usize) -> (b: bool)
        requires
            i < self.tasks.len(),
        ensures
            b == spec_deps_completed(self@.tasks, i as int),
    {
        let ghost ts = self@.tasks;
        let mut k: usize = 0;
        while k < self.tasks[i].depends_on.len()
            invariant
                i < self.tasks.len(),
                ts == self@.tasks,
                k <= self.tasks[i as int].depends_on.len(),
                forall|m: int| 0 <= m < k ==> spec_dep_completed(ts, #[trigger] ts[i as int].depends_on[m]),
            decreases self.tasks[i as int].depends_on.len() - k,
        {
            let d = self.tasks[i].depends_on[k];
            assert(d == ts[i as int].depends_on[k as int]);
            if !self.is_dep_completed(d) {
                return false;
            }
            k += 1;
        }
        true
    }

    /// Whether the SubTask at `i` is ready to be dispatched.
    pub fn is_ready(&self, i: usize) -> (b: bool)
        requires
            i < self.tasks.len(),
        ensures
            b == spec_is_ready(self@.tasks, i as int),
    {
        self.tasks[i].status == SwarmTaskStatus::Pending && self.deps_completed(i)
    }

    /// How many SubTasks have status `s`.
    pub fn count_status(&self, s: SwarmTaskStatus) -> (n: i32)
        requires
            self.tasks.len() <= i32::MAX,
        ensures
            n == spec_total_status(self@.tasks, s),
            0 <= n <= self.tasks.len(),
    {
        let ghost ts = self@.tasks;
        let mut n: i32 = 0;
        let mut i: usize = 0;
        while i < self.tasks.len()
            invariant
                i <= self.tasks.len() <= i32::MAX,
                ts == self@.tasks,
                0 <= n <= i,
                n == spec_count_status(ts, s, i as int),
            decreases self.tasks.len() - i,
        {
            assert(ts[i as int].status == self.tasks[i as int].status);
            if self.tasks[i].status == s {
                n += 1;
            }
            i += 1;
        }
        n
    }

    /// How many SubTasks hold a worker slot.
    pub fn active_count(&self) -> (n: i32)
        requires
            self.tasks.len() <= i32::MAX,
        ensures
            n == spec_active_count(self@.tasks),
            0 <= n <= self.tasks.len(),
    {
        let ghost ts = self@.tasks;
        let mut n: i32 = 0;
        let mut i: usize = 0;
        while i < self.tasks.len()
            invariant
                i <= self.tasks.len() <= i32::MAX,
                ts == self@.tasks,
                0 <= n <= i,
                n == spec_count_status(ts, SwarmTaskStatus::Running, i as int) + spec_count_status(
                    ts,
                    SwarmTaskStatus::Assigned,
                    i as int,
                ),
            decreases self.tasks.len() - i,
        {
            assert(ts[i as int].status == self.tasks[i as int].status);
            if self.tasks[i].status.is_active() {
                n += 1;
            }
            i += 1;
        }
        n
    }

    /// Whether every SubTask is completed or skipped.
    pub fn all_completed(&self) -> (b: bool)
        ensures
            b == spec_all_settled(self@.tasks),
    {
        let ghost ts = self@.tasks;
        let mut i: usize = 0;
        while i < self.tasks.len()
            invariant
                i <= self.tasks.len(),
                ts == self@.tasks,
                forall|j: int| 0 <= j < i ==> (#[trigger] ts[j]).status.spec_is_settled(),
            decreases self.tasks.len() - i,
        {
            assert(ts[i as int].status == self.tasks[i as int].status);
            if !self.tasks[i].status.is_settled() {
                return false;
            }
            i += 1;
        }
        true
    }

    /// The progress snapshot of the Execution's SubTasks.
    pub fn get_progress(&self) -> (p: SwarmProgress)
        requires
            self.tasks.len() <= i32::MAX,
        ensures
            p == spec_progress(self@.tasks),
            p.total == self.tasks.len(),
    {
        SwarmProgress {
            total: self.tasks.len() as i32,
            completed: self.count_status(SwarmTaskStatus::Completed),
            running: self.count_status(SwarmTaskStatus::Running),
            failed: self.count_status(SwarmTaskStatus::Failed),
            pending: self.count_status(SwarmTaskStatus::Pending),
            skipped: self.count_status(SwarmTaskStatus::Skipped),
        }
    }
    /// Hands the SubTask at position `i` to a worker and fixes its branch.
    pub fn assign_at(&mut self, i: usize, agent: u128, branch: String, now: i64)
        requires
            i < old(self).tasks.len(),
        ensures
            final(self)@ == (SwarmView {
                tasks: old(self)@.tasks.update(
                    i as int,
                    spec_assigned(old(self)@.tasks[i as int], agent, branch@, now),
                ),
                ..old(self)@
            }),
    {
        let ghost before = self@.tasks;
        self.tasks[i].assign_agent(agent, branch, now);
        assert(self.tasks.deep_view() =~= before.update(i as int, self.tasks[i as int]@));
    }

    /// Marks the SubTask at position `i` running in its workspace.
    pub fn start_at(&mut self, i: usize, workspace_id: u128, now: i64)
        requires
            i < old(self).tasks.len(),
        ensures
            final(self)@ == (SwarmView {
                tasks: old(self)@.tasks.update(
                    i as int,
                    spec_running(old(self)@.tasks[i as int], workspace_id, now),
                ),
                ..old(self)@
            }),
    {
        let ghost before = self@.tasks;
        self.tasks[i].start(workspace_id, now);
        assert(self.tasks.deep_view() =~= before.update(i as int, self.tasks[i as int]@));
    }

    /// Marks the SubTask at position `i` completed.
    pub fn complete_at(&mut self, i: usize, now: i64)
        requires
            i < old(self).tasks.len(),
        ensures
            final(self)@ == (SwarmView {
                tasks: old(self)@.tasks.update(
                    i as int,
                    spec_completed(old(self)@.tasks[i as int], now),
                ),
                ..old(self)@
            }),
    {
        let ghost before = self@.tasks;
        self.tasks[i].complete(now);
        assert(self.tasks.deep_view() =~= before.update(i as int, self.tasks[i as int]@));
    }

    /// Puts the SubTask at position `i` back to pending for a retry.
    pub fn retry_at(&mut self, i: usize, now: i64)
        requires
            i < old(self).tasks.len(),
            old(self).tasks[i as int].retry_count < old(self).tasks[i as int].max_retries,
        ensures
            final(self)@ == (SwarmView {
                tasks: old(self)@.tasks.update(
                    i as int,
                    spec_retried(old(self)@.tasks[i as int], now),
                ),
                ..old(self)@
            }),
    {
        let ghost before = self@.tasks;
        let retried = self.tasks[i].retry(now);
        assert(self.tasks.deep_view() =~= before.update(i as int, self.tasks[i as int]@));
    }

    /// Marks the SubTask at position `i` failed for good.
    pub fn fail_at(&mut self, i: usize, error: String, now: i64)
        requires
            i < old(self).tasks.len(),
        ensures
            final(self)@ == (SwarmView {
                tasks: old(self)@.tasks.update(
                    i as int,
                    spec_failed(old(self)@.tasks[i as int], error@, now),
                ),
                ..old(self)@
            }),
    {
        let ghost before = self@.tasks;
        self.tasks[i].fail(error, now);
        assert(self.tasks.deep_view() =~= before.update(i as int, self.tasks[i as int]@));
    }

    /// Marks the SubTask at position `i` skipped.
    pub fn skip_at(&mut self, i: usize, now: i64)
        requires
            i < old(self).tasks.len(),
        ensures
            final(self)@ == (SwarmView {
                tasks: old(self)@.tasks.update(
                    i as int,
                    spec_skipped(old(self)@.tasks[i as int], now),
                ),
                ..old(self)@
            }),
    {
        let ghost before = self@.tasks;
        self.tasks[i].skip(now);
        assert(self.tasks.deep_view() =~= before.update(i as int, self.tasks[i as int]@));
    }
    /// Records a verdict on the Review at position `p`.
    pub fn vote_at(&mut self, p: usize, data: SubmitReviewVote, now: i64)
        requires
            p < old(self).reviews.len(),
        ensures
            final(self)@ == (SwarmView {
                reviews: old(self)@.reviews.update(
                    p as int,
                    spec_voted(old(self)@.reviews[p as int], data@, now),
                ),
                ..old(self)@
            }),
    {
        let ghost before = self@.reviews;
        self.reviews[p].submit_vote(data, now);
        assert(self.reviews.deep_view() =~= before.update(p as int, self.reviews[p as int]@));
    }
    /// Appends the pending Review that `data` asks for.
    pub fn open_review(&mut self, data: &CreateConsensusReview, id: u128, now: i64)
        requires
            old(self).wf(),
            old(self).reviews.len() < i32::MAX,
        ensures
            final(self).wf(),
            final(self)@.inv() == old(self)@.inv(),
            final(self)@ == (SwarmView {
                reviews: old(self)@.reviews.push(ConsensusReview::spec_create(*data, id, now)),
                ..old(self)@
            }),
    {
        let ghost s0 = self@;
        let review = ConsensusReview::create(data, id, now);
        proof {
            crate::consensus::lemma_open_keeps_wf(s0, review@);
        }
        self.reviews.push(review);
        assert(self.reviews.deep_view() =~= s0.reviews.push(review@));
    }
    /// Whether no two SubTasks share an identifier.
    pub fn ids_distinct(&self) -> (b: bool)
        ensures
            b == spec_ids_distinct(self@.tasks),
    {
        let ghost ts = self@.tasks;
        let mut j: usize = 0;
        while j < self.tasks.len()
            invariant
                j <= self.tasks.len(),
                ts == self@.tasks,
                forall|a: int, b: int| 0 <= a < b < j ==> (#[trigger] ts[a]).id != (#[trigger] ts[b]).id,
            decreases self.tasks.len() - j,
        {
            let mut i: usize = 0;
            while i < j
                invariant
                    i <= j < self.tasks.len(),
                    ts == self@.tasks,
                    forall|a: int| 0 <= a < i ==> (#[trigger] ts[a]).id != ts[j as int].id,
                decreases j - i,
            {
                if self.tasks[i].id == self.tasks[j].id {
                    proof {
                        reveal(spec_ids_distinct);
                        assert(ts[i as int].id == ts[j as int].id);
                    }
                    return false;
                }
                i += 1;
            }
            j += 1;
        }
        proof {
            reveal(spec_ids_distinct);
        }
        true
    }

    /// Whether some SubTask before position `i` carries the identifier `d`.
    pub fn names_earlier(&self, i: usize, d: u128) -> (b: bool)
        requires
            i <= self.tasks.len(),
        ensures
            b == spec_names_earlier(self@.tasks, i as int, d),
    {
        let ghost ts = self@.tasks;
        let mut j: usize = 0;
        while j < i
            invariant
                j <= i <= self.tasks.len(),
                ts == self@.tasks,
                forall|m: int| 0 <= m < j ==> (#[trigger] ts[m]).id != d,
            decreases i - j,
        {
            if self.tasks[j].id == d {
                assert(ts[j as int].id == d);
                return true;
            }
            j += 1;
        }
        false
    }

    /// Whether every dependency names a SubTask that stands earlier in dispatch order.
    pub fn forward_deps(&self) -> (b: bool)
        ensures
            b == spec_forward_deps(self@.tasks),
    {
        let ghost ts = self@.tasks;
        let mut i: usize = 0;
        while i < self.tasks.len()
            invariant
                i <= self.tasks.len(),
                ts == self@.tasks,
                forall|a: int, k: int|
                    0 <= a < i && 0 <= k < ts[a].depends_on.len() ==> spec_names_earlier(
                        ts,
                        a,
                        #[trigger] ts[a].depends_on[k],
                    ),
            decreases self.tasks.len() - i,
        {
            let mut k: usize = 0;
            while k < self.tasks[i].depends_on.len()
                invariant
                    i < self.tasks.len(),
                    ts == self@.tasks,
                    k <= self.tasks[i as int].depends_on.len(),
                    forall|m: int|
                        0 <= m < k ==> spec_names_earlier(ts, i as int, #[trigger] ts[i as int].depends_on[m]),
                decreases self.tasks[i as int].depends_on.len() - k,
            {
                let d = self.tasks[i].depends_on[k];
                assert(d == ts[i as int].depends_on[k as int]);
                if !self.names_earlier(i, d) {
                    proof {
                        reveal(spec_forward_deps);
                    }
                    return false;
                }
                k += 1;
            }
            i += 1;
        }
        proof {
            reveal(spec_forward_deps);
        }
        true
    }

    /// Whether the SubTasks stand in ascending `sequence_order`.
    pub fn in_sequence(&self) -> (b: bool)
        ensures
            b == spec_in_sequence(self@.tasks),
    {
        let ghost ts = self@.tasks;
        let mut j: usize = 1;
        if self.tasks.len() < 2 {
            proof {
                reveal(spec_in_sequence);
            }
            return true;
        }
        while j < self.tasks.len()
            invariant
                1 <= j <= self.tasks.len(),
                ts == self@.tasks,
                forall|a: int, b: int|
                    0 <= a < b < j ==> (#[trigger] ts[a]).sequence_order <= (
                    #[trigger] ts[b]).sequence_order,
            decreases self.tasks.len() - j,
        {
            assert(ts[j - 1].sequence_order == self.tasks[j - 1].sequence_order);
            assert(ts[j as int].sequence_order == self.tasks[j as int].sequence_order);
            if self.tasks[j - 1].sequence_order > self.tasks[j].sequence_order {
                proof {
                    reveal(spec_in_sequence);
                }
                return false;
            }
            proof {
                assert forall|a: int, b: int| 0 <= a < b < j + 1 implies (
                #[trigger] ts[a]).sequence_order <= (#[trigger] ts[b]).sequence_order by {
                    if b == j && a < j - 1 {
                        assert(ts[a].sequence_order <= ts[j - 1].sequence_order);
                    }
                }
            }
            j += 1;
        }
        proof {
            reveal(spec_in_sequence);
        }
        true
    }

    /// How many Reviews carry the vote `v`.
    pub fn count_votes(&self, v: ConsensusVote) -> (n: i32)
        requires
            self.reviews.len() <= i32::MAX,
        ensures
            n == spec_total_votes(self@.reviews, v),
    {
        let ghost rs = self@.reviews;
        let mut n: i32 = 0;
        let mut i: usize = 0;
        while i < self.reviews.len()
            invariant
                i <= self.reviews.len() <= i32::MAX,
                rs == self@.reviews,
                0 <= n <= i,
                n == spec_count_votes(rs, v, i as int),
            decreases self.reviews.len() - i,
        {
            assert(rs[i as int].vote == self.reviews[i as int].vote);
            if self.reviews[i].vote == v {
                n += 1;
            }
            i += 1;
        }
        n
    }

    /// Whether the structural invariant holds. A caller that did not
    /// build the value with the operations of this library tests it with
    /// this before it calls them.
    pub fn is_well_formed(&self) -> (b: bool)
        ensures
            b == self.wf(),
    {
        let e = &self.execution;
        if e.reviewer_count < 1 || e.consensus_approvals < 0 || e.consensus_rejections < 0 {
            return false;
        }
        if e.consensus_threshold != crate::quorum::consensus_threshold(e.reviewer_count) {
            return false;
        }
        if self.tasks.len() > 2147483647 || self.reviews.len() > 2147483647 {
            return false;
        }
        if !self.ids_distinct() || !self.forward_deps() || !self.in_sequence() {
            return false;
        }
        e.consensus_approvals == self.count_votes(ConsensusVote::Approve) && e.consensus_rejections
            == self.count_votes(ConsensusVote::Reject)
    }

    /// Whether no SubTask was dispatched ahead of its dependencies.
    pub fn deps_respected(&self) -> (b: bool)
        ensures
            b == spec_deps_respected(self@.tasks),
    {
        let ghost ts = self@.tasks;
        let mut i: usize = 0;
        while i < self.tasks.len()
            invariant
                i <= self.tasks.len(),
                ts == self@.tasks,
                forall|a: int|
                    0 <= a < i && ((#[trigger] ts[a]).status == SwarmTaskStatus::Assigned
                        || ts[a].status == SwarmTaskStatus::Running || ts[a].status
                        == SwarmTaskStatus::Completed) ==> spec_deps_completed(ts, a),
            decreases self.tasks.len() - i,
        {
            let status = self.tasks[i].status;
            assert(ts[i as int].status == status);
            if status == SwarmTaskStatus::Assigned || status == SwarmTaskStatus::Running || status
                == SwarmTaskStatus::Completed {
                if !self.deps_completed(i) {
                    proof {
                        reveal(spec_deps_respected);
                    }
                    return false;
                }
            }
            i += 1;
        }
        proof {
            reveal(spec_deps_respected);
        }
        true
    }

    /// Whether the scheduling invariant holds: bounded parallelism, and
    /// no SubTask dispatched ahead of its dependencies.
    pub fn holds_invariant(&self) -> (b: bool)
        requires
            self.tasks.len() <= i32::MAX,
        ensures
            b == self@.inv(),
    {
        self.active_count() <= self.execution.max_parallel_workers && self.deps_respected()
    }
    /// The positions of the ready SubTasks, in dispatch order.
    pub fn find_ready_tasks(&self) -> (v: Vec<usize>)
        ensures
            forall|k: int| 0 <= k < v.len() ==> spec_is_ready(self@.tasks, #[trigger] v[k] as int),
            forall|a: int, b: int| 0 <= a < b < v.len() ==> v[a] < v[b],
            forall|i: int| spec_is_ready(self@.tasks, i) ==> v@.contains(i as usize),
            v.len() == spec_ready_before(self@.tasks, self.tasks.len() as int),
    {
        let ghost ts = self@.tasks;
        let mut v: Vec<usize> = Vec::new();
        let mut i: usize = 0;
        while i < self.tasks.len()
            invariant
                i <= self.tasks.len(),
                ts == self@.tasks,
                v.len() <= i,
                v.len() == spec_ready_before(ts, i as int),
                forall|k: int| 0 <= k < v.len() ==> (#[trigger] v[k]) < i && spec_is_ready(ts, v[k] as int),
                forall|a: int, b: int| 0 <= a < b < v.len() ==> v[a] < v[b],
                forall|j: int| 0 <= j < i && spec_is_ready(ts, j) ==> v@.contains(j as usize),
            decreases self.tasks.len() - i,
        {
            if self.is_ready(i) {
                let ghost before = v@;
                v.push(i);
                proof {
                    assert forall|j: int| 0 <= j < i + 1 && spec_is_ready(ts, j) implies v@.contains(
                        j as usize,
                    ) by {
                        if j < i {
                            let x = choose|x: int| 0 <= x < before.len() && before[x] == j as usize;
                            assert(v@[x] == j as usize);
                        } else {
                            assert(v@[before.len() as int] == j as usize);
                        }
                    }
                }
            }
            i += 1;
        }
        v
    }

    /// The positions of the SubTasks that hold a worker slot, in dispatch order.
    pub fn find_running_tasks(&self) -> (v: Vec<usize>)
        ensures
            forall|k: int|
                0 <= k < v.len() ==> (#[trigger] v[k]) < self.tasks.len()
                    && self.tasks[v[k] as int].status.spec_is_active(),
            forall|a: int, b: int| 0 <= a < b < v.len() ==> v[a] < v[b],
            forall|i: int|
                0 <= i < self.tasks.len() && (#[trigger] self.tasks[i]).status.spec_is_active()
                    ==> v@.contains(i as usize),
    {
        let mut v: Vec<usize> = Vec::new();
        let mut i: usize = 0;
        while i < self.tasks.len()
            invariant
                i <= self.tasks.len(),
                forall|k: int|
                    0 <= k < v.len() ==> (#[trigger] v[k]) < i
                        && self.tasks[v[k] as int].status.spec_is_active(),
                forall|a: int, b: int| 0 <= a < b < v.len() ==> v[a] < v[b],
                forall|j: int|
                    0 <= j < i && (#[trigger] self.tasks[j]).status.spec_is_active() ==> v@.contains(
                        j as usize,
                    ),
            decreases self.tasks.len() - i,
        {
            if self.tasks[i].status.is_active() {
                let ghost before = v@;
                v.push(i);
                proof {
                    assert forall|j: int|
                        0 <= j < i + 1 && (#[trigger] self.tasks[j]).status.spec_is_active() implies v@.contains(
                        j as usize,
                    ) by {
                        if j < i {
                            let x = choose|x: int| 0 <= x < before.len() && before[x] == j as usize;
                            assert(v@[x] == j as usize);
                        } else {
                            assert(v@[before.len() as int] == j as usize);
                        }
                    }
                }
            }
            i += 1;
        }
        v
    }

    /// The positions of the Reviews of a round, in the order of their creation.
    pub fn find_by_round(&self, round: i32) -> (v: Vec<usize>)
        ensures
            forall|k: int|
                0 <= k < v.len() ==> (#[trigger] v[k]) < self.reviews.len()
                    && self.reviews[v[k] as int].round == round,
            forall|a: int, b: int| 0 <= a < b < v.len() ==> v[a] < v[b],
            forall|i: int|
                0 <= i < self.reviews.len() && (#[trigger] self.reviews[i]).round == round
                    ==> v@.contains(i as usize),
    {
        let mut v: Vec<usize> = Vec::new();
        let mut i: usize = 0;
        while i < self.reviews.len()
            invariant
                i <= self.reviews.len(),
                forall|k: int|
                    0 <= k < v.len() ==> (#[trigger] v[k]) < i && self.reviews[v[k] as int].round
                        == round,
                forall|a: int, b: int| 0 <= a < b < v.len() ==> v[a] < v[b],
                forall|j: int|
                    0 <= j < i && (#[trigger] self.reviews[j]).round == round ==> v@.contains(
                        j as usize,
                    ),
            decreases self.reviews.len() - i,
        {
            if self.reviews[i].round == round {
                let ghost before = v@;
                v.push(i);
                proof {
                    assert forall|j: int|
                        0 <= j < i + 1 && (#[trigger] self.reviews[j]).round == round implies v@.contains(
                        j as usize,
                    ) by {
                        if j < i {
                            let x = choose|x: int| 0 <= x < before.len() && before[x] == j as usize;
                            assert(v@[x] == j as usize);
                        } else {
                            assert(v@[before.len() as int] == j as usize);
                        }
                    }
                }
            }
            i += 1;
        }
        v
    }
    /// Whether a SubTask that has not reached a terminal status refers to
    /// the child task `task_id`. The task must not be deleted while one does.
    pub fn holds_task(&self, task_id: u128) -> (b: bool)
        ensures
            b == spec_holds_task(self@.tasks, task_id),
    {
        let ghost ts = self@.tasks;
        let mut i: usize = 0;
        while i < self.tasks.len()
            invariant
                i <= self.tasks.len(),
                ts == self@.tasks,
                forall|j: int|
                    0 <= j < i ==> !((#[trigger] ts[j]).task_id == task_id && !spec_is_terminal(
                        ts[j].status,
                    )),
            decreases self.tasks.len() - i,
        {
            let status = self.tasks[i].status;
            assert(ts[i as int].status == status && ts[i as int].task_id == self.tasks[i as int].task_id);
            let terminal = status == SwarmTaskStatus::Completed || status
                == SwarmTaskStatus::Skipped || status == SwarmTaskStatus::Failed;
            if self.tasks[i].task_id == task_id && !terminal {
                return true;
            }
            i += 1;
        }
        false
    }
}

} // verus!
