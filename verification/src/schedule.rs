//! The scheduling rules, stated over the views of an Execution and its
//! SubTasks, and the proofs that every step keeps the invariants.

use vstd::prelude::*;
use crate::assignment::{spec_best_worker, spec_has_worker};
use crate::events::{EffectsView, StartOrderView, SwarmEventView, TaskUpdate};
use crate::ident::spec_short_id;
use crate::models::agent_profile::AgentProfileWithSkills;
use crate::models::swarm_execution::{
    spec_with_status, SwarmExecutionStatus, SwarmExecutionView,
};
use crate::models::swarm_task::{
    spec_assigned, spec_completed, spec_failed, spec_is_terminal, spec_retried, spec_running,
    spec_skipped, SwarmTaskStatus, SwarmTaskView,
};
use crate::models::task::TaskStatus;
use crate::swarm::{
    spec_active_count, spec_all_settled, spec_count_status, spec_dep_completed,
    spec_deps_completed, spec_deps_respected, spec_forward_deps, spec_ids_distinct,
    spec_in_sequence, spec_is_ready, spec_names_earlier, spec_progress, spec_ready_before,
    spec_total_status, SwarmView,
};

verus! {

/// The branch of a SubTask: the prefix, `/task-`, and the SubTask's short name.
pub open spec fn spec_branch_name(prefix: Seq<char>, id: u128) -> Seq<char> {
    prefix + "/task-"@ + spec_short_id(id)
}

/// The tick dispatches the SubTask at `i`: it is ready, it is among the
/// first `free` ready SubTasks in dispatch order, and a worker can be had.
pub open spec fn spec_dispatches(
    ts: Seq<SwarmTaskView>,
    free: int,
    pool: Seq<AgentProfileWithSkills>,
    i: int,
) -> bool {
    spec_is_ready(ts, i) && spec_ready_before(ts, i) < free && spec_has_worker(pool)
}

/// The identifier of the worker that the assignment policy picks for `t`.
pub open spec fn spec_chosen_agent(t: SwarmTaskView, pool: Seq<AgentProfileWithSkills>) -> u128 {
    pool[spec_best_worker(t.required_skills, pool).unwrap()].profile.id
}

/// The SubTasks after a tick with `free` free slots.
pub open spec fn spec_dispatched_tasks(
    ts: Seq<SwarmTaskView>,
    free: int,
    pool: Seq<AgentProfileWithSkills>,
    prefix: Seq<char>,
    now: i64,
) -> Seq<SwarmTaskView> {
    Seq::new(
        ts.len(),
        |i: int|
            if spec_dispatches(ts, free, pool, i) {
                spec_assigned(
                    ts[i],
                    spec_chosen_agent(ts[i], pool),
                    spec_branch_name(prefix, ts[i].id),
                    now,
                )
            } else {
                ts[i]
            },
    )
}

/// The start order that goes with the dispatch of `t`.
pub open spec fn spec_order_for(
    t: SwarmTaskView,
    pool: Seq<AgentProfileWithSkills>,
    prefix: Seq<char>,
) -> StartOrderView {
    StartOrderView {
        swarm_task_id: t.id,
        task_id: t.task_id,
        agent_id: spec_chosen_agent(t, pool),
        branch_name: spec_branch_name(prefix, t.id),
    }
}

/// The start orders of a tick for the first `n` SubTasks, in dispatch order.
pub open spec fn spec_start_orders(
    ts: Seq<SwarmTaskView>,
    free: int,
    pool: Seq<AgentProfileWithSkills>,
    prefix: Seq<char>,
    n: int,
) -> Seq<StartOrderView>
    decreases n,
{
    if n <= 0 {
        Seq::empty()
    } else {
        let rest = spec_start_orders(ts, free, pool, prefix, n - 1);
        if spec_dispatches(ts, free, pool, n - 1) {
            rest.push(spec_order_for(ts[n - 1], pool, prefix))
        } else {
            rest
        }
    }
}

/// The free worker slots of an Execution.
pub open spec fn spec_free_slots(s: SwarmView) -> int {
    s.execution.max_parallel_workers - spec_active_count(s.tasks)
}

/// One scheduling tick of an Execution that is executing.
///
/// With no free slot nothing happens. Otherwise the first `free` ready
/// SubTasks are assigned, and if every SubTask is then completed or
/// skipped the Execution moves on to review.
pub open spec fn spec_tick(
    s: SwarmView,
    pool: Seq<AgentProfileWithSkills>,
    prefix: Seq<char>,
    now: i64,
) -> (SwarmView, EffectsView) {
    let free = spec_free_slots(s);
    if free <= 0 {
        (s, EffectsView::nothing())
    } else {
        let tasks = spec_dispatched_tasks(s.tasks, free, pool, prefix, now);
        let starts = spec_start_orders(s.tasks, free, pool, prefix, s.tasks.len() as int);
        if spec_all_settled(tasks) {
            (
                SwarmView {
                    execution: spec_with_status(s.execution, SwarmExecutionStatus::Reviewing, now),
                    tasks: tasks,
                    ..s
                },
                EffectsView {
                    starts: starts,
                    task_updates: Seq::empty(),
                    events: seq![
                        SwarmEventView::ConsensusRequired { swarm_execution_id: s.execution.id },
                    ],
                },
            )
        } else {
            (
                SwarmView { tasks: tasks, ..s },
                EffectsView { starts: starts, task_updates: Seq::empty(), events: Seq::empty() },
            )
        }
    }
}

/// Readiness of a SubTask depends only on its own status and dependencies
/// and on which SubTasks are completed.
pub proof fn lemma_ready_stable(a: Seq<SwarmTaskView>, b: Seq<SwarmTaskView>, i: int)
    requires
        a.len() == b.len(),
        0 <= i < a.len(),
        a[i].status == b[i].status,
        a[i].depends_on == b[i].depends_on,
        forall|j: int|
            0 <= j < a.len() ==> (#[trigger] a[j]).id == b[j].id && (a[j].status
                == SwarmTaskStatus::Completed <==> b[j].status == SwarmTaskStatus::Completed),
    ensures
        spec_deps_completed(a, i) == spec_deps_completed(b, i),
        spec_is_ready(a, i) == spec_is_ready(b, i),
{
    assert forall|d: u128| spec_dep_completed(a, d) == spec_dep_completed(b, d) by {
        if spec_dep_completed(a, d) {
            let j = choose|j: int|
                0 <= j < a.len() && (#[trigger] a[j]).id == d && a[j].status
                    == SwarmTaskStatus::Completed;
            assert(b[j].id == d && b[j].status == SwarmTaskStatus::Completed);
        }
        if spec_dep_completed(b, d) {
            let j = choose|j: int|
                0 <= j < b.len() && (#[trigger] b[j]).id == d && b[j].status
                    == SwarmTaskStatus::Completed;
            assert(a[j].id == d && a[j].status == SwarmTaskStatus::Completed);
        }
    }
    if spec_deps_completed(a, i) {
        assert forall|k: int| 0 <= k < b[i].depends_on.len() implies spec_dep_completed(
            b,
            #[trigger] b[i].depends_on[k],
        ) by {
            assert(spec_dep_completed(a, a[i].depends_on[k]));
        }
    }
    if spec_deps_completed(b, i) {
        assert forall|k: int| 0 <= k < a[i].depends_on.len() implies spec_dep_completed(
            a,
            #[trigger] a[i].depends_on[k],
        ) by {
            assert(spec_dep_completed(b, b[i].depends_on[k]));
        }
    }
}

/// The SubTasks while a tick has gone through the first `n` of them.
pub open spec fn spec_dispatched_prefix(
    ts: Seq<SwarmTaskView>,
    free: int,
    pool: Seq<AgentProfileWithSkills>,
    prefix: Seq<char>,
    now: i64,
    n: int,
) -> Seq<SwarmTaskView> {
    Seq::new(
        ts.len(),
        |i: int|
            if i < n && spec_dispatches(ts, free, pool, i) {
                spec_assigned(
                    ts[i],
                    spec_chosen_agent(ts[i], pool),
                    spec_branch_name(prefix, ts[i].id),
                    now,
                )
            } else {
                ts[i]
            },
    )
}

/// While a tick is under way, the SubTask it looks at next is ready
/// exactly if it was ready when the tick began.
pub proof fn lemma_ready_in_prefix(
    ts: Seq<SwarmTaskView>,
    free: int,
    pool: Seq<AgentProfileWithSkills>,
    prefix: Seq<char>,
    now: i64,
    n: int,
)
    requires
        0 <= n < ts.len(),
    ensures
        spec_is_ready(spec_dispatched_prefix(ts, free, pool, prefix, now, n), n) == spec_is_ready(
            ts,
            n,
        ),
{
    let cur = spec_dispatched_prefix(ts, free, pool, prefix, now, n);
    assert(cur[n] == ts[n]);
    assert forall|j: int| 0 <= j < cur.len() implies (#[trigger] cur[j]).id == ts[j].id && (
    cur[j].status == SwarmTaskStatus::Completed <==> ts[j].status
        == SwarmTaskStatus::Completed) by {}
    lemma_ready_stable(cur, ts, n);
}

/// How many of the first `n` SubTasks a tick dispatches.
pub open spec fn spec_dispatch_count(
    ts: Seq<SwarmTaskView>,
    free: int,
    pool: Seq<AgentProfileWithSkills>,
    n: int,
) -> int
    decreases n,
{
    if n <= 0 {
        0
    } else {
        spec_dispatch_count(ts, free, pool, n - 1) + if spec_dispatches(ts, free, pool, n - 1) {
            1int
        } else {
            0int
        }
    }
}

/// A tick never dispatches more SubTasks than there are free slots, nor more than are ready.
pub proof fn lemma_dispatch_count_bounded(
    ts: Seq<SwarmTaskView>,
    free: int,
    pool: Seq<AgentProfileWithSkills>,
    n: int,
)
    requires
        0 <= free,
        0 <= n,
    ensures
        0 <= spec_dispatch_count(ts, free, pool, n) <= free,
        spec_dispatch_count(ts, free, pool, n) <= spec_ready_before(ts, n),
    decreases n,
{
    if n > 0 {
        lemma_dispatch_count_bounded(ts, free, pool, n - 1);
    }
}

/// After a tick, the SubTasks that hold a slot are those that held one
/// before and those that the tick dispatched.
pub proof fn lemma_dispatch_active_count(
    ts: Seq<SwarmTaskView>,
    free: int,
    pool: Seq<AgentProfileWithSkills>,
    prefix: Seq<char>,
    now: i64,
    n: int,
)
    requires
        0 <= n <= ts.len(),
    ensures
        ({
            let after = spec_dispatched_tasks(ts, free, pool, prefix, now);
            spec_count_status(after, SwarmTaskStatus::Running, n) + spec_count_status(
                after,
                SwarmTaskStatus::Assigned,
                n,
            ) == spec_count_status(ts, SwarmTaskStatus::Running, n) + spec_count_status(
                ts,
                SwarmTaskStatus::Assigned,
                n,
            ) + spec_dispatch_count(ts, free, pool, n)
        }),
    decreases n,
{
    if n > 0 {
        lemma_dispatch_active_count(ts, free, pool, prefix, now, n - 1);
        let after = spec_dispatched_tasks(ts, free, pool, prefix, now);
        assert(after[n - 1] == if spec_dispatches(ts, free, pool, n - 1) {
            spec_assigned(
                ts[n - 1],
                spec_chosen_agent(ts[n - 1], pool),
                spec_branch_name(prefix, ts[n - 1].id),
                now,
            )
        } else {
            ts[n - 1]
        });
    }
}

/// A tick keeps the structural invariant, bounded parallelism, and the
/// rule that nothing is dispatched ahead of its dependencies.
pub proof fn lemma_tick_keeps_invariants(
    s: SwarmView,
    pool: Seq<AgentProfileWithSkills>,
    prefix: Seq<char>,
    now: i64,
)
    requires
        s.wf(),
    ensures
        spec_tick(s, pool, prefix, now).0.wf(),
        s.within_capacity() ==> spec_tick(s, pool, prefix, now).0.within_capacity(),
        spec_deps_respected(s.tasks) ==> spec_deps_respected(spec_tick(s, pool, prefix, now).0.tasks),
        s.inv() ==> spec_tick(s, pool, prefix, now).0.inv(),
{
    reveal(spec_ids_distinct);
    reveal(spec_forward_deps);
    reveal(spec_in_sequence);
    reveal(spec_deps_respected);
    let free = spec_free_slots(s);
    if free > 0 {
        let ts = s.tasks;
        let after = spec_dispatched_tasks(ts, free, pool, prefix, now);
        let n = ts.len() as int;
        assert forall|i: int| 0 <= i < n implies (#[trigger] after[i]).id == ts[i].id
            && after[i].depends_on == ts[i].depends_on && after[i].sequence_order
            == ts[i].sequence_order && (after[i].status == SwarmTaskStatus::Completed
            <==> ts[i].status == SwarmTaskStatus::Completed) by {}
        assert(spec_ids_distinct(after)) by {
            assert forall|i: int, j: int| 0 <= i < j < after.len() implies (#[trigger] after[i]).id
                != (#[trigger] after[j]).id by {
                assert(ts[i].id != ts[j].id);
            }
        }
        assert(spec_forward_deps(after)) by {
            assert forall|i: int, k: int|
                0 <= i < after.len() && 0 <= k < after[i].depends_on.len() implies spec_names_earlier(
                after,
                i,
                #[trigger] after[i].depends_on[k],
            ) by {
                let d = ts[i].depends_on[k];
                assert(spec_names_earlier(ts, i, d));
                let j = choose|j: int| 0 <= j < i && j < ts.len() && (#[trigger] ts[j]).id == d;
                assert(after[j].id == d);
            }
        }
        assert(spec_in_sequence(after)) by {
            assert forall|i: int, j: int| 0 <= i < j < after.len() implies (
            #[trigger] after[i]).sequence_order <= (#[trigger] after[j]).sequence_order by {
                assert(ts[i].sequence_order <= ts[j].sequence_order);
            }
        }
        lemma_dispatch_active_count(ts, free, pool, prefix, now, n);
        lemma_dispatch_count_bounded(ts, free, pool, n);
        if spec_deps_respected(ts) {
            assert forall|i: int|
                0 <= i < after.len() && ((#[trigger] after[i]).status == SwarmTaskStatus::Assigned
                    || after[i].status == SwarmTaskStatus::Running || after[i].status
                    == SwarmTaskStatus::Completed) implies spec_deps_completed(after, i) by {
                if spec_dispatches(ts, free, pool, i) {
                    assert(spec_deps_completed(ts, i));
                } else {
                    assert(after[i] == ts[i]);
                    assert(spec_deps_completed(ts, i));
                }
                lemma_deps_completed_carry(ts, after, i);
            }
        }
    }
}

/// Dependencies that are completed stay completed where no completed SubTask changes.
pub proof fn lemma_deps_completed_carry(a: Seq<SwarmTaskView>, b: Seq<SwarmTaskView>, i: int)
    requires
        a.len() == b.len(),
        0 <= i < a.len(),
        a[i].depends_on == b[i].depends_on,
        spec_deps_completed(a, i),
        forall|j: int|
            0 <= j < a.len() && (#[trigger] a[j]).status == SwarmTaskStatus::Completed ==> b[j].id
                == a[j].id && b[j].status == SwarmTaskStatus::Completed,
    ensures
        spec_deps_completed(b, i),
{
    assert forall|k: int| 0 <= k < b[i].depends_on.len() implies spec_dep_completed(
        b,
        #[trigger] b[i].depends_on[k],
    ) by {
        let d = a[i].depends_on[k];
        assert(spec_dep_completed(a, d));
        let j = choose|j: int|
            0 <= j < a.len() && (#[trigger] a[j]).id == d && a[j].status
                == SwarmTaskStatus::Completed;
        assert(b[j].id == d && b[j].status == SwarmTaskStatus::Completed);
    }
}

/// The Execution still takes events of its SubTasks: it is executing, or paused.
pub open spec fn spec_takes_events(status: SwarmExecutionStatus) -> bool {
    status == SwarmExecutionStatus::Executing || status == SwarmExecutionStatus::Planned
}

/// The start of the SubTask at position `i`, which is assigned to `agent`.
pub open spec fn spec_start(
    s: SwarmView,
    i: int,
    agent: u128,
    workspace_id: u128,
    now: i64,
) -> (SwarmView, EffectsView) {
    (
        SwarmView { tasks: s.tasks.update(i, spec_running(s.tasks[i], workspace_id, now)), ..s },
        EffectsView {
            starts: Seq::empty(),
            task_updates: seq![
                TaskUpdate { task_id: s.tasks[i].task_id, status: TaskStatus::InProgress },
            ],
            events: seq![
                SwarmEventView::TaskStarted { swarm_task_id: s.tasks[i].id, agent_id: agent },
            ],
        },
    )
}

/// The completion of the running SubTask at position `i`: it is marked
/// completed, the events are published, and an executing Execution ticks.
pub open spec fn spec_complete(
    s: SwarmView,
    i: int,
    pool: Seq<AgentProfileWithSkills>,
    prefix: Seq<char>,
    now: i64,
) -> (SwarmView, EffectsView) {
    let done = SwarmView { tasks: s.tasks.update(i, spec_completed(s.tasks[i], now)), ..s };
    let first = EffectsView {
        starts: Seq::empty(),
        task_updates: seq![TaskUpdate { task_id: s.tasks[i].task_id, status: TaskStatus::Done }],
        events: seq![
            SwarmEventView::TaskCompleted { swarm_task_id: s.tasks[i].id },
            SwarmEventView::ExecutionProgress {
                progress: spec_progress(done.tasks),
            },
        ],
    };
    if s.execution.status == SwarmExecutionStatus::Executing {
        let (after, more) = spec_tick(done, pool, prefix, now);
        (after, first.followed_by(more))
    } else {
        (done, first)
    }
}

/// Replacing one SubTask by one with the same identifier, dependencies
/// and place in the sequence keeps the structure of the list.
pub proof fn lemma_update_keeps_structure(s: SwarmView, i: int, t: SwarmTaskView)
    requires
        s.wf(),
        0 <= i < s.tasks.len(),
        t.id == s.tasks[i].id,
        t.depends_on == s.tasks[i].depends_on,
        t.sequence_order == s.tasks[i].sequence_order,
    ensures
        (SwarmView { tasks: s.tasks.update(i, t), ..s }).wf(),
{
    reveal(spec_ids_distinct);
    reveal(spec_forward_deps);
    reveal(spec_in_sequence);
    let ts = s.tasks;
    let after = ts.update(i, t);
    assert(spec_ids_distinct(after)) by {
        assert forall|a: int, b: int| 0 <= a < b < after.len() implies (#[trigger] after[a]).id != (
        #[trigger] after[b]).id by {
            assert(ts[a].id != ts[b].id);
        }
    }
    assert(spec_forward_deps(after)) by {
        assert forall|a: int, k: int|
            0 <= a < after.len() && 0 <= k < after[a].depends_on.len() implies spec_names_earlier(
            after,
            a,
            #[trigger] after[a].depends_on[k],
        ) by {
            let d = ts[a].depends_on[k];
            assert(spec_names_earlier(ts, a, d));
            let j = choose|j: int| 0 <= j < a && j < ts.len() && (#[trigger] ts[j]).id == d;
            assert(after[j].id == d);
        }
    }
    assert(spec_in_sequence(after)) by {
        assert forall|a: int, b: int| 0 <= a < b < after.len() implies (
        #[trigger] after[a]).sequence_order <= (#[trigger] after[b]).sequence_order by {
            assert(ts[a].sequence_order <= ts[b].sequence_order);
        }
    }
}

/// Where no SubTask gains a worker slot, the number of held slots does not grow.
pub proof fn lemma_active_count_shrinks(a: Seq<SwarmTaskView>, b: Seq<SwarmTaskView>, n: int)
    requires
        a.len() == b.len(),
        0 <= n <= a.len(),
        forall|j: int|
            0 <= j < a.len() && (#[trigger] b[j]).status.spec_is_active()
                ==> a[j].status.spec_is_active(),
    ensures
        spec_count_status(b, SwarmTaskStatus::Running, n) + spec_count_status(
            b,
            SwarmTaskStatus::Assigned,
            n,
        ) <= spec_count_status(a, SwarmTaskStatus::Running, n) + spec_count_status(
            a,
            SwarmTaskStatus::Assigned,
            n,
        ),
    decreases n,
{
    if n > 0 {
        lemma_active_count_shrinks(a, b, n - 1);
        assert(b[n - 1].status.spec_is_active() ==> a[n - 1].status.spec_is_active());
    }
}

/// The dependency rule carries over to a list in which completed SubTasks
/// stay completed and whatever holds or held a slot had its dependencies completed.
pub proof fn lemma_deps_respected_carry(a: Seq<SwarmTaskView>, b: Seq<SwarmTaskView>)
    requires
        a.len() == b.len(),
        forall|j: int| 0 <= j < a.len() ==> (#[trigger] a[j]).id == b[j].id && a[j].depends_on == b[j].depends_on,
        forall|j: int|
            0 <= j < a.len() && (#[trigger] a[j]).status == SwarmTaskStatus::Completed ==> b[j].status
                == SwarmTaskStatus::Completed,
        forall|j: int|
            0 <= j < a.len() && ((#[trigger] b[j]).status == SwarmTaskStatus::Assigned || b[j].status
                == SwarmTaskStatus::Running || b[j].status == SwarmTaskStatus::Completed)
                ==> spec_deps_completed(a, j),
    ensures
        spec_deps_respected(b),
{
    reveal(spec_deps_respected);
    assert forall|i: int|
        0 <= i < b.len() && ((#[trigger] b[i]).status == SwarmTaskStatus::Assigned || b[i].status
            == SwarmTaskStatus::Running || b[i].status == SwarmTaskStatus::Completed) implies spec_deps_completed(
        b,
        i,
    ) by {
        assert(a[i].id == b[i].id);
        assert(spec_deps_completed(a, i));
        assert forall|j: int|
            0 <= j < a.len() && (#[trigger] a[j]).status
                == SwarmTaskStatus::Completed implies b[j].id == a[j].id && b[j].status
            == SwarmTaskStatus::Completed by {}
        lemma_deps_completed_carry(a, b, i);
    }
}

/// Starting an assigned SubTask keeps every invariant.
pub proof fn lemma_start_keeps_invariants(
    s: SwarmView,
    i: int,
    agent: u128,
    workspace_id: u128,
    now: i64,
)
    requires
        s.wf(),
        0 <= i < s.tasks.len(),
        s.tasks[i].status == SwarmTaskStatus::Assigned,
    ensures
        spec_start(s, i, agent, workspace_id, now).0.wf(),
        s.inv() ==> spec_start(s, i, agent, workspace_id, now).0.inv(),
{
    reveal(spec_deps_respected);
    let t = spec_running(s.tasks[i], workspace_id, now);
    let after = s.tasks.update(i, t);
    lemma_update_keeps_structure(s, i, t);
    lemma_active_count_shrinks(s.tasks, after, s.tasks.len() as int);
    if spec_deps_respected(s.tasks) {
        assert forall|j: int| 0 <= j < s.tasks.len() implies (#[trigger] s.tasks[j]).id
            == after[j].id && s.tasks[j].depends_on == after[j].depends_on by {}
        lemma_deps_respected_carry(s.tasks, after);
    }
}

/// Completing a running SubTask, and the tick that follows, keep every invariant.
pub proof fn lemma_complete_keeps_invariants(
    s: SwarmView,
    i: int,
    pool: Seq<AgentProfileWithSkills>,
    prefix: Seq<char>,
    now: i64,
)
    requires
        s.wf(),
        0 <= i < s.tasks.len(),
        s.tasks[i].status == SwarmTaskStatus::Running,
    ensures
        (SwarmView { tasks: s.tasks.update(i, spec_completed(s.tasks[i], now)), ..s }).wf(),
        spec_complete(s, i, pool, prefix, now).0.wf(),
        s.inv() ==> spec_complete(s, i, pool, prefix, now).0.inv(),
{
    reveal(spec_deps_respected);
    let t = spec_completed(s.tasks[i], now);
    let after = s.tasks.update(i, t);
    let done = SwarmView { tasks: after, ..s };
    lemma_update_keeps_structure(s, i, t);
    lemma_active_count_shrinks(s.tasks, after, s.tasks.len() as int);
    if spec_deps_respected(s.tasks) {
        assert forall|j: int| 0 <= j < s.tasks.len() implies (#[trigger] s.tasks[j]).id
            == after[j].id && s.tasks[j].depends_on == after[j].depends_on by {}
        lemma_deps_respected_carry(s.tasks, after);
    }
    lemma_tick_keeps_invariants(done, pool, prefix, now);
}

/// The dependency `d` of the SubTask at position `i` leads back to the
/// SubTask `root`: it names `root` itself, or an earlier SubTask that
/// descends from `root`.
pub open spec fn spec_leads_back(ts: Seq<SwarmTaskView>, root: u128, i: int, d: u128) -> bool
    decreases i, 0int,
{
    d == root || exists|j: int|
        0 <= j < i && j < ts.len() && (#[trigger] ts[j]).id == d && spec_descends(ts, root, j)
}

/// The SubTask at position `i` descends from the SubTask `root`: it
/// depends on it, directly or through a chain of dependencies.
pub open spec fn spec_descends(ts: Seq<SwarmTaskView>, root: u128, i: int) -> bool
    decreases i, 1int,
{
    0 <= i < ts.len() && exists|k: int|
        0 <= k < ts[i].depends_on.len() && spec_leads_back(
            ts,
            root,
            i,
            #[trigger] ts[i].depends_on[k],
        )
}

/// The cascading skip: every SubTask that descends from `root` and has
/// not reached a terminal status is skipped.
pub open spec fn spec_cascade(ts: Seq<SwarmTaskView>, root: u128, now: i64) -> Seq<SwarmTaskView> {
    Seq::new(
        ts.len(),
        |i: int|
            if spec_descends(ts, root, i) && !spec_is_terminal(ts[i].status) {
                spec_skipped(ts[i], now)
            } else {
                ts[i]
            },
    )
}

/// A strict majority of the SubTasks has failed.
pub open spec fn spec_majority_failed(ts: Seq<SwarmTaskView>) -> bool {
    spec_total_status(ts, SwarmTaskStatus::Failed) > ts.len() as int / 2
}

/// The error message of an Execution in which a majority of the SubTasks failed.
pub open spec fn spec_too_many_failed() -> Seq<char> {
    "Too many tasks failed"@
}

/// An Execution as a fatal error leaves it.
pub open spec fn spec_with_error(
    e: SwarmExecutionView,
    error: Seq<char>,
    now: i64,
) -> SwarmExecutionView {
    SwarmExecutionView {
        error_message: Some(error),
        status: SwarmExecutionStatus::Failed,
        completed_at: Some(now),
        updated_at: now,
        ..e
    }
}

/// The failure of the SubTask at position `i`, which runs or is assigned.
///
/// While retries are left the SubTask goes back to pending and nothing
/// else happens. Otherwise it fails for good, its descendants are
/// skipped, and the Execution fails with it where a strict majority of
/// the SubTasks has failed. The last component tells whether it was retried.
pub open spec fn spec_fail(s: SwarmView, i: int, error: Seq<char>, now: i64) -> (
    SwarmView,
    EffectsView,
    bool,
) {
    let t = s.tasks[i];
    if t.retry_count < t.max_retries {
        (SwarmView { tasks: s.tasks.update(i, spec_retried(t, now)), ..s }, EffectsView::nothing(), true)
    } else {
        let tasks = spec_cascade(s.tasks.update(i, spec_failed(t, error, now)), t.id, now);
        let task_updates = seq![TaskUpdate { task_id: t.task_id, status: TaskStatus::Cancelled }];
        let failed = SwarmEventView::TaskFailed { swarm_task_id: t.id, error: error };
        if spec_majority_failed(tasks) {
            (
                SwarmView {
                    execution: spec_with_error(s.execution, spec_too_many_failed(), now),
                    tasks: tasks,
                    ..s
                },
                EffectsView {
                    starts: Seq::empty(),
                    task_updates: task_updates,
                    events: seq![
                        failed,
                        SwarmEventView::ExecutionFailed {
                            swarm_execution_id: s.execution.id,
                            error: spec_too_many_failed(),
                        },
                    ],
                },
                false,
            )
        } else {
            (
                SwarmView { tasks: tasks, ..s },
                EffectsView { starts: Seq::empty(), task_updates: task_updates, events: seq![failed] },
                false,
            )
        }
    }
}

/// The SubTasks after a cancellation: whatever was pending or blocked is skipped.
pub open spec fn spec_cancelled_tasks(ts: Seq<SwarmTaskView>, now: i64) -> Seq<SwarmTaskView> {
    Seq::new(
        ts.len(),
        |i: int|
            if ts[i].status == SwarmTaskStatus::Pending || ts[i].status
                == SwarmTaskStatus::Blocked {
                spec_skipped(ts[i], now)
            } else {
                ts[i]
            },
    )
}

/// The cancellation of an Execution.
pub open spec fn spec_cancel(s: SwarmView, now: i64) -> SwarmView {
    SwarmView {
        execution: spec_with_status(s.execution, SwarmExecutionStatus::Cancelled, now),
        tasks: spec_cancelled_tasks(s.tasks, now),
        ..s
    }
}

/// The pause of an executing Execution: it goes back to planned, and no SubTask changes.
pub open spec fn spec_pause(s: SwarmView, now: i64) -> SwarmView {
    SwarmView { execution: spec_with_status(s.execution, SwarmExecutionStatus::Planned, now), ..s }
}

/// The resumption of a paused Execution: it executes again, and ticks.
pub open spec fn spec_resume(
    s: SwarmView,
    pool: Seq<AgentProfileWithSkills>,
    prefix: Seq<char>,
    now: i64,
) -> (SwarmView, EffectsView) {
    spec_tick(
        SwarmView {
            execution: spec_with_status(s.execution, SwarmExecutionStatus::Executing, now),
            ..s
        },
        pool,
        prefix,
        now,
    )
}

/// A list of SubTasks with the same identifiers, dependencies and
/// sequence has the same structure.
pub proof fn lemma_same_structure(s: SwarmView, tasks: Seq<SwarmTaskView>)
    requires
        s.wf(),
        tasks.len() == s.tasks.len(),
        forall|j: int|
            0 <= j < tasks.len() ==> (#[trigger] tasks[j]).id == s.tasks[j].id && tasks[j].depends_on
                == s.tasks[j].depends_on && tasks[j].sequence_order == s.tasks[j].sequence_order,
    ensures
        (SwarmView { tasks: tasks, ..s }).wf(),
{
    reveal(spec_ids_distinct);
    reveal(spec_forward_deps);
    reveal(spec_in_sequence);
    let ts = s.tasks;
    assert(spec_ids_distinct(tasks)) by {
        assert forall|a: int, b: int| 0 <= a < b < tasks.len() implies (#[trigger] tasks[a]).id != (
        #[trigger] tasks[b]).id by {
            assert(ts[a].id != ts[b].id);
        }
    }
    assert(spec_forward_deps(tasks)) by {
        assert forall|a: int, k: int|
            0 <= a < tasks.len() && 0 <= k < tasks[a].depends_on.len() implies spec_names_earlier(
            tasks,
            a,
            #[trigger] tasks[a].depends_on[k],
        ) by {
            let d = ts[a].depends_on[k];
            assert(spec_names_earlier(ts, a, d));
            let j = choose|j: int| 0 <= j < a && j < ts.len() && (#[trigger] ts[j]).id == d;
            assert(tasks[j].id == d);
        }
    }
    assert(spec_in_sequence(tasks)) by {
        assert forall|a: int, b: int| 0 <= a < b < tasks.len() implies (
        #[trigger] tasks[a]).sequence_order <= (#[trigger] tasks[b]).sequence_order by {
            assert(ts[a].sequence_order <= ts[b].sequence_order);
        }
    }
}

/// A SubTask that names `root` among its dependencies descends from it.
pub proof fn lemma_descends_direct(ts: Seq<SwarmTaskView>, root: u128, i: int, k: int)
    requires
        0 <= i < ts.len(),
        0 <= k < ts[i].depends_on.len(),
        ts[i].depends_on[k] == root,
    ensures
        spec_descends(ts, root, i),
{
    assert(spec_leads_back(ts, root, i, ts[i].depends_on[k]));
}

/// A SubTask that depends on an earlier descendant of `root` descends from `root` too.
pub proof fn lemma_descends_step(ts: Seq<SwarmTaskView>, root: u128, j: int, i: int, k: int)
    requires
        0 <= j < i < ts.len(),
        0 <= k < ts[i].depends_on.len(),
        ts[i].depends_on[k] == ts[j].id,
        spec_descends(ts, root, j),
    ensures
        spec_descends(ts, root, i),
{
    assert(spec_leads_back(ts, root, i, ts[i].depends_on[k]));
}

/// Descent depends on the identifiers and the dependencies alone.
pub proof fn lemma_descends_same_structure(
    a: Seq<SwarmTaskView>,
    b: Seq<SwarmTaskView>,
    root: u128,
    i: int,
)
    requires
        a.len() == b.len(),
        forall|j: int|
            0 <= j < a.len() ==> (#[trigger] a[j]).id == b[j].id && a[j].depends_on
                == b[j].depends_on,
    ensures
        spec_descends(a, root, i) == spec_descends(b, root, i),
    decreases i,
{
    if 0 <= i < a.len() {
        assert(a[i].depends_on == b[i].depends_on);
        assert forall|d: u128| spec_leads_back(a, root, i, d) == spec_leads_back(b, root, i, d) by {
            if spec_leads_back(a, root, i, d) && d != root {
                let j = choose|j: int|
                    0 <= j < i && j < a.len() && (#[trigger] a[j]).id == d && spec_descends(
                        a,
                        root,
                        j,
                    );
                lemma_descends_same_structure(a, b, root, j);
                assert(b[j].id == d);
            }
            if spec_leads_back(b, root, i, d) && d != root {
                let j = choose|j: int|
                    0 <= j < i && j < b.len() && (#[trigger] b[j]).id == d && spec_descends(
                        b,
                        root,
                        j,
                    );
                lemma_descends_same_structure(a, b, root, j);
                assert(a[j].id == d);
            }
        }
        if spec_descends(a, root, i) {
            let k = choose|k: int|
                0 <= k < a[i].depends_on.len() && spec_leads_back(
                    a,
                    root,
                    i,
                    #[trigger] a[i].depends_on[k],
                );
            assert(spec_leads_back(b, root, i, b[i].depends_on[k]));
        }
        if spec_descends(b, root, i) {
            let k = choose|k: int|
                0 <= k < b[i].depends_on.len() && spec_leads_back(
                    b,
                    root,
                    i,
                    #[trigger] b[i].depends_on[k],
                );
            assert(spec_leads_back(a, root, i, a[i].depends_on[k]));
        }
    }
}

/// After the cascading skip every SubTask that descends from `root` has
/// a terminal status: it is skipped, failed or completed.
pub proof fn lemma_cascade_settles_descendants(ts: Seq<SwarmTaskView>, root: u128, now: i64)
    ensures
        forall|i: int|
            spec_descends(spec_cascade(ts, root, now), root, i) ==> spec_is_terminal(
                (#[trigger] spec_cascade(ts, root, now)[i]).status,
            ),
{
    let after = spec_cascade(ts, root, now);
    assert forall|i: int| spec_descends(after, root, i) implies spec_is_terminal(
        (#[trigger] after[i]).status,
    ) by {
        assert forall|j: int| 0 <= j < ts.len() implies (#[trigger] ts[j]).id == after[j].id
            && ts[j].depends_on == after[j].depends_on by {}
        lemma_descends_same_structure(ts, after, root, i);
    }
}

/// The cascading skip keeps every invariant.
pub proof fn lemma_cascade_keeps_invariants(s: SwarmView, root: u128, now: i64)
    requires
        s.wf(),
    ensures
        (SwarmView { tasks: spec_cascade(s.tasks, root, now), ..s }).wf(),
        s.inv() ==> (SwarmView { tasks: spec_cascade(s.tasks, root, now), ..s }).inv(),
{
    reveal(spec_deps_respected);
    let after = spec_cascade(s.tasks, root, now);
    assert forall|j: int| 0 <= j < after.len() implies (#[trigger] after[j]).id == s.tasks[j].id
        && after[j].depends_on == s.tasks[j].depends_on && after[j].sequence_order
        == s.tasks[j].sequence_order by {}
    lemma_same_structure(s, after);
    lemma_active_count_shrinks(s.tasks, after, s.tasks.len() as int);
    if spec_deps_respected(s.tasks) {
        assert forall|j: int| 0 <= j < s.tasks.len() implies (#[trigger] s.tasks[j]).id
            == after[j].id && s.tasks[j].depends_on == after[j].depends_on by {}
        lemma_deps_respected_carry(s.tasks, after);
    }
}

/// The failure of a SubTask keeps every invariant, and where the
/// SubTask fails for good, all its descendants end in a terminal status.
pub proof fn lemma_fail_keeps_invariants(s: SwarmView, i: int, error: Seq<char>, now: i64)
    requires
        s.wf(),
        0 <= i < s.tasks.len(),
        s.tasks[i].status == SwarmTaskStatus::Running || s.tasks[i].status
            == SwarmTaskStatus::Assigned,
    ensures
        spec_fail(s, i, error, now).0.wf(),
        s.inv() ==> spec_fail(s, i, error, now).0.inv(),
        !spec_fail(s, i, error, now).2 ==> forall|j: int|
            spec_descends(spec_fail(s, i, error, now).0.tasks, s.tasks[i].id, j)
                ==> spec_is_terminal((#[trigger] spec_fail(s, i, error, now).0.tasks[j]).status),
{
    reveal(spec_deps_respected);
    let t = s.tasks[i];
    if t.retry_count < t.max_retries {
        let u = spec_retried(t, now);
        let after = s.tasks.update(i, u);
        lemma_update_keeps_structure(s, i, u);
        lemma_active_count_shrinks(s.tasks, after, s.tasks.len() as int);
        if spec_deps_respected(s.tasks) {
            assert forall|j: int| 0 <= j < s.tasks.len() implies (#[trigger] s.tasks[j]).id
                == after[j].id && s.tasks[j].depends_on == after[j].depends_on by {}
            lemma_deps_respected_carry(s.tasks, after);
        }
    } else {
        let u = spec_failed(t, error, now);
        let failed = s.tasks.update(i, u);
        let mid = SwarmView { tasks: failed, ..s };
        lemma_update_keeps_structure(s, i, u);
        lemma_active_count_shrinks(s.tasks, failed, s.tasks.len() as int);
        if spec_deps_respected(s.tasks) {
            assert forall|j: int| 0 <= j < s.tasks.len() implies (#[trigger] s.tasks[j]).id
                == failed[j].id && s.tasks[j].depends_on == failed[j].depends_on by {}
            lemma_deps_respected_carry(s.tasks, failed);
        }
        lemma_cascade_keeps_invariants(mid, t.id, now);
        lemma_cascade_settles_descendants(failed, t.id, now);
        let tasks = spec_cascade(failed, t.id, now);
        let last = SwarmView { tasks: tasks, ..s };
        assert(last == SwarmView { tasks: spec_cascade(mid.tasks, t.id, now), ..mid });
    }
}

/// A cancellation keeps every invariant.
pub proof fn lemma_cancel_keeps_invariants(s: SwarmView, now: i64)
    requires
        s.wf(),
    ensures
        spec_cancel(s, now).wf(),
        s.inv() ==> spec_cancel(s, now).inv(),
{
    reveal(spec_deps_respected);
    let after = spec_cancelled_tasks(s.tasks, now);
    assert forall|j: int| 0 <= j < after.len() implies (#[trigger] after[j]).id == s.tasks[j].id
        && after[j].depends_on == s.tasks[j].depends_on && after[j].sequence_order
        == s.tasks[j].sequence_order by {}
    lemma_same_structure(s, after);
    lemma_active_count_shrinks(s.tasks, after, s.tasks.len() as int);
    if spec_deps_respected(s.tasks) {
        assert forall|j: int| 0 <= j < s.tasks.len() implies (#[trigger] s.tasks[j]).id
            == after[j].id && s.tasks[j].depends_on == after[j].depends_on by {}
        lemma_deps_respected_carry(s.tasks, after);
    }
}

/// Pausing and then resuming an Execution dispatches exactly what a
/// tick at the time of the resumption would have dispatched without the
/// pause: the ready set is the same, and what is running stays as it is.
pub proof fn lemma_pause_resume(
    s: SwarmView,
    pool: Seq<AgentProfileWithSkills>,
    prefix: Seq<char>,
    paused_at: i64,
    now: i64,
)
    requires
        s.wf(),
    ensures
        spec_pause(s, paused_at).tasks == s.tasks,
        forall|i: int| spec_is_ready(spec_pause(s, paused_at).tasks, i) == spec_is_ready(s.tasks, i),
        spec_resume(spec_pause(s, paused_at), pool, prefix, now).0.tasks == spec_tick(
            s,
            pool,
            prefix,
            now,
        ).0.tasks,
        spec_resume(spec_pause(s, paused_at), pool, prefix, now).1.starts == spec_tick(
            s,
            pool,
            prefix,
            now,
        ).1.starts,
        forall|i: int|
            0 <= i < s.tasks.len() && (#[trigger] s.tasks[i]).status == SwarmTaskStatus::Running
                ==> spec_resume(spec_pause(s, paused_at), pool, prefix, now).0.tasks[i]
                == s.tasks[i],
{
}

/// The SubTasks while the cascading skip has gone through the first `n` of them.
pub open spec fn spec_cascade_prefix(
    ts: Seq<SwarmTaskView>,
    root: u128,
    now: i64,
    n: int,
) -> Seq<SwarmTaskView> {
    Seq::new(
        ts.len(),
        |i: int|
            if i < n && spec_descends(ts, root, i) && !spec_is_terminal(ts[i].status) {
                spec_skipped(ts[i], now)
            } else {
                ts[i]
            },
    )
}

/// The SubTasks while a cancellation has gone through the first `n` of them.
pub open spec fn spec_cancelled_prefix(ts: Seq<SwarmTaskView>, now: i64, n: int) -> Seq<
    SwarmTaskView,
> {
    Seq::new(
        ts.len(),
        |i: int|
            if i < n && (ts[i].status == SwarmTaskStatus::Pending || ts[i].status
                == SwarmTaskStatus::Blocked) {
                spec_skipped(ts[i], now)
            } else {
                ts[i]
            },
    )
}

/// The SubTask at position `i` names the SubTask at position `j` among its dependencies.
pub open spec fn spec_depends_on(ts: Seq<SwarmTaskView>, i: int, j: int) -> bool {
    &&& 0 <= i < ts.len()
    &&& 0 <= j < ts.len()
    &&& exists|k: int| 0 <= k < ts[i].depends_on.len() && #[trigger] ts[i].depends_on[k] == ts[j].id
}

/// The `m`-th SubTask of a path depends on the next one.
pub open spec fn spec_link(ts: Seq<SwarmTaskView>, path: Seq<int>, m: int) -> bool {
    spec_depends_on(ts, path[m], path[m + 1])
}

/// `path` is a chain of dependencies: each of its SubTasks depends on the next.
pub open spec fn spec_is_chain(ts: Seq<SwarmTaskView>, path: Seq<int>) -> bool {
    &&& path.len() >= 1
    &&& forall|m: int| 0 <= m < path.len() - 1 ==> #[trigger] spec_link(ts, path, m)
}

/// In a well-formed Execution a SubTask depends on earlier SubTasks only.
pub proof fn lemma_dependency_is_earlier(s: SwarmView, i: int, j: int)
    requires
        s.wf(),
        spec_depends_on(s.tasks, i, j),
    ensures
        j < i,
{
    reveal(spec_ids_distinct);
    reveal(spec_forward_deps);
    let ts = s.tasks;
    let k = choose|k: int| 0 <= k < ts[i].depends_on.len() && #[trigger] ts[i].depends_on[k] == ts[j].id;
    assert(spec_names_earlier(ts, i, ts[i].depends_on[k]));
    let e = choose|e: int| 0 <= e < i && e < ts.len() && (#[trigger] ts[e]).id == ts[i].depends_on[k];
    if e < j {
        assert(ts[e].id != ts[j].id);
    }
    if j < e {
        assert(ts[j].id != ts[e].id);
    }
}

/// The dependency graph of a well-formed Execution has no cycle: along
/// a chain of dependencies the positions fall, so no chain of two or more
/// SubTasks comes back to where it began.
pub proof fn lemma_no_cycle(s: SwarmView, path: Seq<int>)
    requires
        s.wf(),
        spec_is_chain(s.tasks, path),
        path.len() >= 2,
    ensures
        path.last() < path.first(),
        path.last() != path.first(),
    decreases path.len(),
{
    let n = path.len() as int;
    assert(spec_link(s.tasks, path, n - 2));
    lemma_dependency_is_earlier(s, path[n - 2], path[n - 1]);
    if n > 2 {
        let shorter = path.drop_last();
        assert forall|m: int| 0 <= m < shorter.len() - 1 implies #[trigger] spec_link(
            s.tasks,
            shorter,
            m,
        ) by {
            assert(spec_link(s.tasks, path, m));
        }
        lemma_no_cycle(s, shorter);
    }
}

/// A list in which no SubTask has status `status` counts none.
pub proof fn lemma_count_status_none(ts: Seq<SwarmTaskView>, status: SwarmTaskStatus, n: int)
    requires
        0 <= n <= ts.len(),
        forall|i: int| 0 <= i < ts.len() ==> (#[trigger] ts[i]).status != status,
    ensures
        spec_count_status(ts, status, n) == 0,
    decreases n,
{
    if n > 0 {
        lemma_count_status_none(ts, status, n - 1);
    }
}

/// Whatever depends on a SubTask through a chain of dependencies
/// descends from it: in a well-formed Execution the first SubTask of a
/// chain descends from the last one.
pub proof fn lemma_chain_descends(s: SwarmView, path: Seq<int>)
    requires
        s.wf(),
        spec_is_chain(s.tasks, path),
        path.len() >= 2,
    ensures
        spec_descends(s.tasks, s.tasks[path.last()].id, path.first()),
    decreases path.len(),
{
    let ts = s.tasks;
    let root = ts[path.last()].id;
    assert(spec_link(ts, path, 0));
    let i = path[0];
    let j = path[1];
    let k = choose|k: int| 0 <= k < ts[i].depends_on.len() && #[trigger] ts[i].depends_on[k] == ts[j].id;
    if path.len() == 2 {
        lemma_descends_direct(ts, root, i, k);
    } else {
        let rest = path.skip(1);
        assert forall|m: int| 0 <= m < rest.len() - 1 implies #[trigger] spec_link(ts, rest, m) by {
            assert(spec_link(ts, path, m + 1));
        }
        assert(rest.last() == path.last());
        lemma_chain_descends(s, rest);
        lemma_dependency_is_earlier(s, i, j);
        lemma_descends_step(ts, root, j, i, k);
    }
}

} // verus!
