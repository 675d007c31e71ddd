//! The scheduler: drives an Execution from `Executing` to the point where
//! every SubTask is settled.
//!
//! Every operation is a step of a state machine. It reads and updates a
//! [`Swarm`], and returns as [`Effects`] what the caller has to carry out:
//! workspaces to create, child tasks to update, events to publish.

use vstd::prelude::*;
use vstd::string::*;
use crate::assignment::{
    skill_score, spec_at_least_as_good, spec_best_worker, spec_has_worker, spec_is_best,
    spec_skill_score,
};
use crate::events::{
    no_events, one_event, two_events, Effects, EffectsView, StartOrder, SwarmError, SwarmEvent,
    TaskUpdate,
};
use crate::ident::short_id;
use crate::models::agent_profile::AgentProfileWithSkills;
use crate::models::swarm_execution::SwarmExecutionStatus;
use crate::models::swarm_task::{spec_failed, spec_is_terminal, SwarmProgress, SwarmTaskStatus};
use crate::models::task::TaskStatus;
use crate::schedule::{
    lemma_cancel_keeps_invariants, lemma_cascade_keeps_invariants,
    lemma_cascade_settles_descendants, lemma_complete_keeps_invariants,
    lemma_fail_keeps_invariants, lemma_ready_in_prefix, lemma_start_keeps_invariants,
    lemma_tick_keeps_invariants, lemma_update_keeps_structure, spec_branch_name, spec_cancel,
    spec_cancelled_prefix, spec_cancelled_tasks, spec_cascade, spec_cascade_prefix,
    spec_chosen_agent, spec_complete, spec_descends, spec_dispatched_prefix,
    spec_dispatched_tasks, spec_fail, spec_leads_back, spec_majority_failed, spec_order_for,
    spec_pause, spec_resume, spec_start, spec_start_orders, spec_takes_events, spec_tick,
};
use crate::swarm::{spec_position, spec_ready_before, Swarm, SwarmView};

verus! {

/// Configuration of the scheduler.
#[derive(Debug)]
pub struct SwarmManagerConfig {
    pub max_parallel_tasks: i32,
    pub task_timeout_seconds: i64,
    pub retry_delay_seconds: i64,
    pub branch_prefix: String,
}

impl Default for SwarmManagerConfig {
    fn default() -> (c: Self)
        ensures
            c.max_parallel_tasks == 5,
            c.task_timeout_seconds == 3600,
            c.retry_delay_seconds == 30,
            c.branch_prefix@ == "swarm"@,
    {
        SwarmManagerConfig {
            max_parallel_tasks: 5,
            task_timeout_seconds: 3600,
            retry_delay_seconds: 30,
            branch_prefix: "swarm".to_owned(),
        }
    }
}

/// The scheduler. It holds its configuration by value and keeps no other state.
#[derive(Debug)]
pub struct SwarmManager {
    pub config: SwarmManagerConfig,
}

/// Builds the branch name of a SubTask.
pub fn branch_name(prefix: &str, id: u128) -> (name: String)
    ensures
        name@ == spec_branch_name(prefix@, id),
{
    let mut name = String::new();
    name.append(prefix);
    name.append("/task-");
    let short = short_id(id);
    name.append(short.as_str());
    assert(name@ =~= spec_branch_name(prefix@, id));
    name
}

/// The pool holds at least one available worker.
pub fn pool_has_worker(pool: &Vec<AgentProfileWithSkills>) -> (b: bool)
    ensures
        b == spec_has_worker(pool@),
{
    let mut j: usize = 0;
    while j < pool.len()
        invariant
            j <= pool.len(),
            forall|m: int| 0 <= m < j ==> !(#[trigger] pool[m]).profile.spec_is_available_worker(),
        decreases pool.len() - j,
    {
        if pool[j].profile.is_available_worker() {
            return true;
        }
        j += 1;
    }
    false
}

/// The Execution still takes events of its SubTasks.
pub fn takes_events(status: SwarmExecutionStatus) -> (b: bool)
    ensures
        b == spec_takes_events(status),
{
    status == SwarmExecutionStatus::Executing || status == SwarmExecutionStatus::Planned
}

impl SwarmManager {
    pub fn new() -> (m: Self)
        ensures
            m.config.max_parallel_tasks == 5,
            m.config.task_timeout_seconds == 3600,
            m.config.retry_delay_seconds == 30,
            m.config.branch_prefix@ == "swarm"@,
    {
        SwarmManager { config: SwarmManagerConfig::default() }
    }

    pub fn with_config(config: SwarmManagerConfig) -> (m: Self)
        ensures
            m.config == config,
    {
        SwarmManager { config }
    }

    /// The phase of the Execution.
    pub fn get_status(&self, swarm: &Swarm) -> (s: SwarmExecutionStatus)
        ensures
            s == swarm.execution.status,
    {
        swarm.execution.status
    }

    /// The progress snapshot of the Execution's SubTasks.
    pub fn get_progress(&self, swarm: &Swarm) -> (p: SwarmProgress)
        requires
            swarm.tasks.len() <= i32::MAX,
        ensures
            p == crate::swarm::spec_progress(swarm@.tasks),
    {
        swarm.get_progress()
    }

    /// Picks the worker for a SubTask that requires `required`: the
    /// position in `pool` of the best available worker.
    pub fn find_best_agent(
        &self,
        required: &Vec<String>,
        pool: &Vec<AgentProfileWithSkills>,
    ) -> (r: Result<usize, SwarmError>)
        ensures
            r matches Ok(i) ==> i < pool.len() && spec_is_best(required.deep_view(), pool@, i as int)
                && spec_best_worker(required.deep_view(), pool@) == Some(i as int),
            r matches Err(e) ==> e is NoAvailableWorkers && spec_best_worker(
                required.deep_view(),
                pool@,
            ) is None,
            r is Ok <==> spec_has_worker(pool@),
    {
        let ghost req = required.deep_view();
        let mut best: Option<usize> = None;
        let mut best_score: usize = 0;
        let mut i: usize = 0;
        while i < pool.len()
            invariant
                i <= pool.len(),
                req == required.deep_view(),
                best matches Some(b) ==> b < i && pool[b as int].profile.spec_is_available_worker()
                    && best_score == spec_skill_score(req, pool[b as int]),
                best matches Some(b) ==> forall|j: int|
                    0 <= j < i && (#[trigger] pool[j]).profile.spec_is_available_worker()
                        ==> spec_at_least_as_good(req, pool[b as int], pool[j]),
                best matches Some(b) ==> forall|j: int|
                    0 <= j < b && (#[trigger] pool[j]).profile.spec_is_available_worker()
                        ==> !spec_at_least_as_good(req, pool[j], pool[b as int]),
                best is None ==> forall|j: int|
                    0 <= j < i ==> !(#[trigger] pool[j]).profile.spec_is_available_worker(),
            decreases pool.len() - i,
        {
            if pool[i].profile.is_available_worker() {
                let score = skill_score(required, &pool[i]);
                match best {
                    None => {
                        best = Some(i);
                        best_score = score;
                    },
                    Some(b) => {
                        let better = score > best_score || (score == best_score && (
                        pool[i].profile.priority > pool[b].profile.priority || (
                        pool[i].profile.priority == pool[b].profile.priority && pool[i].profile.id
                            < pool[b].profile.id)));
                        if better {
                            best = Some(i);
                            best_score = score;
                        }
                    },
                }
            }
            i += 1;
        }
        match best {
            Some(b) => {
                proof {
                    assert(spec_is_best(req, pool@, b as int));
                    assert forall|j: int| 0 <= j < b implies !spec_is_best(req, pool@, j) by {
                        if spec_is_best(req, pool@, j) {
                            assert(pool[j].profile.spec_is_available_worker());
                            assert(pool[b as int].profile.spec_is_available_worker());
                            assert(spec_at_least_as_good(req, pool[j], pool[b as int]));
                        }
                    }
                    let c = spec_best_worker(req, pool@).unwrap();
                    assert(spec_is_best(req, pool@, c));
                    if c < b {
                        assert(!spec_is_best(req, pool@, c));
                    }
                }
                Ok(b)
            },
            None => {
                proof {
                    assert forall|j: int| !spec_is_best(req, pool@, j) by {
                        if 0 <= j < pool.len() {
                            assert(!pool[j].profile.spec_is_available_worker());
                        }
                    }
                }
                Err(SwarmError::NoAvailableWorkers)
            },
        }
    }

    /// The identifier of the worker that the policy picks from a pool that has one.
    fn choose_agent(&self, required: &Vec<String>, pool: &Vec<AgentProfileWithSkills>) -> (agent:
        u128)
        requires
            spec_has_worker(pool@),
        ensures
            agent == pool[spec_best_worker(required.deep_view(), pool@).unwrap()].profile.id,
    {
        match self.find_best_agent(required, pool) {
            Ok(w) => pool[w].profile.id,
            Err(_) => 0,
        }
    }

    /// Assigns the SubTask at position `i` to the worker that the policy
    /// picks for it, names its branch, and returns the start order.
    fn dispatch(
        &self,
        swarm: &mut Swarm,
        i: usize,
        pool: &Vec<AgentProfileWithSkills>,
        now: i64,
    ) -> (order: StartOrder)
        requires
            i < old(swarm).tasks.len(),
            spec_has_worker(pool@),
        ensures
            final(swarm)@ == (SwarmView {
                tasks: old(swarm)@.tasks.update(
                    i as int,
                    crate::models::swarm_task::spec_assigned(
                        old(swarm)@.tasks[i as int],
                        spec_chosen_agent(old(swarm)@.tasks[i as int], pool@),
                        spec_branch_name(self.config.branch_prefix@, old(swarm)@.tasks[i as int].id),
                        now,
                    ),
                ),
                ..old(swarm)@
            }),
            order@ == spec_order_for(old(swarm)@.tasks[i as int], pool@, self.config.branch_prefix@),
    {
        let agent = self.choose_agent(&swarm.tasks[i].required_skills, pool);
        let id = swarm.tasks[i].id;
        let name = branch_name(self.config.branch_prefix.as_str(), id);
        let order = StartOrder {
            swarm_task_id: id,
            task_id: swarm.tasks[i].task_id,
            agent_id: agent,
            branch_name: name.clone(),
        };
        swarm.assign_at(i, agent, name, now);
        order
    }

    /// Goes through the SubTasks in dispatch order and dispatches the
    /// first `free` ready ones.
    fn dispatch_ready(
        &self,
        swarm: &mut Swarm,
        free: i32,
        pool: &Vec<AgentProfileWithSkills>,
        now: i64,
    ) -> (starts: Vec<StartOrder>)
        requires
            old(swarm).tasks.len() <= i32::MAX,
            free > 0,
        ensures
            final(swarm)@ == (SwarmView {
                tasks: spec_dispatched_tasks(
                    old(swarm)@.tasks,
                    free as int,
                    pool@,
                    self.config.branch_prefix@,
                    now,
                ),
                ..old(swarm)@
            }),
            starts.deep_view() == spec_start_orders(
                old(swarm)@.tasks,
                free as int,
                pool@,
                self.config.branch_prefix@,
                old(swarm)@.tasks.len() as int,
            ),
    {
        let ghost s0 = swarm@;
        let ghost prefix = self.config.branch_prefix@;
        let has_worker = pool_has_worker(pool);
        let mut starts: Vec<StartOrder> = Vec::new();
        let mut rank: i32 = 0;
        let mut i: usize = 0;
        proof {
            assert(starts.deep_view() =~= spec_start_orders(s0.tasks, free as int, pool@, prefix, 0));
            assert(s0.tasks =~= spec_dispatched_prefix(s0.tasks, free as int, pool@, prefix, now, 0));
        }
        while i < swarm.tasks.len()
            invariant
                i <= swarm.tasks.len() <= i32::MAX,
                swarm.tasks.len() == s0.tasks.len(),
                prefix == self.config.branch_prefix@,
                has_worker == spec_has_worker(pool@),
                free > 0,
                0 <= rank <= i,
                rank == spec_ready_before(s0.tasks, i as int),
                swarm@ == (SwarmView {
                    tasks: spec_dispatched_prefix(s0.tasks, free as int, pool@, prefix, now, i as int),
                    ..s0
                }),
                starts.deep_view() == spec_start_orders(s0.tasks, free as int, pool@, prefix, i as int),
            decreases swarm.tasks.len() - i,
        {
            let ready = swarm.is_ready(i);
            proof {
                lemma_ready_in_prefix(s0.tasks, free as int, pool@, prefix, now, i as int);
            }
            if ready {
                if rank < free && has_worker {
                    let order = self.dispatch(swarm, i, pool, now);
                    let ghost before = starts.deep_view();
                    starts.push(order);
                    assert(starts.deep_view() =~= before.push(order@));
                }
                rank += 1;
            }
            proof {
                assert(swarm@.tasks =~= spec_dispatched_prefix(
                    s0.tasks,
                    free as int,
                    pool@,
                    prefix,
                    now,
                    i + 1,
                ));
            }
            i += 1;
        }
        proof {
            assert(swarm@.tasks =~= spec_dispatched_tasks(s0.tasks, free as int, pool@, prefix, now));
        }
        starts
    }

    /// The scheduling tick: starts as many ready SubTasks as capacity allows.
    ///
    /// It is refused unless the Execution is executing. Each dispatched
    /// SubTask is assigned its worker and its branch, and a start order for
    /// it is returned. When every SubTask is completed or skipped, the
    /// Execution moves on to review and `ConsensusRequired` is published.
    pub fn execute_ready_tasks(
        &self,
        swarm: &mut Swarm,
        pool: &Vec<AgentProfileWithSkills>,
        now: i64,
    ) -> (r: Result<Effects, SwarmError>)
        requires
            old(swarm).wf(),
        ensures
            final(swarm).wf(),
            old(swarm)@.inv() ==> final(swarm)@.inv(),
            old(swarm).execution.status != SwarmExecutionStatus::Executing ==> final(swarm)@ == old(
                swarm,
            )@ && (r matches Err(SwarmError::InvalidStateTransition(m)) && m@
                == "Execution is not in executing state"@),
            old(swarm).execution.status == SwarmExecutionStatus::Executing ==> (r matches Ok(
                effects,
            ) && (final(swarm)@, effects@) == spec_tick(
                old(swarm)@,
                pool@,
                self.config.branch_prefix@,
                now,
            )),
    {
        if swarm.execution.status != SwarmExecutionStatus::Executing {
            return Err(
                SwarmError::InvalidStateTransition("Execution is not in executing state".to_owned()),
            );
        }
        proof {
            lemma_tick_keeps_invariants(swarm@, pool@, self.config.branch_prefix@, now);
        }
        let running = swarm.active_count();
        let max = swarm.execution.max_parallel_workers;
        if max <= running {
            return Ok(Effects::nothing());
        }
        let free: i32 = max - running;
        let starts = self.dispatch_ready(swarm, free, pool, now);
        if swarm.all_completed() {
            let id = swarm.execution.id;
            swarm.execution.update_status(SwarmExecutionStatus::Reviewing, now);
            Ok(
                Effects::of_starts(
                    starts,
                    one_event(SwarmEvent::ConsensusRequired { swarm_execution_id: id }),
                ),
            )
        } else {
            Ok(Effects::of_starts(starts, no_events()))
        }
    }

    /// Records that the workspace of an assigned SubTask exists and that
    /// its agent was handed the work: the SubTask runs from now on.
    ///
    /// Refused where no SubTask has the identifier, where the Execution no
    /// longer takes events, and where the SubTask is not assigned.
    pub fn start_task(
        &self,
        swarm: &mut Swarm,
        swarm_task_id: u128,
        workspace_id: u128,
        now: i64,
    ) -> (r: Result<Effects, SwarmError>)
        requires
            old(swarm).wf(),
        ensures
            final(swarm).wf(),
            old(swarm)@.inv() ==> final(swarm)@.inv(),
            r is Err ==> final(swarm)@ == old(swarm)@,
            match spec_position(old(swarm)@.tasks, swarm_task_id) {
                None => r matches Err(SwarmError::TaskNotFound(id)) && id == swarm_task_id,
                Some(i) => {
                    let t = old(swarm)@.tasks[i];
                    if !spec_takes_events(old(swarm).execution.status) {
                        r matches Err(SwarmError::InvalidStateTransition(m)) && m@
                            == "Execution is not running"@
                    } else if t.status != SwarmTaskStatus::Assigned {
                        r matches Err(SwarmError::InvalidStateTransition(m)) && m@
                            == "SubTask is not assigned"@
                    } else {
                        match t.assigned_agent_profile_id {
                            None => r matches Err(SwarmError::InvalidStateTransition(m)) && m@
                                == "SubTask has no worker"@,
                            Some(agent) => r matches Ok(effects) && (final(swarm)@, effects@)
                                == spec_start(old(swarm)@, i, agent, workspace_id, now),
                        }
                    }
                },
            },
    {
        let i = match swarm.find_task(swarm_task_id) {
            Some(i) => i,
            None => {
                return Err(SwarmError::TaskNotFound(swarm_task_id));
            },
        };
        if !takes_events(swarm.execution.status) {
            return Err(SwarmError::InvalidStateTransition("Execution is not running".to_owned()));
        }
        if swarm.tasks[i].status != SwarmTaskStatus::Assigned {
            return Err(SwarmError::InvalidStateTransition("SubTask is not assigned".to_owned()));
        }
        let agent = match swarm.tasks[i].assigned_agent_profile_id {
            Some(agent) => agent,
            None => {
                return Err(SwarmError::InvalidStateTransition("SubTask has no worker".to_owned()));
            },
        };
        proof {
            lemma_start_keeps_invariants(swarm@, i as int, agent, workspace_id, now);
        }
        let task_id = swarm.tasks[i].task_id;
        swarm.start_at(i, workspace_id, now);
        Ok(
            Effects::of_update(
                TaskUpdate { task_id, status: TaskStatus::InProgress },
                one_event(SwarmEvent::TaskStarted { swarm_task_id, agent_id: agent }),
            ),
        )
    }

    /// Handles the completion event of a SubTask.
    ///
    /// An Execution that no longer takes events discards it, and the
    /// event of a SubTask that is already completed changes nothing.
    /// Otherwise the SubTask must be running: it is marked completed,
    /// `TaskCompleted` and a fresh progress snapshot are published, and an
    /// executing Execution ticks again.
    pub fn complete_task(
        &self,
        swarm: &mut Swarm,
        swarm_task_id: u128,
        pool: &Vec<AgentProfileWithSkills>,
        now: i64,
    ) -> (r: Result<Effects, SwarmError>)
        requires
            old(swarm).wf(),
        ensures
            final(swarm).wf(),
            old(swarm)@.inv() ==> final(swarm)@.inv(),
            r is Err ==> final(swarm)@ == old(swarm)@,
            match spec_position(old(swarm)@.tasks, swarm_task_id) {
                None => r matches Err(SwarmError::TaskNotFound(id)) && id == swarm_task_id,
                Some(i) => {
                    let t = old(swarm)@.tasks[i];
                    if !spec_takes_events(old(swarm).execution.status) || t.status
                        == SwarmTaskStatus::Completed {
                        r matches Ok(effects) && effects@ == EffectsView::nothing() && final(swarm)@
                            == old(swarm)@
                    } else if t.status != SwarmTaskStatus::Running {
                        r matches Err(SwarmError::InvalidStateTransition(m)) && m@
                            == "SubTask is not running"@
                    } else {
                        r matches Ok(effects) && (final(swarm)@, effects@) == spec_complete(
                            old(swarm)@,
                            i,
                            pool@,
                            self.config.branch_prefix@,
                            now,
                        )
                    }
                },
            },
    {
        let i = match swarm.find_task(swarm_task_id) {
            Some(i) => i,
            None => {
                return Err(SwarmError::TaskNotFound(swarm_task_id));
            },
        };
        let status = swarm.execution.status;
        if !takes_events(status) {
            return Ok(Effects::nothing());
        }
        if swarm.tasks[i].status == SwarmTaskStatus::Completed {
            return Ok(Effects::nothing());
        }
        if swarm.tasks[i].status != SwarmTaskStatus::Running {
            return Err(SwarmError::InvalidStateTransition("SubTask is not running".to_owned()));
        }
        self.complete_running(swarm, i, pool, now)
    }

    /// Completes the SubTask at position `i`, which is running, in an
    /// Execution that takes events.
    fn complete_running(
        &self,
        swarm: &mut Swarm,
        i: usize,
        pool: &Vec<AgentProfileWithSkills>,
        now: i64,
    ) -> (r: Result<Effects, SwarmError>)
        requires
            old(swarm).wf(),
            i < old(swarm).tasks.len(),
            old(swarm).tasks[i as int].status == SwarmTaskStatus::Running,
        ensures
            final(swarm).wf(),
            old(swarm)@.inv() ==> final(swarm)@.inv(),
            r matches Ok(effects) && (final(swarm)@, effects@) == spec_complete(
                old(swarm)@,
                i as int,
                pool@,
                self.config.branch_prefix@,
                now,
            ),
    {
        let ghost s0 = swarm@;
        proof {
            lemma_complete_keeps_invariants(s0, i as int, pool@, self.config.branch_prefix@, now);
        }
        let task_id = swarm.tasks[i].task_id;
        let swarm_task_id = swarm.tasks[i].id;
        let status = swarm.execution.status;
        swarm.complete_at(i, now);
        let progress = swarm.get_progress();
        let first = Effects::of_update(
            TaskUpdate { task_id, status: TaskStatus::Done },
            two_events(
                SwarmEvent::TaskCompleted { swarm_task_id },
                SwarmEvent::ExecutionProgress { progress },
            ),
        );
        if status == SwarmExecutionStatus::Executing {
            let ghost done = swarm@;
            let r = self.execute_ready_tasks(swarm, pool, now);
            match r {
                Ok(more) => {
                    let ghost more_view = more@;
                    let all = first.followed_by(more);
                    assert((swarm@, more_view) == spec_tick(
                        done,
                        pool@,
                        self.config.branch_prefix@,
                        now,
                    ));
                    Ok(all)
                },
                Err(e) => Err(e),
            }
        } else {
            Ok(first)
        }
    }

    /// Whether the dependency `d` of the SubTask at position `i` leads
    /// back to `root`, given which of the earlier SubTasks descend from it.
    fn leads_back(swarm: &Swarm, marks: &Vec<bool>, root: u128, i: usize, d: u128) -> (b: bool)
        requires
            i <= swarm.tasks.len(),
            marks.len() == i,
            forall|j: int| 0 <= j < i ==> marks[j] == spec_descends(swarm@.tasks, root, j),
        ensures
            b == spec_leads_back(swarm@.tasks, root, i as int, d),
    {
        if d == root {
            return true;
        }
        let ghost ts = swarm@.tasks;
        let mut j: usize = 0;
        while j < i
            invariant
                j <= i <= swarm.tasks.len(),
                marks.len() == i,
                ts == swarm@.tasks,
                d != root,
                forall|m: int| 0 <= m < i ==> marks[m] == spec_descends(ts, root, m),
                forall|m: int|
                    0 <= m < j ==> !((#[trigger] ts[m]).id == d && spec_descends(ts, root, m)),
            decreases i - j,
        {
            assert(ts[j as int].id == swarm.tasks[j as int].id);
            if swarm.tasks[j].id == d && marks[j] {
                return true;
            }
            j += 1;
        }
        false
    }

    /// Whether the SubTask at position `i` descends from `root`, given
    /// which of the earlier SubTasks do.
    fn descends(swarm: &Swarm, marks: &Vec<bool>, root: u128, i: usize) -> (b: bool)
        requires
            i < swarm.tasks.len(),
            marks.len() == i,
            forall|j: int| 0 <= j < i ==> marks[j] == spec_descends(swarm@.tasks, root, j),
        ensures
            b == spec_descends(swarm@.tasks, root, i as int),
    {
        let ghost ts = swarm@.tasks;
        let mut k: usize = 0;
        while k < swarm.tasks[i].depends_on.len()
            invariant
                i < swarm.tasks.len(),
                marks.len() == i,
                ts == swarm@.tasks,
                k <= swarm.tasks[i as int].depends_on.len(),
                forall|j: int| 0 <= j < i ==> marks[j] == spec_descends(ts, root, j),
                forall|m: int|
                    0 <= m < k ==> !spec_leads_back(
                        ts,
                        root,
                        i as int,
                        #[trigger] ts[i as int].depends_on[m],
                    ),
            decreases swarm.tasks[i as int].depends_on.len() - k,
        {
            let d = swarm.tasks[i].depends_on[k];
            assert(d == ts[i as int].depends_on[k as int]);
            if Self::leads_back(swarm, marks, root, i, d) {
                return true;
            }
            k += 1;
        }
        false
    }

    /// For each SubTask, whether it descends from `root`.
    fn descendants(swarm: &Swarm, root: u128) -> (marks: Vec<bool>)
        ensures
            marks.len() == swarm.tasks.len(),
            forall|j: int| 0 <= j < marks.len() ==> marks[j] == spec_descends(swarm@.tasks, root, j),
    {
        let mut marks: Vec<bool> = Vec::new();
        let mut i: usize = 0;
        while i < swarm.tasks.len()
            invariant
                i <= swarm.tasks.len(),
                marks.len() == i,
                forall|j: int| 0 <= j < i ==> marks[j] == spec_descends(swarm@.tasks, root, j),
            decreases swarm.tasks.len() - i,
        {
            let marked = Self::descends(swarm, &marks, root, i);
            marks.push(marked);
            i += 1;
        }
        marks
    }

    /// The cascading skip after the SubTask `failed_task_id` failed for
    /// good: every SubTask that depends on it, directly or through others,
    /// and has not reached a terminal status is skipped.
    pub fn skip_dependent_tasks(&self, swarm: &mut Swarm, failed_task_id: u128, now: i64)
        requires
            old(swarm).wf(),
        ensures
            final(swarm).wf(),
            old(swarm)@.inv() ==> final(swarm)@.inv(),
            final(swarm)@ == (SwarmView {
                tasks: spec_cascade(old(swarm)@.tasks, failed_task_id, now),
                ..old(swarm)@
            }),
            forall|i: int|
                spec_descends(final(swarm)@.tasks, failed_task_id, i) ==> spec_is_terminal(
                    (#[trigger] final(swarm)@.tasks[i]).status,
                ),
    {
        let ghost s0 = swarm@;
        let root = failed_task_id;
        proof {
            lemma_cascade_keeps_invariants(s0, root, now);
            lemma_cascade_settles_descendants(s0.tasks, root, now);
        }
        let marks = Self::descendants(swarm, root);
        let mut i: usize = 0;
        proof {
            assert(s0.tasks =~= spec_cascade_prefix(s0.tasks, root, now, 0));
        }
        while i < swarm.tasks.len()
            invariant
                i <= swarm.tasks.len(),
                swarm.tasks.len() == s0.tasks.len(),
                marks.len() == s0.tasks.len(),
                forall|j: int| 0 <= j < marks.len() ==> marks[j] == spec_descends(s0.tasks, root, j),
                swarm@ == (SwarmView { tasks: spec_cascade_prefix(s0.tasks, root, now, i as int), ..s0 }),
            decreases swarm.tasks.len() - i,
        {
            let status = swarm.tasks[i].status;
            let terminal = status == SwarmTaskStatus::Completed || status
                == SwarmTaskStatus::Skipped || status == SwarmTaskStatus::Failed;
            if marks[i] && !terminal {
                swarm.skip_at(i, now);
            }
            assert(swarm@.tasks =~= spec_cascade_prefix(s0.tasks, root, now, i + 1));
            i += 1;
        }
        assert(swarm@.tasks =~= spec_cascade(s0.tasks, root, now));
    }

    /// Handles the failure event of a SubTask. The first component of the
    /// result tells whether the SubTask was put back for a retry.
    ///
    /// An Execution that no longer takes events discards the event.
    /// Otherwise the SubTask must be running or assigned. While retries
    /// are left it goes back to pending. Otherwise it fails for good, the
    /// child task is cancelled, `TaskFailed` is published, every
    /// descendant that is not yet terminal is skipped, and where a strict
    /// majority of the SubTasks has failed the Execution fails too.
    pub fn fail_task(&self, swarm: &mut Swarm, swarm_task_id: u128, error: &str, now: i64) -> (r:
        Result<(bool, Effects), SwarmError>)
        requires
            old(swarm).wf(),
        ensures
            final(swarm).wf(),
            old(swarm)@.inv() ==> final(swarm)@.inv(),
            r is Err ==> final(swarm)@ == old(swarm)@,
            match spec_position(old(swarm)@.tasks, swarm_task_id) {
                None => r matches Err(SwarmError::TaskNotFound(id)) && id == swarm_task_id,
                Some(i) => {
                    let t = old(swarm)@.tasks[i];
                    if !spec_takes_events(old(swarm).execution.status) {
                        r matches Ok(out) && !out.0 && out.1@ == EffectsView::nothing() && final(swarm)@
                            == old(swarm)@
                    } else if t.status != SwarmTaskStatus::Running && t.status
                        != SwarmTaskStatus::Assigned {
                        r matches Err(SwarmError::InvalidStateTransition(m)) && m@
                            == "SubTask is not running"@
                    } else {
                        r matches Ok(out) && (final(swarm)@, out.1@, out.0) == spec_fail(
                            old(swarm)@,
                            i,
                            error@,
                            now,
                        )
                    }
                },
            },
            r matches Ok(out) ==> out.0 || out.1@ == EffectsView::nothing() || forall|j: int|
                spec_descends(final(swarm)@.tasks, swarm_task_id, j) ==> spec_is_terminal(
                    (#[trigger] final(swarm)@.tasks[j]).status,
                ),
    {
        let i = match swarm.find_task(swarm_task_id) {
            Some(i) => i,
            None => {
                return Err(SwarmError::TaskNotFound(swarm_task_id));
            },
        };
        if !takes_events(swarm.execution.status) {
            return Ok((false, Effects::nothing()));
        }
        let task_status = swarm.tasks[i].status;
        if task_status != SwarmTaskStatus::Running && task_status != SwarmTaskStatus::Assigned {
            return Err(SwarmError::InvalidStateTransition("SubTask is not running".to_owned()));
        }
        proof {
            lemma_fail_keeps_invariants(swarm@, i as int, error@, now);
        }
        if swarm.tasks[i].retry_count < swarm.tasks[i].max_retries {
            swarm.retry_at(i, now);
            return Ok((true, Effects::nothing()));
        }
        let effects = self.fail_for_good(swarm, i, error, now);
        Ok((false, effects))
    }

    /// Fails the SubTask at position `i`, which has no retry left.
    fn fail_for_good(&self, swarm: &mut Swarm, i: usize, error: &str, now: i64) -> (effects:
        Effects)
        requires
            old(swarm).wf(),
            i < old(swarm).tasks.len(),
            !(old(swarm).tasks[i as int].retry_count < old(swarm).tasks[i as int].max_retries),
        ensures
            (final(swarm)@, effects@, false) == spec_fail(old(swarm)@, i as int, error@, now),
    {
        let ghost s0 = swarm@;
        let ghost t = s0.tasks[i as int];
        let task_id = swarm.tasks[i].task_id;
        let swarm_task_id = swarm.tasks[i].id;
        swarm.fail_at(i, error.to_owned(), now);
        proof {
            lemma_update_keeps_structure(s0, i as int, spec_failed(t, error@, now));
        }
        self.skip_dependent_tasks(swarm, swarm_task_id, now);
        let ghost tasks = spec_cascade(s0.tasks.update(i as int, spec_failed(t, error@, now)), t.id, now);
        assert(swarm@ == SwarmView { tasks: tasks, ..s0 });
        let update = TaskUpdate { task_id, status: TaskStatus::Cancelled };
        let failed_event = SwarmEvent::TaskFailed { swarm_task_id, error: error.to_owned() };
        let failed = swarm.count_status(SwarmTaskStatus::Failed);
        let total: i32 = swarm.tasks.len() as i32;
        if failed > total / 2 {
            assert(spec_majority_failed(tasks));
            let id = swarm.execution.id;
            swarm.execution.set_error("Too many tasks failed".to_owned(), now);
            Effects::of_update(
                update,
                two_events(
                    failed_event,
                    SwarmEvent::ExecutionFailed {
                        swarm_execution_id: id,
                        error: "Too many tasks failed".to_owned(),
                    },
                ),
            )
        } else {
            assert(!spec_majority_failed(tasks));
            Effects::of_update(update, one_event(failed_event))
        }
    }

    /// Pauses an executing Execution. Agents that run go on, and their
    /// events are still taken; no SubTask is dispatched until the Execution resumes.
    pub fn pause_execution(&self, swarm: &mut Swarm, now: i64) -> (r: Result<(), SwarmError>)
        requires
            old(swarm).wf(),
        ensures
            final(swarm).wf(),
            old(swarm)@.inv() ==> final(swarm)@.inv(),
            old(swarm).execution.status == SwarmExecutionStatus::Executing ==> r is Ok && final(swarm)@
                == spec_pause(old(swarm)@, now),
            old(swarm).execution.status != SwarmExecutionStatus::Executing ==> final(swarm)@ == old(
                swarm,
            )@ && (r matches Err(SwarmError::InvalidStateTransition(m)) && m@
                == "Can only pause executing swarms"@),
    {
        if swarm.execution.status != SwarmExecutionStatus::Executing {
            return Err(
                SwarmError::InvalidStateTransition("Can only pause executing swarms".to_owned()),
            );
        }
        swarm.execution.update_status(SwarmExecutionStatus::Planned, now);
        Ok(())
    }

    /// Resumes a paused Execution and runs a tick.
    pub fn resume_execution(
        &self,
        swarm: &mut Swarm,
        pool: &Vec<AgentProfileWithSkills>,
        now: i64,
    ) -> (r: Result<Effects, SwarmError>)
        requires
            old(swarm).wf(),
        ensures
            final(swarm).wf(),
            old(swarm)@.inv() ==> final(swarm)@.inv(),
            old(swarm).execution.status == SwarmExecutionStatus::Planned ==> (r matches Ok(
                effects,
            ) && (final(swarm)@, effects@) == spec_resume(
                old(swarm)@,
                pool@,
                self.config.branch_prefix@,
                now,
            )),
            old(swarm).execution.status != SwarmExecutionStatus::Planned ==> final(swarm)@ == old(
                swarm,
            )@ && (r matches Err(SwarmError::InvalidStateTransition(m)) && m@
                == "Can only resume planned/paused swarms"@),
    {
        if swarm.execution.status != SwarmExecutionStatus::Planned {
            return Err(
                SwarmError::InvalidStateTransition(
                    "Can only resume planned/paused swarms".to_owned(),
                ),
            );
        }
        swarm.execution.update_status(SwarmExecutionStatus::Executing, now);
        self.execute_ready_tasks(swarm, pool, now)
    }

    /// Cancels an Execution, whatever its phase: every pending or blocked
    /// SubTask is skipped. SubTasks that run are left alone.
    pub fn cancel_execution(&self, swarm: &mut Swarm, now: i64)
        requires
            old(swarm).wf(),
        ensures
            final(swarm).wf(),
            old(swarm)@.inv() ==> final(swarm)@.inv(),
            final(swarm)@ == spec_cancel(old(swarm)@, now),
    {
        let ghost s0 = swarm@;
        proof {
            lemma_cancel_keeps_invariants(s0, now);
            assert(s0.tasks =~= spec_cancelled_prefix(s0.tasks, now, 0));
        }
        let mut i: usize = 0;
        while i < swarm.tasks.len()
            invariant
                i <= swarm.tasks.len(),
                swarm.tasks.len() == s0.tasks.len(),
                swarm@ == (SwarmView { tasks: spec_cancelled_prefix(s0.tasks, now, i as int), ..s0 }),
            decreases swarm.tasks.len() - i,
        {
            let status = swarm.tasks[i].status;
            if status == SwarmTaskStatus::Pending || status == SwarmTaskStatus::Blocked {
                swarm.skip_at(i, now);
            }
            assert(swarm@.tasks =~= spec_cancelled_prefix(s0.tasks, now, i + 1));
            i += 1;
        }
        assert(swarm@.tasks =~= spec_cancelled_tasks(s0.tasks, now));
        swarm.execution.update_status(SwarmExecutionStatus::Cancelled, now);
    }
}

} // verus!
