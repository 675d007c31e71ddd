//! Team executions: the plain variant of an Execution, without a consensus
//! phase. Every pending task counts as ready, and an Execution whose
//! tasks are all completed or skipped is completed.

use vstd::prelude::*;
use crate::text::same_text;
use crate::events::{
    Effects, EffectsView, StartOrder, StartOrderView, SwarmError, SwarmEvent, SwarmEventView,
    TaskUpdate,
};
use crate::manager::{SwarmManager, SwarmManagerConfig};
use crate::models::agent_profile::AgentProfileWithSkills;
use crate::models::swarm_execution::{SwarmExecution, SwarmExecutionStatus, SwarmExecutionView};
use crate::models::swarm_task::{clone_strings, SwarmTask, SwarmTaskStatus, SwarmTaskView};
use crate::schedule::{
    spec_cancel, spec_cascade, spec_complete, spec_fail, spec_pause, spec_resume, spec_start,
    spec_takes_events, spec_tick,
};
use crate::swarm::{spec_position, Swarm, SwarmView};

verus! {

/// Phase of a team execution.
#[derive(Debug, Clone, Copy, PartialEq, Eq, Structural)]
pub enum TeamExecutionStatus {
    Planning,
    Planned,
    Executing,
    Completed,
    Failed,
    Cancelled,
}

impl Default for TeamExecutionStatus {
    fn default() -> (s: Self)
        ensures
            s == TeamExecutionStatus::Planning,
    {
        TeamExecutionStatus::Planning
    }
}

impl TeamExecutionStatus {
    /// The stable lowercase wire value of the status.
    pub open spec fn spec_as_str(self) -> Seq<char> {
        match self {
            TeamExecutionStatus::Planning => "planning"@,
            TeamExecutionStatus::Planned => "planned"@,
            TeamExecutionStatus::Executing => "executing"@,
            TeamExecutionStatus::Completed => "completed"@,
            TeamExecutionStatus::Failed => "failed"@,
            TeamExecutionStatus::Cancelled => "cancelled"@,
        }
    }

    pub fn as_str(&self) -> (s: &'static str)
        ensures
            s@ == self.spec_as_str(),
    {
        match self {
            TeamExecutionStatus::Planning => "planning",
            TeamExecutionStatus::Planned => "planned",
            TeamExecutionStatus::Executing => "executing",
            TeamExecutionStatus::Completed => "completed",
            TeamExecutionStatus::Failed => "failed",
            TeamExecutionStatus::Cancelled => "cancelled",
        }
    }

    /// Reads a status from its wire value; `None` for any other text.
    pub fn from_wire(text: &str) -> (r: Option<Self>)
        ensures
            r matches Some(s) ==> s.spec_as_str() == text@,
            r is None ==> forall|s: Self| s.spec_as_str() != text@,
    {
        if same_text(text, TeamExecutionStatus::Planning.as_str()) {
            Some(TeamExecutionStatus::Planning)
        } else if same_text(text, TeamExecutionStatus::Planned.as_str()) {
            Some(TeamExecutionStatus::Planned)
        } else if same_text(text, TeamExecutionStatus::Executing.as_str()) {
            Some(TeamExecutionStatus::Executing)
        } else if same_text(text, TeamExecutionStatus::Completed.as_str()) {
            Some(TeamExecutionStatus::Completed)
        } else if same_text(text, TeamExecutionStatus::Failed.as_str()) {
            Some(TeamExecutionStatus::Failed)
        } else if same_text(text, TeamExecutionStatus::Cancelled.as_str()) {
            Some(TeamExecutionStatus::Cancelled)
        } else {
            None
        }
    }
}

/// Lifecycle state of one task of a team execution.
#[derive(Debug, Clone, Copy, PartialEq, Eq, Structural)]
pub enum TeamTaskStatus {
    Pending,
    Blocked,
    Assigned,
    Running,
    Completed,
    Failed,
    Skipped,
}

impl Default for TeamTaskStatus {
    fn default() -> (s: Self)
        ensures
            s == TeamTaskStatus::Pending,
    {
        TeamTaskStatus::Pending
    }
}

impl TeamTaskStatus {
    /// The stable lowercase wire value of the status.
    pub open spec fn spec_as_str(self) -> Seq<char> {
        match self {
            TeamTaskStatus::Pending => "pending"@,
            TeamTaskStatus::Blocked => "blocked"@,
            TeamTaskStatus::Assigned => "assigned"@,
            TeamTaskStatus::Running => "running"@,
            TeamTaskStatus::Completed => "completed"@,
            TeamTaskStatus::Failed => "failed"@,
            TeamTaskStatus::Skipped => "skipped"@,
        }
    }

    pub fn as_str(&self) -> (s: &'static str)
        ensures
            s@ == self.spec_as_str(),
    {
        match self {
            TeamTaskStatus::Pending => "pending",
            TeamTaskStatus::Blocked => "blocked",
            TeamTaskStatus::Assigned => "assigned",
            TeamTaskStatus::Running => "running",
            TeamTaskStatus::Completed => "completed",
            TeamTaskStatus::Failed => "failed",
            TeamTaskStatus::Skipped => "skipped",
        }
    }

    /// Reads a status from its wire value; `None` for any other text.
    pub fn from_wire(text: &str) -> (r: Option<Self>)
        ensures
            r matches Some(s) ==> s.spec_as_str() == text@,
            r is None ==> forall|s: Self| s.spec_as_str() != text@,
    {
        if same_text(text, TeamTaskStatus::Pending.as_str()) {
            Some(TeamTaskStatus::Pending)
        } else if same_text(text, TeamTaskStatus::Blocked.as_str()) {
            Some(TeamTaskStatus::Blocked)
        } else if same_text(text, TeamTaskStatus::Assigned.as_str()) {
            Some(TeamTaskStatus::Assigned)
        } else if same_text(text, TeamTaskStatus::Running.as_str()) {
            Some(TeamTaskStatus::Running)
        } else if same_text(text, TeamTaskStatus::Completed.as_str()) {
            Some(TeamTaskStatus::Completed)
        } else if same_text(text, TeamTaskStatus::Failed.as_str()) {
            Some(TeamTaskStatus::Failed)
        } else if same_text(text, TeamTaskStatus::Skipped.as_str()) {
            Some(TeamTaskStatus::Skipped)
        } else {
            None
        }
    }
}

/// The coordinator record of a team execution.
#[derive(Debug)]
pub struct TeamExecution {
    pub id: u128,
    pub epic_task_id: u128,
    pub epic_workspace_id: Option<u128>,
    pub status: TeamExecutionStatus,
    pub planner_output: Option<String>,
    pub planner_profile_id: Option<u128>,
    pub max_parallel_workers: i32,
    pub error_message: Option<String>,
    pub planned_at: Option<i64>,
    pub execution_started_at: Option<i64>,
    pub created_at: i64,
    pub completed_at: Option<i64>,
    pub updated_at: i64,
}

/// What a caller supplies to create a team execution.
#[derive(Debug, Clone, Copy)]
pub struct CreateTeamExecution {
    pub epic_task_id: u128,
    pub epic_workspace_id: Option<u128>,
    pub planner_profile_id: Option<u128>,
    pub max_parallel_workers: Option<i32>,
}

/// A partial update of a team execution.
#[derive(Debug)]
pub struct UpdateTeamExecution {
    pub status: Option<TeamExecutionStatus>,
    pub planner_output: Option<String>,
    pub error_message: Option<String>,
}

/// A plan of a team execution.
#[derive(Debug)]
pub struct TeamPlanOutput {
    pub complexity: String,
    pub requires_team: bool,
    pub subtasks: Vec<PlannedSubtask>,
    pub estimated_total_duration: Option<i32>,
    pub reasoning: String,
}

/// One subtask of a team plan.
#[derive(Debug)]
pub struct PlannedSubtask {
    pub title: String,
    pub description: String,
    pub required_skills: Vec<String>,
    pub depends_on: Vec<i32>,
    pub complexity: i32,
    pub estimated_duration: Option<i32>,
}

/// Counts of a team execution's tasks by status.
#[derive(Debug, Clone, Copy, PartialEq, Eq, Structural)]
pub struct TeamProgress {
    pub total: i32,
    pub completed: i32,
    pub running: i32,
    pub failed: i32,
    pub pending: i32,
    pub skipped: i32,
}

/// Configuration of the team manager.
#[derive(Debug)]
pub struct TeamManagerConfig {
    pub max_parallel_tasks: i32,
    pub task_timeout_seconds: i64,
    pub retry_delay_seconds: i64,
    pub branch_prefix: String,
}

impl Default for TeamManagerConfig {
    fn default() -> (c: Self)
        ensures
            c.max_parallel_tasks == 5,
            c.task_timeout_seconds == 3600,
            c.retry_delay_seconds == 30,
            c.branch_prefix@ == "team"@,
    {
        TeamManagerConfig {
            max_parallel_tasks: 5,
            task_timeout_seconds: 3600,
            retry_delay_seconds: 30,
            branch_prefix: "team".to_owned(),
        }
    }
}

/// The worker capacity a team execution gets when the caller names none.
pub const DEFAULT_TEAM_WORKERS: i32 = 3;

impl TeamExecution {
    /// Builds the record of a new team execution.
    pub fn create(data: &CreateTeamExecution, id: u128, now: i64) -> (e: Self)
        ensures
            e.id == id,
            e.epic_task_id == data.epic_task_id,
            e.epic_workspace_id == data.epic_workspace_id,
            e.planner_profile_id == data.planner_profile_id,
            e.status == TeamExecutionStatus::Planning,
            e.max_parallel_workers == (match data.max_parallel_workers {
                Some(n) => n,
                None => DEFAULT_TEAM_WORKERS,
            }),
            e.planner_output is None,
            e.error_message is None,
            e.planned_at is None,
            e.execution_started_at is None,
            e.completed_at is None,
            e.created_at == now,
            e.updated_at == now,
    {
        TeamExecution {
            id,
            epic_task_id: data.epic_task_id,
            epic_workspace_id: data.epic_workspace_id,
            status: TeamExecutionStatus::Planning,
            planner_output: None,
            planner_profile_id: data.planner_profile_id,
            max_parallel_workers: match data.max_parallel_workers {
                Some(n) => n,
                None => DEFAULT_TEAM_WORKERS,
            },
            error_message: None,
            planned_at: None,
            execution_started_at: None,
            created_at: now,
            completed_at: None,
            updated_at: now,
        }
    }

    /// Moves the execution to `status` and stamps the timestamp of that phase.
    pub fn update_status(&mut self, status: TeamExecutionStatus, now: i64)
        ensures
            final(self).status == status,
            final(self).updated_at == now,
            final(self).planned_at == (if status == TeamExecutionStatus::Planned {
                Some(now)
            } else {
                old(self).planned_at
            }),
            final(self).execution_started_at == (if status == TeamExecutionStatus::Executing {
                Some(now)
            } else {
                old(self).execution_started_at
            }),
            final(self).completed_at == (if status == TeamExecutionStatus::Completed || status
                == TeamExecutionStatus::Failed || status == TeamExecutionStatus::Cancelled {
                Some(now)
            } else {
                old(self).completed_at
            }),
            final(self).id == old(self).id,
            final(self).epic_task_id == old(self).epic_task_id,
            final(self).epic_workspace_id == old(self).epic_workspace_id,
            final(self).planner_output == old(self).planner_output,
            final(self).planner_profile_id == old(self).planner_profile_id,
            final(self).max_parallel_workers == old(self).max_parallel_workers,
            final(self).error_message == old(self).error_message,
            final(self).created_at == old(self).created_at,
    {
        self.status = status;
        self.updated_at = now;
        match status {
            TeamExecutionStatus::Planned => {
                self.planned_at = Some(now);
            },
            TeamExecutionStatus::Executing => {
                self.execution_started_at = Some(now);
            },
            TeamExecutionStatus::Completed | TeamExecutionStatus::Failed
            | TeamExecutionStatus::Cancelled => {
                self.completed_at = Some(now);
            },
            TeamExecutionStatus::Planning => {},
        }
    }
}

/// How many of the first `n` tasks have status `s`.
pub open spec fn spec_count(statuses: Seq<TeamTaskStatus>, s: TeamTaskStatus, n: int) -> int
    decreases n,
{
    if n <= 0 {
        0
    } else {
        spec_count(statuses, s, n - 1) + if n <= statuses.len() && statuses[n - 1] == s {
            1int
        } else {
            0int
        }
    }
}

/// The progress snapshot of a list of task statuses. An assigned task
/// counts as pending until it runs.
pub open spec fn spec_team_progress(statuses: Seq<TeamTaskStatus>) -> TeamProgress {
    let n = statuses.len() as int;
    TeamProgress {
        total: n as i32,
        completed: spec_count(statuses, TeamTaskStatus::Completed, n) as i32,
        running: spec_count(statuses, TeamTaskStatus::Running, n) as i32,
        failed: spec_count(statuses, TeamTaskStatus::Failed, n) as i32,
        pending: (spec_count(statuses, TeamTaskStatus::Pending, n) + spec_count(
            statuses,
            TeamTaskStatus::Assigned,
            n,
        )) as i32,
        skipped: spec_count(statuses, TeamTaskStatus::Skipped, n) as i32,
    }
}

/// How many tasks have status `s`.
pub fn count(statuses: &Vec<TeamTaskStatus>, s: TeamTaskStatus) -> (n: i32)
    requires
        statuses.len() <= i32::MAX,
    ensures
        n == spec_count(statuses@, s, statuses.len() as int),
        0 <= n <= statuses.len(),
{
    let mut n: i32 = 0;
    let mut i: usize = 0;
    while i < statuses.len()
        invariant
            i <= statuses.len() <= i32::MAX,
            0 <= n <= i,
            n == spec_count(statuses@, s, i as int),
        decreases statuses.len() - i,
    {
        if statuses[i] == s {
            n += 1;
        }
        i += 1;
    }
    n
}

/// Two statuses are counted apart: their counts together never exceed the number of tasks.
pub proof fn lemma_counts_apart(
    statuses: Seq<TeamTaskStatus>,
    a: TeamTaskStatus,
    b: TeamTaskStatus,
    n: int,
)
    requires
        a != b,
        0 <= n <= statuses.len(),
    ensures
        0 <= spec_count(statuses, a, n),
        0 <= spec_count(statuses, b, n),
        spec_count(statuses, a, n) + spec_count(statuses, b, n) <= n,
    decreases n,
{
    if n > 0 {
        lemma_counts_apart(statuses, a, b, n - 1);
    }
}

/// The progress snapshot of a team execution's tasks.
pub fn team_progress(statuses: &Vec<TeamTaskStatus>) -> (p: TeamProgress)
    requires
        statuses.len() <= i32::MAX,
    ensures
        p == spec_team_progress(statuses@),
{
    proof {
        lemma_counts_apart(
            statuses@,
            TeamTaskStatus::Pending,
            TeamTaskStatus::Assigned,
            statuses.len() as int,
        );
    }
    TeamProgress {
        total: statuses.len() as i32,
        completed: count(statuses, TeamTaskStatus::Completed),
        running: count(statuses, TeamTaskStatus::Running),
        failed: count(statuses, TeamTaskStatus::Failed),
        pending: count(statuses, TeamTaskStatus::Pending) + count(
            statuses,
            TeamTaskStatus::Assigned,
        ),
        skipped: count(statuses, TeamTaskStatus::Skipped),
    }
}

/// Every task is completed or skipped.
pub open spec fn spec_team_settled(statuses: Seq<TeamTaskStatus>) -> bool {
    forall|i: int|
        0 <= i < statuses.len() ==> (#[trigger] statuses[i]) == TeamTaskStatus::Completed
            || statuses[i] == TeamTaskStatus::Skipped
}

/// Whether every task is completed or skipped.
pub fn all_completed(statuses: &Vec<TeamTaskStatus>) -> (b: bool)
    ensures
        b == spec_team_settled(statuses@),
{
    let mut i: usize = 0;
    while i < statuses.len()
        invariant
            i <= statuses.len(),
            forall|j: int|
                0 <= j < i ==> (#[trigger] statuses[j]) == TeamTaskStatus::Completed || statuses[j]
                    == TeamTaskStatus::Skipped,
        decreases statuses.len() - i,
    {
        if !(statuses[i] == TeamTaskStatus::Completed || statuses[i] == TeamTaskStatus::Skipped) {
            return false;
        }
        i += 1;
    }
    true
}

/// A strict majority of the tasks has failed.
pub open spec fn spec_team_majority_failed(p: TeamProgress) -> bool {
    p.failed > p.total / 2
}

/// One task of a team execution: a child task with its scheduling metadata.
#[derive(Debug)]
pub struct TeamTask {
    pub id: u128,
    pub team_execution_id: u128,
    pub task_id: u128,
    pub workspace_id: Option<u128>,
    pub sequence_order: i32,
    pub depends_on: Vec<u128>,
    pub required_skills: Vec<String>,
    pub assigned_agent_profile_id: Option<u128>,
    pub status: TeamTaskStatus,
    pub branch_name: Option<String>,
    pub complexity: i32,
    pub duration_seconds: Option<i32>,
    pub error_message: Option<String>,
    pub retry_count: i32,
    pub max_retries: i32,
    pub started_at: Option<i64>,
    pub completed_at: Option<i64>,
    pub created_at: i64,
    pub updated_at: i64,
}

/// A team execution with the tasks that it owns, in dispatch order.
#[derive(Debug)]
pub struct Team {
    pub execution: TeamExecution,
    pub tasks: Vec<TeamTask>,
}

/// Why an operation of the team manager was refused.
#[derive(Debug)]
pub enum TeamError {
    ExecutionNotFound(u128),
    NoAvailableWorkers,
    TaskNotFound(u128),
    InvalidStateTransition(String),
    ExecutionFailed(String),
}

/// What the team manager publishes to subscribers.
#[derive(Debug)]
pub enum TeamEvent {
    TaskStarted { team_task_id: u128, agent_id: u128 },
    TaskCompleted { team_task_id: u128 },
    TaskFailed { team_task_id: u128, error: String },
    ExecutionProgress { progress: TeamProgress },
    ExecutionCompleted { team_execution_id: u128 },
    ExecutionFailed { team_execution_id: u128, error: String },
}

/// Mathematical view of a [`TeamEvent`].
pub ghost enum TeamEventView {
    TaskStarted { team_task_id: u128, agent_id: u128 },
    TaskCompleted { team_task_id: u128 },
    TaskFailed { team_task_id: u128, error: Seq<char> },
    ExecutionProgress { progress: TeamProgress },
    ExecutionCompleted { team_execution_id: u128 },
    ExecutionFailed { team_execution_id: u128, error: Seq<char> },
}

impl View for TeamEvent {
    type V = TeamEventView;

    open spec fn view(&self) -> TeamEventView {
        match self {
            TeamEvent::TaskStarted { team_task_id, agent_id } => TeamEventView::TaskStarted {
                team_task_id: *team_task_id,
                agent_id: *agent_id,
            },
            TeamEvent::TaskCompleted { team_task_id } => TeamEventView::TaskCompleted {
                team_task_id: *team_task_id,
            },
            TeamEvent::TaskFailed { team_task_id, error } => TeamEventView::TaskFailed {
                team_task_id: *team_task_id,
                error: error@,
            },
            TeamEvent::ExecutionProgress { progress } => TeamEventView::ExecutionProgress {
                progress: *progress,
            },
            TeamEvent::ExecutionCompleted { team_execution_id } => TeamEventView::ExecutionCompleted {
                team_execution_id: *team_execution_id,
            },
            TeamEvent::ExecutionFailed {
                team_execution_id,
                error,
            } => TeamEventView::ExecutionFailed {
                team_execution_id: *team_execution_id,
                error: error@,
            },
        }
    }
}

impl DeepView for TeamEvent {
    type V = TeamEventView;

    open spec fn deep_view(&self) -> TeamEventView {
        self@
    }
}

/// What one step of the team manager asks its caller to carry out.
#[derive(Debug)]
pub struct TeamEffects {
    pub starts: Vec<StartOrder>,
    pub task_updates: Vec<TaskUpdate>,
    pub events: Vec<TeamEvent>,
}

/// Mathematical view of [`TeamEffects`].
pub ghost struct TeamEffectsView {
    pub starts: Seq<StartOrderView>,
    pub task_updates: Seq<TaskUpdate>,
    pub events: Seq<TeamEventView>,
}

impl View for TeamEffects {
    type V = TeamEffectsView;

    open spec fn view(&self) -> TeamEffectsView {
        TeamEffectsView {
            starts: self.starts.deep_view(),
            task_updates: self.task_updates@,
            events: self.events.deep_view(),
        }
    }
}

/// The status of a team task as the scheduler knows it.
pub open spec fn spec_task_status(s: TeamTaskStatus) -> SwarmTaskStatus {
    match s {
        TeamTaskStatus::Pending => SwarmTaskStatus::Pending,
        TeamTaskStatus::Blocked => SwarmTaskStatus::Blocked,
        TeamTaskStatus::Assigned => SwarmTaskStatus::Assigned,
        TeamTaskStatus::Running => SwarmTaskStatus::Running,
        TeamTaskStatus::Completed => SwarmTaskStatus::Completed,
        TeamTaskStatus::Failed => SwarmTaskStatus::Failed,
        TeamTaskStatus::Skipped => SwarmTaskStatus::Skipped,
    }
}

/// The phase of a team execution as the scheduler knows it.
pub open spec fn spec_execution_status(s: TeamExecutionStatus) -> SwarmExecutionStatus {
    match s {
        TeamExecutionStatus::Planning => SwarmExecutionStatus::Planning,
        TeamExecutionStatus::Planned => SwarmExecutionStatus::Planned,
        TeamExecutionStatus::Executing => SwarmExecutionStatus::Executing,
        TeamExecutionStatus::Completed => SwarmExecutionStatus::Completed,
        TeamExecutionStatus::Failed => SwarmExecutionStatus::Failed,
        TeamExecutionStatus::Cancelled => SwarmExecutionStatus::Cancelled,
    }
}

impl View for TeamTask {
    type V = SwarmTaskView;

    /// A team task is scheduled as the SubTask with the same fields.
    open spec fn view(&self) -> SwarmTaskView {
        SwarmTaskView {
            id: self.id,
            swarm_execution_id: self.team_execution_id,
            task_id: self.task_id,
            workspace_id: self.workspace_id,
            sequence_order: self.sequence_order,
            depends_on: self.depends_on@,
            required_skills: self.required_skills.deep_view(),
            assigned_agent_profile_id: self.assigned_agent_profile_id,
            status: spec_task_status(self.status),
            branch_name: self.branch_name.deep_view(),
            complexity: self.complexity,
            duration_seconds: self.duration_seconds,
            error_message: self.error_message.deep_view(),
            retry_count: self.retry_count,
            max_retries: self.max_retries,
            started_at: self.started_at,
            completed_at: self.completed_at,
            created_at: self.created_at,
            updated_at: self.updated_at,
        }
    }
}

impl DeepView for TeamTask {
    type V = SwarmTaskView;

    open spec fn deep_view(&self) -> SwarmTaskView {
        self@
    }
}

impl View for TeamExecution {
    type V = SwarmExecutionView;

    /// A team execution is scheduled as an Execution that asks for a
    /// single vote and never enters review.
    open spec fn view(&self) -> SwarmExecutionView {
        SwarmExecutionView {
            id: self.id,
            epic_task_id: self.epic_task_id,
            epic_workspace_id: self.epic_workspace_id,
            status: spec_execution_status(self.status),
            planner_output: self.planner_output.deep_view(),
            planner_profile_id: self.planner_profile_id,
            reviewer_count: 1,
            consensus_threshold: 1,
            consensus_approvals: 0,
            consensus_rejections: 0,
            max_parallel_workers: self.max_parallel_workers,
            error_message: self.error_message.deep_view(),
            planned_at: self.planned_at,
            execution_started_at: self.execution_started_at,
            review_started_at: None,
            merge_started_at: None,
            created_at: self.created_at,
            completed_at: self.completed_at,
            updated_at: self.updated_at,
        }
    }
}

impl View for Team {
    type V = SwarmView;

    open spec fn view(&self) -> SwarmView {
        SwarmView {
            execution: self.execution@,
            tasks: self.tasks.deep_view(),
            reviews: Seq::empty(),
            votes: Seq::empty(),
        }
    }
}

/// An Execution of the scheduler that stands for a team execution: it
/// asks for a single vote, has no Review, and is not in review or merging.
pub open spec fn spec_is_team(s: SwarmView) -> bool {
    &&& s.reviews.len() == 0
    &&& s.votes.len() == 0
    &&& s.execution.reviewer_count == 1
    &&& s.execution.consensus_threshold == 1
    &&& s.execution.consensus_approvals == 0
    &&& s.execution.consensus_rejections == 0
    &&& s.execution.review_started_at is None
    &&& s.execution.merge_started_at is None
    &&& s.execution.status != SwarmExecutionStatus::Reviewing
    &&& s.execution.status != SwarmExecutionStatus::Merging
}

/// The event of a team execution that stands for an event of the
/// scheduler. Where the scheduler asks for a review, the team execution
/// is completed, and a progress event carries the team's own snapshot.
pub open spec fn spec_team_event(e: SwarmEventView, snapshot: TeamProgress) -> TeamEventView {
    match e {
        SwarmEventView::TaskStarted { swarm_task_id, agent_id } => TeamEventView::TaskStarted {
            team_task_id: swarm_task_id,
            agent_id: agent_id,
        },
        SwarmEventView::TaskCompleted { swarm_task_id } => TeamEventView::TaskCompleted {
            team_task_id: swarm_task_id,
        },
        SwarmEventView::TaskFailed { swarm_task_id, error } => TeamEventView::TaskFailed {
            team_task_id: swarm_task_id,
            error: error,
        },
        SwarmEventView::ExecutionProgress { progress } => TeamEventView::ExecutionProgress {
            progress: snapshot,
        },
        SwarmEventView::ExecutionCompleted {
            swarm_execution_id,
        } => TeamEventView::ExecutionCompleted { team_execution_id: swarm_execution_id },
        SwarmEventView::ExecutionFailed {
            swarm_execution_id,
            error,
        } => TeamEventView::ExecutionFailed { team_execution_id: swarm_execution_id, error: error },
        SwarmEventView::ConsensusRequired {
            swarm_execution_id,
        } => TeamEventView::ExecutionCompleted { team_execution_id: swarm_execution_id },
    }
}

/// The effects of a step of the scheduler, as a team execution publishes them.
pub open spec fn spec_team_effects(e: EffectsView, snapshot: TeamProgress) -> TeamEffectsView {
    TeamEffectsView {
        starts: e.starts,
        task_updates: e.task_updates,
        events: e.events.map_values(|x: SwarmEventView| spec_team_event(x, snapshot)),
    }
}

/// The statuses of the tasks of a team execution, in dispatch order.
pub open spec fn spec_statuses(team: &Team) -> Seq<TeamTaskStatus> {
    Seq::new(team.tasks.len() as nat, |i: int| team.tasks[i].status)
}

/// The progress snapshot of a team execution.
pub open spec fn spec_snapshot(team: &Team) -> TeamProgress {
    spec_team_progress(spec_statuses(team))
}

/// A team execution after a step of the scheduler: where the scheduler
/// moved on to review, the team execution is completed instead.
pub open spec fn spec_team_outcome(s: SwarmView, now: i64) -> SwarmView {
    if s.execution.status == SwarmExecutionStatus::Reviewing {
        SwarmView {
            execution: SwarmExecutionView {
                status: SwarmExecutionStatus::Completed,
                review_started_at: None,
                completed_at: Some(now),
                ..s.execution
            },
            ..s
        }
    } else {
        s
    }
}

/// The team error that stands for an error of the scheduler.
pub open spec fn spec_team_error(e: SwarmError, t: TeamError) -> bool {
    match e {
        SwarmError::ExecutionNotFound(id) => t matches TeamError::ExecutionNotFound(x) && x == id,
        SwarmError::NoAvailableWorkers => t is NoAvailableWorkers,
        SwarmError::TaskNotFound(id) => t matches TeamError::TaskNotFound(x) && x == id,
        SwarmError::InvalidStateTransition(m) => t matches TeamError::InvalidStateTransition(x)
            && x@ == m@,
        SwarmError::ExecutionFailed(m) => t matches TeamError::ExecutionFailed(x) && x@ == m@,
    }
}

/// Converts the status of a team task for the scheduler.
pub fn task_status(s: TeamTaskStatus) -> (r: SwarmTaskStatus)
    ensures
        r == spec_task_status(s),
{
    match s {
        TeamTaskStatus::Pending => SwarmTaskStatus::Pending,
        TeamTaskStatus::Blocked => SwarmTaskStatus::Blocked,
        TeamTaskStatus::Assigned => SwarmTaskStatus::Assigned,
        TeamTaskStatus::Running => SwarmTaskStatus::Running,
        TeamTaskStatus::Completed => SwarmTaskStatus::Completed,
        TeamTaskStatus::Failed => SwarmTaskStatus::Failed,
        TeamTaskStatus::Skipped => SwarmTaskStatus::Skipped,
    }
}

/// Converts the status of a SubTask of the scheduler back.
pub fn team_task_status(s: SwarmTaskStatus) -> (r: TeamTaskStatus)
    ensures
        spec_task_status(r) == s,
{
    match s {
        SwarmTaskStatus::Pending => TeamTaskStatus::Pending,
        SwarmTaskStatus::Blocked => TeamTaskStatus::Blocked,
        SwarmTaskStatus::Assigned => TeamTaskStatus::Assigned,
        SwarmTaskStatus::Running => TeamTaskStatus::Running,
        SwarmTaskStatus::Completed => TeamTaskStatus::Completed,
        SwarmTaskStatus::Failed => TeamTaskStatus::Failed,
        SwarmTaskStatus::Skipped => TeamTaskStatus::Skipped,
    }
}

/// Converts the phase of a team execution for the scheduler.
pub fn execution_status(s: TeamExecutionStatus) -> (r: SwarmExecutionStatus)
    ensures
        r == spec_execution_status(s),
{
    match s {
        TeamExecutionStatus::Planning => SwarmExecutionStatus::Planning,
        TeamExecutionStatus::Planned => SwarmExecutionStatus::Planned,
        TeamExecutionStatus::Executing => SwarmExecutionStatus::Executing,
        TeamExecutionStatus::Completed => SwarmExecutionStatus::Completed,
        TeamExecutionStatus::Failed => SwarmExecutionStatus::Failed,
        TeamExecutionStatus::Cancelled => SwarmExecutionStatus::Cancelled,
    }
}

/// Converts the phase of an Execution of the scheduler back.
pub fn team_execution_status(s: SwarmExecutionStatus) -> (r: TeamExecutionStatus)
    requires
        s != SwarmExecutionStatus::Reviewing,
        s != SwarmExecutionStatus::Merging,
    ensures
        spec_execution_status(r) == s,
{
    match s {
        SwarmExecutionStatus::Planning => TeamExecutionStatus::Planning,
        SwarmExecutionStatus::Planned => TeamExecutionStatus::Planned,
        SwarmExecutionStatus::Executing => TeamExecutionStatus::Executing,
        SwarmExecutionStatus::Failed => TeamExecutionStatus::Failed,
        SwarmExecutionStatus::Cancelled => TeamExecutionStatus::Cancelled,
        _ => TeamExecutionStatus::Completed,
    }
}

/// A copy of an optional text.
pub fn clone_text(t: &Option<String>) -> (r: Option<String>)
    ensures
        r.deep_view() == t.deep_view(),
{
    match t {
        Some(s) => Some(s.clone()),
        None => None,
    }
}

/// A copy of a list of identifiers.
pub fn clone_ids(list: &Vec<u128>) -> (r: Vec<u128>)
    ensures
        r@ == list@,
{
    let mut r: Vec<u128> = Vec::new();
    let mut i: usize = 0;
    while i < list.len()
        invariant
            i <= list.len(),
            r@ == list@.take(i as int),
        decreases list.len() - i,
    {
        r.push(list[i]);
        assert(r@ =~= list@.take(i + 1));
        i += 1;
    }
    assert(r@ =~= list@);
    r
}

impl TeamTask {
    /// The SubTask that the scheduler works on in place of the team task.
    pub fn to_subtask(&self) -> (t: SwarmTask)
        ensures
            t@ == self@,
    {
        SwarmTask {
            id: self.id,
            swarm_execution_id: self.team_execution_id,
            task_id: self.task_id,
            workspace_id: self.workspace_id,
            sequence_order: self.sequence_order,
            depends_on: clone_ids(&self.depends_on),
            required_skills: clone_strings(&self.required_skills),
            assigned_agent_profile_id: self.assigned_agent_profile_id,
            status: task_status(self.status),
            branch_name: clone_text(&self.branch_name),
            complexity: self.complexity,
            duration_seconds: self.duration_seconds,
            error_message: clone_text(&self.error_message),
            retry_count: self.retry_count,
            max_retries: self.max_retries,
            started_at: self.started_at,
            completed_at: self.completed_at,
            created_at: self.created_at,
            updated_at: self.updated_at,
        }
    }

    /// The team task that a SubTask of the scheduler stands for.
    pub fn from_subtask(t: &SwarmTask) -> (r: TeamTask)
        ensures
            r@ == t@,
    {
        TeamTask {
            id: t.id,
            team_execution_id: t.swarm_execution_id,
            task_id: t.task_id,
            workspace_id: t.workspace_id,
            sequence_order: t.sequence_order,
            depends_on: clone_ids(&t.depends_on),
            required_skills: clone_strings(&t.required_skills),
            assigned_agent_profile_id: t.assigned_agent_profile_id,
            status: team_task_status(t.status),
            branch_name: clone_text(&t.branch_name),
            complexity: t.complexity,
            duration_seconds: t.duration_seconds,
            error_message: clone_text(&t.error_message),
            retry_count: t.retry_count,
            max_retries: t.max_retries,
            started_at: t.started_at,
            completed_at: t.completed_at,
            created_at: t.created_at,
            updated_at: t.updated_at,
        }
    }
}

impl Team {
    /// The structural invariant of the scheduler, for a team execution.
    pub open spec fn wf(&self) -> bool {
        self@.wf()
    }

    /// The Execution that the scheduler works on in place of the team execution.
    pub fn to_swarm(&self) -> (s: Swarm)
        ensures
            s@ == self@,
            s.tasks.len() == self.tasks.len(),
            spec_is_team(s@),
    {
        let e = &self.execution;
        let execution = SwarmExecution {
            id: e.id,
            epic_task_id: e.epic_task_id,
            epic_workspace_id: e.epic_workspace_id,
            status: execution_status(e.status),
            planner_output: clone_text(&e.planner_output),
            planner_profile_id: e.planner_profile_id,
            reviewer_count: 1,
            consensus_threshold: 1,
            consensus_approvals: 0,
            consensus_rejections: 0,
            max_parallel_workers: e.max_parallel_workers,
            error_message: clone_text(&e.error_message),
            planned_at: e.planned_at,
            execution_started_at: e.execution_started_at,
            review_started_at: None,
            merge_started_at: None,
            created_at: e.created_at,
            completed_at: e.completed_at,
            updated_at: e.updated_at,
        };
        let mut tasks: Vec<SwarmTask> = Vec::new();
        let mut i: usize = 0;
        assert(tasks.deep_view() =~= self.tasks.deep_view().take(0));
        while i < self.tasks.len()
            invariant
                i <= self.tasks.len(),
                tasks.deep_view() == self.tasks.deep_view().take(i as int),
            decreases self.tasks.len() - i,
        {
            let ghost before = tasks.deep_view();
            let t = self.tasks[i].to_subtask();
            tasks.push(t);
            assert(tasks.deep_view() =~= before.push(t@));
            assert(tasks.deep_view() =~= self.tasks.deep_view().take(i + 1));
            i += 1;
        }
        assert(tasks.deep_view() =~= self.tasks.deep_view());
        let s = Swarm { execution, tasks, reviews: Vec::new(), votes: Vec::new() };
        assert(s@.reviews =~= Seq::empty());
        s
    }

    /// The team execution that an Execution of the scheduler stands for.
    pub fn from_swarm(s: &Swarm) -> (team: Team)
        requires
            spec_is_team(s@),
        ensures
            team@ == s@,
    {
        let e = &s.execution;
        let execution = TeamExecution {
            id: e.id,
            epic_task_id: e.epic_task_id,
            epic_workspace_id: e.epic_workspace_id,
            status: team_execution_status(e.status),
            planner_output: clone_text(&e.planner_output),
            planner_profile_id: e.planner_profile_id,
            max_parallel_workers: e.max_parallel_workers,
            error_message: clone_text(&e.error_message),
            planned_at: e.planned_at,
            execution_started_at: e.execution_started_at,
            created_at: e.created_at,
            completed_at: e.completed_at,
            updated_at: e.updated_at,
        };
        let mut tasks: Vec<TeamTask> = Vec::new();
        let mut i: usize = 0;
        assert(tasks.deep_view() =~= s.tasks.deep_view().take(0));
        while i < s.tasks.len()
            invariant
                i <= s.tasks.len(),
                tasks.deep_view() == s.tasks.deep_view().take(i as int),
            decreases s.tasks.len() - i,
        {
            let ghost before = tasks.deep_view();
            let t = TeamTask::from_subtask(&s.tasks[i]);
            tasks.push(t);
            assert(tasks.deep_view() =~= before.push(t@));
            assert(tasks.deep_view() =~= s.tasks.deep_view().take(i + 1));
            i += 1;
        }
        assert(tasks.deep_view() =~= s.tasks.deep_view());
        let team = Team { execution, tasks };
        assert(team@.reviews =~= s@.reviews);
        assert(team@.votes =~= s@.votes);
        team
    }

    /// Whether the structural invariant holds.
    pub fn is_well_formed(&self) -> (b: bool)
        ensures
            b == self.wf(),
    {
        self.to_swarm().is_well_formed()
    }

    /// The progress snapshot of the team execution's tasks. An assigned
    /// task counts as pending until it runs.
    pub fn get_progress(&self) -> (p: TeamProgress)
        requires
            self.tasks.len() <= i32::MAX,
        ensures
            p == spec_snapshot(self),
    {
        let mut statuses: Vec<TeamTaskStatus> = Vec::new();
        let mut i: usize = 0;
        while i < self.tasks.len()
            invariant
                i <= self.tasks.len(),
                statuses@ == spec_statuses(self).take(i as int),
            decreases self.tasks.len() - i,
        {
            statuses.push(self.tasks[i].status);
            assert(statuses@ =~= spec_statuses(self).take(i + 1));
            i += 1;
        }
        assert(statuses@ =~= spec_statuses(self));
        team_progress(&statuses)
    }
}

/// Converts an event of the scheduler.
pub fn team_event(e: &SwarmEvent, snapshot: TeamProgress) -> (r: TeamEvent)
    ensures
        r@ == spec_team_event(e@, snapshot),
{
    match e {
        SwarmEvent::TaskStarted { swarm_task_id, agent_id } => TeamEvent::TaskStarted {
            team_task_id: *swarm_task_id,
            agent_id: *agent_id,
        },
        SwarmEvent::TaskCompleted { swarm_task_id } => TeamEvent::TaskCompleted {
            team_task_id: *swarm_task_id,
        },
        SwarmEvent::TaskFailed { swarm_task_id, error } => TeamEvent::TaskFailed {
            team_task_id: *swarm_task_id,
            error: error.clone(),
        },
        SwarmEvent::ExecutionProgress { progress: _ } => TeamEvent::ExecutionProgress {
            progress: snapshot,
        },
        SwarmEvent::ExecutionCompleted { swarm_execution_id } => TeamEvent::ExecutionCompleted {
            team_execution_id: *swarm_execution_id,
        },
        SwarmEvent::ExecutionFailed { swarm_execution_id, error } => TeamEvent::ExecutionFailed {
            team_execution_id: *swarm_execution_id,
            error: error.clone(),
        },
        SwarmEvent::ConsensusRequired { swarm_execution_id } => TeamEvent::ExecutionCompleted {
            team_execution_id: *swarm_execution_id,
        },
    }
}

/// Converts the effects of a step of the scheduler.
pub fn team_effects(e: Effects, snapshot: TeamProgress) -> (r: TeamEffects)
    ensures
        r@ == spec_team_effects(e@, snapshot),
{
    let Effects { starts, task_updates, events } = e;
    let ghost source = events.deep_view();
    let mut out: Vec<TeamEvent> = Vec::new();
    let mut k: usize = 0;
    assert(out.deep_view() =~= source.take(0).map_values(|x: SwarmEventView| spec_team_event(x, snapshot)));
    while k < events.len()
        invariant
            k <= events.len(),
            source == events.deep_view(),
            out.deep_view() == source.take(k as int).map_values(
                |x: SwarmEventView| spec_team_event(x, snapshot),
            ),
        decreases events.len() - k,
    {
        let ghost before = out.deep_view();
        let t = team_event(&events[k], snapshot);
        assert(events[k as int]@ == source[k as int]);
        out.push(t);
        assert(out.deep_view() =~= before.push(t@));
        assert(out.deep_view() =~= source.take(k + 1).map_values(
            |x: SwarmEventView| spec_team_event(x, snapshot),
        ));
        k += 1;
    }
    assert(source.take(events.len() as int) =~= source);
    TeamEffects { starts, task_updates, events: out }
}

/// Converts an error of the scheduler.
pub fn team_error(e: SwarmError) -> (t: TeamError)
    ensures
        spec_team_error(e, t),
{
    match e {
        SwarmError::ExecutionNotFound(id) => TeamError::ExecutionNotFound(id),
        SwarmError::NoAvailableWorkers => TeamError::NoAvailableWorkers,
        SwarmError::TaskNotFound(id) => TeamError::TaskNotFound(id),
        SwarmError::InvalidStateTransition(m) => TeamError::InvalidStateTransition(m),
        SwarmError::ExecutionFailed(m) => TeamError::ExecutionFailed(m),
    }
}

/// The scheduler's invariants carry over to the outcome of a team step.
pub proof fn lemma_team_outcome_keeps_invariants(s: SwarmView, now: i64)
    requires
        s.wf(),
    ensures
        spec_team_outcome(s, now).wf(),
        spec_team_outcome(s, now).inv() == s.inv(),
{
}

/// The team manager. It holds its configuration by value and keeps no other state.
///
/// It runs team executions on the scheduler of the swarm: every
/// operation does what the operation of the same name does there, but
/// an execution whose tasks are all completed or skipped is completed
/// where a swarm would move on to review.
#[derive(Debug)]
pub struct TeamManager {
    pub config: TeamManagerConfig,
}

impl TeamManager {
    pub fn new() -> (m: Self)
        ensures
            m.config.max_parallel_tasks == 5,
            m.config.task_timeout_seconds == 3600,
            m.config.retry_delay_seconds == 30,
            m.config.branch_prefix@ == "team"@,
    {
        TeamManager { config: TeamManagerConfig::default() }
    }

    pub fn with_config(config: TeamManagerConfig) -> (m: Self)
        ensures
            m.config == config,
    {
        TeamManager { config }
    }

    /// Whether the execution fails as a whole: a strict majority of its tasks has failed.
    pub fn majority_failed(&self, progress: &TeamProgress) -> (b: bool)
        requires
            progress.total >= 0,
        ensures
            b == spec_team_majority_failed(*progress),
    {
        progress.failed > progress.total / 2
    }

    /// The scheduler that runs the team's executions.
    fn scheduler(&self) -> (m: SwarmManager)
        ensures
            m.config.branch_prefix@ == self.config.branch_prefix@,
    {
        SwarmManager::with_config(
            SwarmManagerConfig {
                max_parallel_tasks: self.config.max_parallel_tasks,
                task_timeout_seconds: self.config.task_timeout_seconds,
                retry_delay_seconds: self.config.retry_delay_seconds,
                branch_prefix: self.config.branch_prefix.clone(),
            },
        )
    }

    /// Takes the outcome of a step of the scheduler back into the team execution.
    fn settle(team: &mut Team, swarm: Swarm, now: i64)
        requires
            swarm.wf(),
            spec_is_team(
                SwarmView {
                    execution: SwarmExecutionView {
                        status: SwarmExecutionStatus::Executing,
                        review_started_at: None,
                        ..swarm@.execution
                    },
                    ..swarm@
                },
            ),
            swarm.execution.status != SwarmExecutionStatus::Merging,
            swarm.execution.status != SwarmExecutionStatus::Reviewing
                ==> swarm.execution.review_started_at is None,
        ensures
            final(team)@ == spec_team_outcome(swarm@, now),
            final(team).wf(),
            final(team)@.inv() == swarm@.inv(),
    {
        proof {
            lemma_team_outcome_keeps_invariants(swarm@, now);
        }
        let mut swarm = swarm;
        if swarm.execution.status == SwarmExecutionStatus::Reviewing {
            swarm.execution.status = SwarmExecutionStatus::Completed;
            swarm.execution.review_started_at = None;
            swarm.execution.completed_at = Some(now);
        }
        *team = Team::from_swarm(&swarm);
    }

    /// The phase of the execution.
    pub fn get_status(&self, team: &Team) -> (s: TeamExecutionStatus)
        ensures
            s == team.execution.status,
    {
        team.execution.status
    }

    /// The scheduling tick of a team execution.
    pub fn execute_ready_tasks(
        &self,
        team: &mut Team,
        pool: &Vec<AgentProfileWithSkills>,
        now: i64,
    ) -> (r: Result<TeamEffects, TeamError>)
        requires
            old(team).wf(),
        ensures
            final(team).wf(),
            old(team)@.inv() ==> final(team)@.inv(),
            old(team).execution.status != TeamExecutionStatus::Executing ==> final(team)@ == old(
                team,
            )@ && (r matches Err(TeamError::InvalidStateTransition(m)) && m@
                == "Execution is not in executing state"@),
            old(team).execution.status == TeamExecutionStatus::Executing ==> (r matches Ok(
                effects,
            ) && final(team)@ == spec_team_outcome(
                spec_tick(old(team)@, pool@, self.config.branch_prefix@, now).0,
                now,
            ) && effects@ == spec_team_effects(
                spec_tick(old(team)@, pool@, self.config.branch_prefix@, now).1, spec_snapshot(final(team)))),
    {
        let mut swarm = team.to_swarm();
        match self.scheduler().execute_ready_tasks(&mut swarm, pool, now) {
            Ok(effects) => {
                Self::settle(team, swarm, now);
                let snapshot = team.get_progress();
                Ok(team_effects(effects, snapshot))
            },
            Err(e) => Err(team_error(e)),
        }
    }

    /// Records that the workspace of an assigned task exists and that its agent runs.
    pub fn start_task(&self, team: &mut Team, team_task_id: u128, workspace_id: u128, now: i64) -> (r:
        Result<TeamEffects, TeamError>)
        requires
            old(team).wf(),
        ensures
            final(team).wf(),
            old(team)@.inv() ==> final(team)@.inv(),
            r is Err ==> final(team)@ == old(team)@,
            match spec_position(old(team)@.tasks, team_task_id) {
                None => r matches Err(TeamError::TaskNotFound(id)) && id == team_task_id,
                Some(i) => {
                    let t = old(team)@.tasks[i];
                    if !spec_takes_events(old(team)@.execution.status) || t.status
                        != SwarmTaskStatus::Assigned {
                        r matches Err(TeamError::InvalidStateTransition(_))
                    } else {
                        match t.assigned_agent_profile_id {
                            None => r matches Err(TeamError::InvalidStateTransition(_)),
                            Some(agent) => r matches Ok(effects) && final(team)@ == spec_start(
                                old(team)@,
                                i,
                                agent,
                                workspace_id,
                                now,
                            ).0 && effects@ == spec_team_effects(
                                spec_start(old(team)@, i, agent, workspace_id, now).1, spec_snapshot(final(team))),
                        }
                    }
                },
            },
    {
        let mut swarm = team.to_swarm();
        match self.scheduler().start_task(&mut swarm, team_task_id, workspace_id, now) {
            Ok(effects) => {
                Self::settle(team, swarm, now);
                let snapshot = team.get_progress();
                Ok(team_effects(effects, snapshot))
            },
            Err(e) => Err(team_error(e)),
        }
    }

    /// Handles the completion event of a task, and ticks.
    pub fn complete_task(
        &self,
        team: &mut Team,
        team_task_id: u128,
        pool: &Vec<AgentProfileWithSkills>,
        now: i64,
    ) -> (r: Result<TeamEffects, TeamError>)
        requires
            old(team).wf(),
        ensures
            final(team).wf(),
            old(team)@.inv() ==> final(team)@.inv(),
            r is Err ==> final(team)@ == old(team)@,
            match spec_position(old(team)@.tasks, team_task_id) {
                None => r matches Err(TeamError::TaskNotFound(id)) && id == team_task_id,
                Some(i) => {
                    let t = old(team)@.tasks[i];
                    if !spec_takes_events(old(team)@.execution.status) || t.status
                        == SwarmTaskStatus::Completed {
                        r matches Ok(effects) && effects@ == spec_team_effects(
                            EffectsView::nothing(), spec_snapshot(final(team))) && final(team)@ == old(team)@
                    } else if t.status != SwarmTaskStatus::Running {
                        r matches Err(TeamError::InvalidStateTransition(_))
                    } else {
                        r matches Ok(effects) && final(team)@ == spec_team_outcome(
                            spec_complete(old(team)@, i, pool@, self.config.branch_prefix@, now).0,
                            now,
                        ) && effects@ == spec_team_effects(
                            spec_complete(old(team)@, i, pool@, self.config.branch_prefix@, now).1, spec_snapshot(final(team)))
                    }
                },
            },
    {
        let mut swarm = team.to_swarm();
        match self.scheduler().complete_task(&mut swarm, team_task_id, pool, now) {
            Ok(effects) => {
                Self::settle(team, swarm, now);
                let snapshot = team.get_progress();
                Ok(team_effects(effects, snapshot))
            },
            Err(e) => Err(team_error(e)),
        }
    }

    /// Handles the failure event of a task. The first component of the
    /// result tells whether the task was put back for a retry.
    pub fn fail_task(&self, team: &mut Team, team_task_id: u128, error: &str, now: i64) -> (r:
        Result<(bool, TeamEffects), TeamError>)
        requires
            old(team).wf(),
        ensures
            final(team).wf(),
            old(team)@.inv() ==> final(team)@.inv(),
            r is Err ==> final(team)@ == old(team)@,
            match spec_position(old(team)@.tasks, team_task_id) {
                None => r matches Err(TeamError::TaskNotFound(id)) && id == team_task_id,
                Some(i) => {
                    let t = old(team)@.tasks[i];
                    if !spec_takes_events(old(team)@.execution.status) {
                        r matches Ok(out) && !out.0 && out.1@ == spec_team_effects(
                            EffectsView::nothing(), spec_snapshot(final(team))) && final(team)@ == old(team)@
                    } else if t.status != SwarmTaskStatus::Running && t.status
                        != SwarmTaskStatus::Assigned {
                        r matches Err(TeamError::InvalidStateTransition(_))
                    } else {
                        r matches Ok(out) && final(team)@ == spec_fail(old(team)@, i, error@, now).0
                            && out.1@ == spec_team_effects(spec_fail(old(team)@, i, error@, now).1, spec_snapshot(final(team)))
                            && out.0 == spec_fail(old(team)@, i, error@, now).2
                    }
                },
            },
    {
        let mut swarm = team.to_swarm();
        match self.scheduler().fail_task(&mut swarm, team_task_id, error, now) {
            Ok(out) => {
                Self::settle(team, swarm, now);
                let snapshot = team.get_progress();
                Ok((out.0, team_effects(out.1, snapshot)))
            },
            Err(e) => Err(team_error(e)),
        }
    }

    /// The cascading skip after the task `failed_task_id` failed for good.
    pub fn skip_dependent_tasks(&self, team: &mut Team, failed_task_id: u128, now: i64)
        requires
            old(team).wf(),
        ensures
            final(team).wf(),
            old(team)@.inv() ==> final(team)@.inv(),
            final(team)@ == (SwarmView {
                tasks: spec_cascade(old(team)@.tasks, failed_task_id, now),
                ..old(team)@
            }),
    {
        let mut swarm = team.to_swarm();
        self.scheduler().skip_dependent_tasks(&mut swarm, failed_task_id, now);
        Self::settle(team, swarm, now);
    }

    /// Pauses an executing team execution.
    pub fn pause_execution(&self, team: &mut Team, now: i64) -> (r: Result<(), TeamError>)
        requires
            old(team).wf(),
        ensures
            final(team).wf(),
            old(team)@.inv() ==> final(team)@.inv(),
            old(team).execution.status == TeamExecutionStatus::Executing ==> r is Ok && final(team)@
                == spec_pause(old(team)@, now),
            old(team).execution.status != TeamExecutionStatus::Executing ==> final(team)@ == old(
                team,
            )@ && (r matches Err(TeamError::InvalidStateTransition(m)) && m@
                == "Can only pause executing teams"@),
    {
        if team.execution.status != TeamExecutionStatus::Executing {
            return Err(
                TeamError::InvalidStateTransition("Can only pause executing teams".to_owned()),
            );
        }
        let mut swarm = team.to_swarm();
        match self.scheduler().pause_execution(&mut swarm, now) {
            Ok(_) => {
                Self::settle(team, swarm, now);
                Ok(())
            },
            Err(e) => Err(team_error(e)),
        }
    }

    /// Resumes a paused team execution and runs a tick.
    pub fn resume_execution(
        &self,
        team: &mut Team,
        pool: &Vec<AgentProfileWithSkills>,
        now: i64,
    ) -> (r: Result<TeamEffects, TeamError>)
        requires
            old(team).wf(),
        ensures
            final(team).wf(),
            old(team)@.inv() ==> final(team)@.inv(),
            old(team).execution.status == TeamExecutionStatus::Planned ==> (r matches Ok(
                effects,
            ) && final(team)@ == spec_team_outcome(
                spec_resume(old(team)@, pool@, self.config.branch_prefix@, now).0,
                now,
            ) && effects@ == spec_team_effects(
                spec_resume(old(team)@, pool@, self.config.branch_prefix@, now).1, spec_snapshot(final(team)))),
            old(team).execution.status != TeamExecutionStatus::Planned ==> final(team)@ == old(
                team,
            )@ && (r matches Err(TeamError::InvalidStateTransition(m)) && m@
                == "Can only resume planned/paused teams"@),
    {
        if team.execution.status != TeamExecutionStatus::Planned {
            return Err(
                TeamError::InvalidStateTransition(
                    "Can only resume planned/paused teams".to_owned(),
                ),
            );
        }
        let mut swarm = team.to_swarm();
        match self.scheduler().resume_execution(&mut swarm, pool, now) {
            Ok(effects) => {
                Self::settle(team, swarm, now);
                let snapshot = team.get_progress();
                Ok(team_effects(effects, snapshot))
            },
            Err(e) => Err(team_error(e)),
        }
    }

    /// Cancels a team execution: every pending or blocked task is skipped.
    pub fn cancel_execution(&self, team: &mut Team, now: i64)
        requires
            old(team).wf(),
        ensures
            final(team).wf(),
            old(team)@.inv() ==> final(team)@.inv(),
            final(team)@ == spec_cancel(old(team)@, now),
    {
        let mut swarm = team.to_swarm();
        self.scheduler().cancel_execution(&mut swarm, now);
        Self::settle(team, swarm, now);
    }
}

} // verus!
