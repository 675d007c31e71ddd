//! The Execution record: one Epic's run through planning, execution and review.

use vstd::prelude::*;
use crate::text::same_text;
use crate::quorum::spec_consensus_threshold;
use crate::quorum::consensus_threshold;

verus! {

/// Phase of an Execution.
#[derive(Debug, Clone, Copy, PartialEq, Eq, Structural)]
pub enum SwarmExecutionStatus {
    Planning,
    Planned,
    Executing,
    Reviewing,
    Merging,
    Completed,
    Failed,
    Cancelled,
}

impl Default for SwarmExecutionStatus {
    fn default() -> (s: Self)
        ensures
            s == SwarmExecutionStatus::Planning,
    {
        SwarmExecutionStatus::Planning
    }
}

impl SwarmExecutionStatus {
    /// The stable lowercase wire value of the status.
    pub open spec fn spec_as_str(self) -> Seq<char> {
        match self {
            SwarmExecutionStatus::Planning => "planning"@,
            SwarmExecutionStatus::Planned => "planned"@,
            SwarmExecutionStatus::Executing => "executing"@,
            SwarmExecutionStatus::Reviewing => "reviewing"@,
            SwarmExecutionStatus::Merging => "merging"@,
            SwarmExecutionStatus::Completed => "completed"@,
            SwarmExecutionStatus::Failed => "failed"@,
            SwarmExecutionStatus::Cancelled => "cancelled"@,
        }
    }

    pub fn as_str(&self) -> (s: &'static str)
        ensures
            s@ == self.spec_as_str(),
    {
        match self {
            SwarmExecutionStatus::Planning => "planning",
            SwarmExecutionStatus::Planned => "planned",
            SwarmExecutionStatus::Executing => "executing",
            SwarmExecutionStatus::Reviewing => "reviewing",
            SwarmExecutionStatus::Merging => "merging",
            SwarmExecutionStatus::Completed => "completed",
            SwarmExecutionStatus::Failed => "failed",
            SwarmExecutionStatus::Cancelled => "cancelled",
        }
    }

    /// Reads a status from its wire value; `None` for any other text.
    pub fn from_wire(text: &str) -> (r: Option<Self>)
        ensures
            r matches Some(s) ==> s.spec_as_str() == text@,
            r is None ==> forall|s: Self| s.spec_as_str() != text@,
    {
        if same_text(text, SwarmExecutionStatus::Planning.as_str()) {
            Some(SwarmExecutionStatus::Planning)
        } else if same_text(text, SwarmExecutionStatus::Planned.as_str()) {
            Some(SwarmExecutionStatus::Planned)
        } else if same_text(text, SwarmExecutionStatus::Executing.as_str()) {
            Some(SwarmExecutionStatus::Executing)
        } else if same_text(text, SwarmExecutionStatus::Reviewing.as_str()) {
            Some(SwarmExecutionStatus::Reviewing)
        } else if same_text(text, SwarmExecutionStatus::Merging.as_str()) {
            Some(SwarmExecutionStatus::Merging)
        } else if same_text(text, SwarmExecutionStatus::Completed.as_str()) {
            Some(SwarmExecutionStatus::Completed)
        } else if same_text(text, SwarmExecutionStatus::Failed.as_str()) {
            Some(SwarmExecutionStatus::Failed)
        } else if same_text(text, SwarmExecutionStatus::Cancelled.as_str()) {
            Some(SwarmExecutionStatus::Cancelled)
        } else {
            None
        }
    }

    /// A phase in which the Execution still has work ahead of it.
    pub open spec fn spec_is_live(self) -> bool {
        self == SwarmExecutionStatus::Planning || self == SwarmExecutionStatus::Planned
            || self == SwarmExecutionStatus::Executing || self == SwarmExecutionStatus::Reviewing
            || self == SwarmExecutionStatus::Merging
    }

    pub fn is_live(&self) -> (b: bool)
        ensures
            b == self.spec_is_live(),
    {
        match self {
            SwarmExecutionStatus::Completed => false,
            SwarmExecutionStatus::Failed => false,
            SwarmExecutionStatus::Cancelled => false,
            _ => true,
        }
    }
}

/// The coordinator record of one Epic.
#[derive(Debug)]
pub struct SwarmExecution {
    pub id: u128,
    pub epic_task_id: u128,
    pub epic_workspace_id: Option<u128>,
    pub status: SwarmExecutionStatus,
    pub planner_output: Option<String>,
    pub planner_profile_id: Option<u128>,
    pub reviewer_count: i32,
    pub consensus_threshold: i32,
    pub consensus_approvals: i32,
    pub consensus_rejections: i32,
    pub max_parallel_workers: i32,
    pub error_message: Option<String>,
    pub planned_at: Option<i64>,
    pub execution_started_at: Option<i64>,
    pub review_started_at: Option<i64>,
    pub merge_started_at: Option<i64>,
    pub created_at: i64,
    pub completed_at: Option<i64>,
    pub updated_at: i64,
}

/// Mathematical view of a [`SwarmExecution`].
pub ghost struct SwarmExecutionView {
    pub id: u128,
    pub epic_task_id: u128,
    pub epic_workspace_id: Option<u128>,
    pub status: SwarmExecutionStatus,
    pub planner_output: Option<Seq<char>>,
    pub planner_profile_id: Option<u128>,
    pub reviewer_count: i32,
    pub consensus_threshold: i32,
    pub consensus_approvals: i32,
    pub consensus_rejections: i32,
    pub max_parallel_workers: i32,
    pub error_message: Option<Seq<char>>,
    pub planned_at: Option<i64>,
    pub execution_started_at: Option<i64>,
    pub review_started_at: Option<i64>,
    pub merge_started_at: Option<i64>,
    pub created_at: i64,
    pub completed_at: Option<i64>,
    pub updated_at: i64,
}

impl View for SwarmExecution {
    type V = SwarmExecutionView;

    open spec fn view(&self) -> SwarmExecutionView {
        SwarmExecutionView {
            id: self.id,
            epic_task_id: self.epic_task_id,
            epic_workspace_id: self.epic_workspace_id,
            status: self.status,
            planner_output: self.planner_output.deep_view(),
            planner_profile_id: self.planner_profile_id,
            reviewer_count: self.reviewer_count,
            consensus_threshold: self.consensus_threshold,
            consensus_approvals: self.consensus_approvals,
            consensus_rejections: self.consensus_rejections,
            max_parallel_workers: self.max_parallel_workers,
            error_message: self.error_message.deep_view(),
            planned_at: self.planned_at,
            execution_started_at: self.execution_started_at,
            review_started_at: self.review_started_at,
            merge_started_at: self.merge_started_at,
            created_at: self.created_at,
            completed_at: self.completed_at,
            updated_at: self.updated_at,
        }
    }
}

/// What a caller supplies to create an Execution.
#[derive(Debug, Clone, Copy)]
pub struct CreateSwarmExecution {
    pub epic_task_id: u128,
    pub epic_workspace_id: Option<u128>,
    pub planner_profile_id: Option<u128>,
    pub reviewer_count: Option<i32>,
    pub max_parallel_workers: Option<i32>,
}

/// A partial update of an Execution.
#[derive(Debug)]
pub struct UpdateSwarmExecution {
    pub status: Option<SwarmExecutionStatus>,
    pub planner_output: Option<String>,
    pub error_message: Option<String>,
    pub consensus_approvals: Option<i32>,
    pub consensus_rejections: Option<i32>,
}

/// The voter count an Execution gets when the caller names none.
pub const DEFAULT_REVIEWER_COUNT: i32 = 3;

/// The worker capacity an Execution gets when the caller names none.
pub const DEFAULT_MAX_PARALLEL_WORKERS: i32 = 3;

/// The status and phase timestamps of `e` after a transition to `status` at time `now`.
pub open spec fn spec_with_status(
    e: SwarmExecutionView,
    status: SwarmExecutionStatus,
    now: i64,
) -> SwarmExecutionView {
    let base = SwarmExecutionView { status: status, updated_at: now, ..e };
    match status {
        SwarmExecutionStatus::Planned => SwarmExecutionView { planned_at: Some(now), ..base },
        SwarmExecutionStatus::Executing => SwarmExecutionView {
            execution_started_at: Some(now),
            ..base
        },
        SwarmExecutionStatus::Reviewing => SwarmExecutionView {
            review_started_at: Some(now),
            ..base
        },
        SwarmExecutionStatus::Merging => SwarmExecutionView { merge_started_at: Some(now), ..base },
        SwarmExecutionStatus::Completed => SwarmExecutionView { completed_at: Some(now), ..base },
        SwarmExecutionStatus::Failed => SwarmExecutionView { completed_at: Some(now), ..base },
        SwarmExecutionStatus::Cancelled => SwarmExecutionView { completed_at: Some(now), ..base },
        SwarmExecutionStatus::Planning => base,
    }
}

impl SwarmExecutionView {
    /// The quorum rule fixed at creation: the threshold is `2f + 1` for the
    /// Execution's voter count.
    pub open spec fn wf(self) -> bool {
        &&& self.reviewer_count >= 1
        &&& self.consensus_threshold == spec_consensus_threshold(self.reviewer_count as int)
        &&& self.consensus_approvals >= 0
        &&& self.consensus_rejections >= 0
    }
}

impl SwarmExecution {
    /// Whether `self` satisfies the quorum rule fixed at creation.
    pub open spec fn wf(&self) -> bool {
        self@.wf()
    }

    /// Builds the record of a new Execution. The approval threshold is fixed
    /// here, from the voter count, and never changes afterwards.
    pub fn create(data: &CreateSwarmExecution, id: u128, now: i64) -> (e: Self)
        requires
            data.reviewer_count matches Some(n) ==> n >= 1,
        ensures
            e.wf(),
            e.id == id,
            e.epic_task_id == data.epic_task_id,
            e.epic_workspace_id == data.epic_workspace_id,
            e.planner_profile_id == data.planner_profile_id,
            e.status == SwarmExecutionStatus::Planning,
            e.reviewer_count == (match data.reviewer_count {
                Some(n) => n,
                None => DEFAULT_REVIEWER_COUNT,
            }),
            e.consensus_threshold == spec_consensus_threshold(e.reviewer_count as int),
            e.max_parallel_workers == (match data.max_parallel_workers {
                Some(n) => n,
                None => DEFAULT_MAX_PARALLEL_WORKERS,
            }),
            e.consensus_approvals == 0,
            e.consensus_rejections == 0,
            e.planner_output is None,
            e.error_message is None,
            e.planned_at is None,
            e.execution_started_at is None,
            e.review_started_at is None,
            e.merge_started_at is None,
            e.completed_at is None,
            e.created_at == now,
            e.updated_at == now,
    {
        let reviewer_count: i32 = match data.reviewer_count {
            Some(n) => n,
            None => DEFAULT_REVIEWER_COUNT,
        };
        let max_parallel: i32 = match data.max_parallel_workers {
            Some(n) => n,
            None => DEFAULT_MAX_PARALLEL_WORKERS,
        };
        SwarmExecution {
            id,
            epic_task_id: data.epic_task_id,
            epic_workspace_id: data.epic_workspace_id,
            status: SwarmExecutionStatus::Planning,
            planner_output: None,
            planner_profile_id: data.planner_profile_id,
            reviewer_count,
            consensus_threshold: consensus_threshold(reviewer_count),
            consensus_approvals: 0,
            consensus_rejections: 0,
            max_parallel_workers: max_parallel,
            error_message: None,
            planned_at: None,
            execution_started_at: None,
            review_started_at: None,
            merge_started_at: None,
            created_at: now,
            completed_at: None,
            updated_at: now,
        }
    }

    /// Moves the Execution to `status` and stamps the timestamp of that phase.
    pub fn update_status(&mut self, status: SwarmExecutionStatus, now: i64)
        ensures
            final(self)@ == spec_with_status(old(self)@, status, now),
    {
        self.status = status;
        self.updated_at = now;
        match status {
            SwarmExecutionStatus::Planned => {
                self.planned_at = Some(now);
            },
            SwarmExecutionStatus::Executing => {
                self.execution_started_at = Some(now);
            },
            SwarmExecutionStatus::Reviewing => {
                self.review_started_at = Some(now);
            },
            SwarmExecutionStatus::Merging => {
                self.merge_started_at = Some(now);
            },
            SwarmExecutionStatus::Completed | SwarmExecutionStatus::Failed
            | SwarmExecutionStatus::Cancelled => {
                self.completed_at = Some(now);
            },
            SwarmExecutionStatus::Planning => {},
        }
    }

    /// Records the planner's serialized plan.
    pub fn set_planner_output(&mut self, output: String, now: i64)
        ensures
            final(self)@ == (SwarmExecutionView {
                planner_output: Some(output@),
                updated_at: now,
                ..old(self)@
            }),
    {
        self.planner_output = Some(output);
        self.updated_at = now;
    }

    /// Records a fatal error: the message is stored and the Execution fails.
    pub fn set_error(&mut self, error: String, now: i64)
        ensures
            final(self)@ == (SwarmExecutionView {
                error_message: Some(error@),
                status: SwarmExecutionStatus::Failed,
                completed_at: Some(now),
                updated_at: now,
                ..old(self)@
            }),
    {
        self.error_message = Some(error);
        self.status = SwarmExecutionStatus::Failed;
        self.completed_at = Some(now);
        self.updated_at = now;
    }

    /// Counts one more approval and returns the new count.
    pub fn increment_approval(&mut self, now: i64) -> (count: i32)
        requires
            old(self).consensus_approvals < i32::MAX,
        ensures
            count == old(self).consensus_approvals + 1,
            final(self)@ == (SwarmExecutionView {
                consensus_approvals: count,
                updated_at: now,
                ..old(self)@
            }),
    {
        self.consensus_approvals = self.consensus_approvals + 1;
        self.updated_at = now;
        self.consensus_approvals
    }

    /// Counts one more rejection and returns the new count.
    pub fn increment_rejection(&mut self, now: i64) -> (count: i32)
        requires
            old(self).consensus_rejections < i32::MAX,
        ensures
            count == old(self).consensus_rejections + 1,
            final(self)@ == (SwarmExecutionView {
                consensus_rejections: count,
                updated_at: now,
                ..old(self)@
            }),
    {
        self.consensus_rejections = self.consensus_rejections + 1;
        self.updated_at = now;
        self.consensus_rejections
    }

    /// Approvals have reached the threshold.
    pub open spec fn spec_has_consensus(&self) -> bool {
        self.consensus_approvals >= self.consensus_threshold
    }

    /// So many voters rejected that the approvals can no longer reach the threshold.
    pub open spec fn spec_consensus_failed(&self) -> bool {
        self.consensus_rejections > self.reviewer_count - self.consensus_threshold
    }

    pub fn has_consensus(&self) -> (b: bool)
        ensures
            b == self.spec_has_consensus(),
    {
        self.consensus_approvals >= self.consensus_threshold
    }

    pub fn consensus_failed(&self) -> (b: bool)
        ensures
            b == self.spec_consensus_failed(),
    {
        let n: i64 = self.reviewer_count as i64;
        let t: i64 = self.consensus_threshold as i64;
        (self.consensus_rejections as i64) > n - t
    }
}

/// One subtask of a plan. Its dependencies are positions in the plan,
/// each smaller than its own.
#[derive(Debug)]
pub struct PlannedSubtask {
    pub title: String,
    pub description: String,
    pub required_skills: Vec<String>,
    pub depends_on: Vec<i32>,
    pub complexity: i32,
    pub estimated_duration: Option<i32>,
}

/// Mathematical view of a [`PlannedSubtask`].
pub ghost struct PlannedSubtaskView {
    pub title: Seq<char>,
    pub description: Seq<char>,
    pub required_skills: Seq<Seq<char>>,
    pub depends_on: Seq<i32>,
    pub complexity: i32,
    pub estimated_duration: Option<i32>,
}

impl View for PlannedSubtask {
    type V = PlannedSubtaskView;

    open spec fn view(&self) -> PlannedSubtaskView {
        PlannedSubtaskView {
            title: self.title@,
            description: self.description@,
            required_skills: self.required_skills.deep_view(),
            depends_on: self.depends_on@,
            complexity: self.complexity,
            estimated_duration: self.estimated_duration,
        }
    }
}

impl DeepView for PlannedSubtask {
    type V = PlannedSubtaskView;

    open spec fn deep_view(&self) -> PlannedSubtaskView {
        self@
    }
}

/// A plan: the decomposition of an Epic into subtasks.
#[derive(Debug)]
pub struct SwarmPlanOutput {
    pub complexity: String,
    pub requires_swarm: bool,
    pub subtasks: Vec<PlannedSubtask>,
    pub estimated_total_duration: Option<i32>,
    pub reasoning: String,
}

/// Mathematical view of a [`SwarmPlanOutput`].
pub ghost struct SwarmPlanOutputView {
    pub complexity: Seq<char>,
    pub requires_swarm: bool,
    pub subtasks: Seq<PlannedSubtaskView>,
    pub estimated_total_duration: Option<i32>,
    pub reasoning: Seq<char>,
}

impl View for SwarmPlanOutput {
    type V = SwarmPlanOutputView;

    open spec fn view(&self) -> SwarmPlanOutputView {
        SwarmPlanOutputView {
            complexity: self.complexity@,
            requires_swarm: self.requires_swarm,
            subtasks: self.subtasks.deep_view(),
            estimated_total_duration: self.estimated_total_duration,
            reasoning: self.reasoning@,
        }
    }
}

} // verus!
