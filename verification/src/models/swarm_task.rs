//! SubTasks of a swarm execution: status, scheduling metadata and progress.

use vstd::prelude::*;
use crate::text::same_text;

verus! {

/// Lifecycle state of one SubTask.
#[derive(Debug, Clone, Copy, PartialEq, Eq, Structural)]
pub enum SwarmTaskStatus {
    Pending,
    Blocked,
    Assigned,
    Running,
    Completed,
    Failed,
    Skipped,
}

impl Default for SwarmTaskStatus {
    fn default() -> (s: Self)
        ensures
            s == SwarmTaskStatus::Pending,
    {
        SwarmTaskStatus::Pending
    }
}

impl SwarmTaskStatus {
    /// The stable lowercase wire value of the status.
    pub open spec fn spec_as_str(self) -> Seq<char> {
        match self {
            SwarmTaskStatus::Pending => "pending"@,
            SwarmTaskStatus::Blocked => "blocked"@,
            SwarmTaskStatus::Assigned => "assigned"@,
            SwarmTaskStatus::Running => "running"@,
            SwarmTaskStatus::Completed => "completed"@,
            SwarmTaskStatus::Failed => "failed"@,
            SwarmTaskStatus::Skipped => "skipped"@,
        }
    }

    pub fn as_str(&self) -> (s: &'static str)
        ensures
            s@ == self.spec_as_str(),
    {
        match self {
            SwarmTaskStatus::Pending => "pending",
            SwarmTaskStatus::Blocked => "blocked",
            SwarmTaskStatus::Assigned => "assigned",
            SwarmTaskStatus::Running => "running",
            SwarmTaskStatus::Completed => "completed",
            SwarmTaskStatus::Failed => "failed",
            SwarmTaskStatus::Skipped => "skipped",
        }
    }

    /// Reads a status from its wire value; `None` for any other text.
    pub fn from_wire(text: &str) -> (r: Option<Self>)
        ensures
            r matches Some(s) ==> s.spec_as_str() == text@,
            r is None ==> forall|s: Self| s.spec_as_str() != text@,
    {
        if same_text(text, SwarmTaskStatus::Pending.as_str()) {
            Some(SwarmTaskStatus::Pending)
        } else if same_text(text, SwarmTaskStatus::Blocked.as_str()) {
            Some(SwarmTaskStatus::Blocked)
        } else if same_text(text, SwarmTaskStatus::Assigned.as_str()) {
            Some(SwarmTaskStatus::Assigned)
        } else if same_text(text, SwarmTaskStatus::Running.as_str()) {
            Some(SwarmTaskStatus::Running)
        } else if same_text(text, SwarmTaskStatus::Completed.as_str()) {
            Some(SwarmTaskStatus::Completed)
        } else if same_text(text, SwarmTaskStatus::Failed.as_str()) {
            Some(SwarmTaskStatus::Failed)
        } else if same_text(text, SwarmTaskStatus::Skipped.as_str()) {
            Some(SwarmTaskStatus::Skipped)
        } else {
            None
        }
    }

    /// A status that occupies one of the execution's worker slots.
    pub open spec fn spec_is_active(self) -> bool {
        self == SwarmTaskStatus::Running || self == SwarmTaskStatus::Assigned
    }

    /// A status from which the SubTask can never be dispatched again in this round.
    pub open spec fn spec_is_settled(self) -> bool {
        self == SwarmTaskStatus::Completed || self == SwarmTaskStatus::Skipped
    }

    pub fn is_active(&self) -> (b: bool)
        ensures
            b == self.spec_is_active(),
    {
        *self == SwarmTaskStatus::Running || *self == SwarmTaskStatus::Assigned
    }

    pub fn is_settled(&self) -> (b: bool)
        ensures
            b == self.spec_is_settled(),
    {
        *self == SwarmTaskStatus::Completed || *self == SwarmTaskStatus::Skipped
    }
}

/// One SubTask: a child task with its scheduling metadata.
#[derive(Debug)]
pub struct SwarmTask {
    pub id: u128,
    pub swarm_execution_id: u128,
    pub task_id: u128,
    pub workspace_id: Option<u128>,
    pub sequence_order: i32,
    pub depends_on: Vec<u128>,
    pub required_skills: Vec<String>,
    pub assigned_agent_profile_id: Option<u128>,
    pub status: SwarmTaskStatus,
    pub branch_name: Option<String>,
    pub complexity: i32,
    pub duration_seconds: Option<i32>,
    pub error_message: Option<String>,
    pub retry_count: i32,
    pub max_retries: i32,
    pub started_at: Option<i64>,
    pub completed_at: Option<i64>,
    pub created_at: i64,
    pub updated_at: i64,
}

/// Mathematical view of a [`SwarmTask`].
pub ghost struct SwarmTaskView {
    pub id: u128,
    pub swarm_execution_id: u128,
    pub task_id: u128,
    pub workspace_id: Option<u128>,
    pub sequence_order: i32,
    pub depends_on: Seq<u128>,
    pub required_skills: Seq<Seq<char>>,
    pub assigned_agent_profile_id: Option<u128>,
    pub status: SwarmTaskStatus,
    pub branch_name: Option<Seq<char>>,
    pub complexity: i32,
    pub duration_seconds: Option<i32>,
    pub error_message: Option<Seq<char>>,
    pub retry_count: i32,
    pub max_retries: i32,
    pub started_at: Option<i64>,
    pub completed_at: Option<i64>,
    pub created_at: i64,
    pub updated_at: i64,
}

impl View for SwarmTask {
    type V = SwarmTaskView;

    open spec fn view(&self) -> SwarmTaskView {
        SwarmTaskView {
            id: self.id,
            swarm_execution_id: self.swarm_execution_id,
            task_id: self.task_id,
            workspace_id: self.workspace_id,
            sequence_order: self.sequence_order,
            depends_on: self.depends_on@,
            required_skills: self.required_skills.deep_view(),
            assigned_agent_profile_id: self.assigned_agent_profile_id,
            status: self.status,
            branch_name: self.branch_name.deep_view(),
            complexity: self.complexity,
            duration_seconds: self.duration_seconds,
            error_message: self.error_message.deep_view(),
            retry_count: self.retry_count,
            max_retries: self.max_retries,
            started_at: self.started_at,
            completed_at: self.completed_at,
            created_at: self.created_at,
            updated_at: self.updated_at,
        }
    }
}

impl DeepView for SwarmTask {
    type V = SwarmTaskView;

    open spec fn deep_view(&self) -> SwarmTaskView {
        self@
    }
}

/// Counts of an Execution's SubTasks by status.
#[derive(Debug, Clone, Copy, PartialEq, Eq, Structural)]
pub struct SwarmProgress {
    pub total: i32,
    pub completed: i32,
    pub running: i32,
    pub failed: i32,
    pub pending: i32,
    pub skipped: i32,
}

/// Whole seconds in a span of milliseconds, rounded towards zero.
pub open spec fn spec_whole_seconds(ms: int) -> int {
    if ms >= 0 {
        ms / 1000
    } else {
        -((-ms) / 1000)
    }
}

/// The seconds between two instants given in milliseconds, where that number fits the record.
pub open spec fn spec_elapsed_seconds(started: i64, now: i64) -> Option<i32> {
    let d = spec_whole_seconds(now - started);
    if i32::MIN <= d <= i32::MAX {
        Some(d as i32)
    } else {
        None
    }
}

/// Computes the seconds between two instants given in milliseconds.
pub fn elapsed_seconds(started: i64, now: i64) -> (d: Option<i32>)
    ensures
        d == spec_elapsed_seconds(started, now),
{
    let span: i128 = now as i128 - started as i128;
    let seconds: i128 = if span >= 0 {
        span / 1000
    } else {
        -((-span) / 1000)
    };
    if -2147483648 <= seconds && seconds <= 2147483647 {
        Some(seconds as i32)
    } else {
        None
    }
}

/// A status that no later event changes in this round.
pub open spec fn spec_is_terminal(status: SwarmTaskStatus) -> bool {
    status == SwarmTaskStatus::Completed || status == SwarmTaskStatus::Skipped || status
        == SwarmTaskStatus::Failed
}

/// A SubTask as the tick leaves it when it dispatches it.
pub open spec fn spec_assigned(
    t: SwarmTaskView,
    agent: u128,
    branch: Seq<char>,
    now: i64,
) -> SwarmTaskView {
    SwarmTaskView {
        status: SwarmTaskStatus::Assigned,
        assigned_agent_profile_id: Some(agent),
        branch_name: Some(branch),
        updated_at: now,
        ..t
    }
}

/// A SubTask as it stands once its workspace exists and its agent runs.
pub open spec fn spec_running(t: SwarmTaskView, workspace_id: u128, now: i64) -> SwarmTaskView {
    SwarmTaskView {
        status: SwarmTaskStatus::Running,
        workspace_id: Some(workspace_id),
        started_at: Some(now),
        updated_at: now,
        ..t
    }
}

/// A SubTask as a completion event leaves it.
pub open spec fn spec_completed(t: SwarmTaskView, now: i64) -> SwarmTaskView {
    SwarmTaskView {
        status: SwarmTaskStatus::Completed,
        completed_at: Some(now),
        duration_seconds: match t.started_at {
            Some(started) => spec_elapsed_seconds(started, now),
            None => None,
        },
        updated_at: now,
        ..t
    }
}

/// A SubTask as a retry leaves it: pending again, with no worker, no
/// workspace, no branch and no timestamps, and one more retry counted.
pub open spec fn spec_retried(t: SwarmTaskView, now: i64) -> SwarmTaskView {
    SwarmTaskView {
        status: SwarmTaskStatus::Pending,
        workspace_id: None,
        branch_name: None,
        assigned_agent_profile_id: None,
        started_at: None,
        completed_at: None,
        duration_seconds: None,
        error_message: None,
        retry_count: (t.retry_count + 1) as i32,
        updated_at: now,
        ..t
    }
}

/// A SubTask as a failure with no retry left leaves it.
pub open spec fn spec_failed(t: SwarmTaskView, error: Seq<char>, now: i64) -> SwarmTaskView {
    SwarmTaskView {
        status: SwarmTaskStatus::Failed,
        error_message: Some(error),
        completed_at: Some(now),
        updated_at: now,
        ..t
    }
}

/// A SubTask as a skip leaves it.
pub open spec fn spec_skipped(t: SwarmTaskView, now: i64) -> SwarmTaskView {
    SwarmTaskView { status: SwarmTaskStatus::Skipped, updated_at: now, ..t }
}

impl SwarmTask {
    /// Hands the SubTask to a worker and fixes its branch.
    pub fn assign_agent(&mut self, agent_profile_id: u128, branch_name: String, now: i64)
        ensures
            final(self)@ == spec_assigned(old(self)@, agent_profile_id, branch_name@, now),
    {
        self.status = SwarmTaskStatus::Assigned;
        self.assigned_agent_profile_id = Some(agent_profile_id);
        self.branch_name = Some(branch_name);
        self.updated_at = now;
    }

    /// Records the workspace and marks the SubTask running.
    pub fn start(&mut self, workspace_id: u128, now: i64)
        ensures
            final(self)@ == spec_running(old(self)@, workspace_id, now),
    {
        self.status = SwarmTaskStatus::Running;
        self.workspace_id = Some(workspace_id);
        self.started_at = Some(now);
        self.updated_at = now;
    }

    /// Marks the SubTask completed and computes how long it ran.
    pub fn complete(&mut self, now: i64)
        ensures
            final(self)@ == spec_completed(old(self)@, now),
    {
        let duration = match self.started_at {
            Some(started) => elapsed_seconds(started, now),
            None => None,
        };
        self.status = SwarmTaskStatus::Completed;
        self.completed_at = Some(now);
        self.duration_seconds = duration;
        self.updated_at = now;
    }

    /// Marks the SubTask failed for good, with the error that ended it.
    pub fn fail(&mut self, error: String, now: i64)
        ensures
            final(self)@ == spec_failed(old(self)@, error@, now),
    {
        self.status = SwarmTaskStatus::Failed;
        self.error_message = Some(error);
        self.completed_at = Some(now);
        self.updated_at = now;
    }

    /// Whether a failure of the SubTask is answered with a retry.
    pub open spec fn spec_can_retry(&self) -> bool {
        self.retry_count < self.max_retries
    }

    /// Puts the SubTask back to pending if retries are left, and says whether it did.
    pub fn retry(&mut self, now: i64) -> (retried: bool)
        ensures
            retried == old(self).spec_can_retry(),
            retried ==> final(self)@ == spec_retried(old(self)@, now),
            !retried ==> final(self)@ == old(self)@,
    {
        if self.retry_count >= self.max_retries {
            return false;
        }
        self.status = SwarmTaskStatus::Pending;
        self.workspace_id = None;
        self.branch_name = None;
        self.assigned_agent_profile_id = None;
        self.started_at = None;
        self.completed_at = None;
        self.duration_seconds = None;
        self.error_message = None;
        self.retry_count = self.retry_count + 1;
        self.updated_at = now;
        true
    }

    /// Marks the SubTask skipped.
    pub fn skip(&mut self, now: i64)
        ensures
            final(self)@ == spec_skipped(old(self)@, now),
    {
        self.status = SwarmTaskStatus::Skipped;
        self.updated_at = now;
    }
}

/// What a caller supplies to create a SubTask.
#[derive(Debug)]
pub struct CreateSwarmTask {
    pub swarm_execution_id: u128,
    pub task_id: u128,
    pub sequence_order: i32,
    pub depends_on: Option<Vec<u128>>,
    pub required_skills: Option<Vec<String>>,
    pub complexity: Option<i32>,
    pub max_retries: Option<i32>,
}

/// Mathematical view of a [`CreateSwarmTask`].
pub ghost struct CreateSwarmTaskView {
    pub swarm_execution_id: u128,
    pub task_id: u128,
    pub sequence_order: i32,
    pub depends_on: Option<Seq<u128>>,
    pub required_skills: Option<Seq<Seq<char>>>,
    pub complexity: Option<i32>,
    pub max_retries: Option<i32>,
}

impl View for CreateSwarmTask {
    type V = CreateSwarmTaskView;

    open spec fn view(&self) -> CreateSwarmTaskView {
        CreateSwarmTaskView {
            swarm_execution_id: self.swarm_execution_id,
            task_id: self.task_id,
            sequence_order: self.sequence_order,
            depends_on: match self.depends_on {
                Some(v) => Some(v@),
                None => None,
            },
            required_skills: self.required_skills.deep_view(),
            complexity: self.complexity,
            max_retries: self.max_retries,
        }
    }
}

/// The complexity a SubTask gets when the caller names none.
pub const DEFAULT_COMPLEXITY: i32 = 3;

/// The number of retries a SubTask gets when the caller names none.
pub const DEFAULT_MAX_RETRIES: i32 = 2;

/// The SubTask that `data` asks for, as it is created.
pub open spec fn spec_created(data: CreateSwarmTaskView, id: u128, now: i64) -> SwarmTaskView {
    SwarmTaskView {
        id: id,
        swarm_execution_id: data.swarm_execution_id,
        task_id: data.task_id,
        workspace_id: None,
        sequence_order: data.sequence_order,
        depends_on: match data.depends_on {
            Some(d) => d,
            None => Seq::empty(),
        },
        required_skills: match data.required_skills {
            Some(r) => r,
            None => Seq::empty(),
        },
        assigned_agent_profile_id: None,
        status: SwarmTaskStatus::Pending,
        branch_name: None,
        complexity: match data.complexity {
            Some(c) => c,
            None => DEFAULT_COMPLEXITY,
        },
        duration_seconds: None,
        error_message: None,
        retry_count: 0,
        max_retries: match data.max_retries {
            Some(m) => m,
            None => DEFAULT_MAX_RETRIES,
        },
        started_at: None,
        completed_at: None,
        created_at: now,
        updated_at: now,
    }
}

impl SwarmTask {
    /// Builds the record of a new SubTask: pending, never retried, with no worker and no workspace.
    pub fn create(data: CreateSwarmTask, id: u128, now: i64) -> (t: Self)
        ensures
            t@ == spec_created(data@, id, now),
    {
        let depends_on: Vec<u128> = match data.depends_on {
            Some(d) => d,
            None => Vec::new(),
        };
        let required_skills: Vec<String> = match data.required_skills {
            Some(r) => r,
            None => {
                let r: Vec<String> = Vec::new();
                assert(r.deep_view() =~= Seq::empty());
                r
            },
        };
        let complexity: i32 = match data.complexity {
            Some(c) => c,
            None => DEFAULT_COMPLEXITY,
        };
        let max_retries: i32 = match data.max_retries {
            Some(m) => m,
            None => DEFAULT_MAX_RETRIES,
        };
        SwarmTask {
            id,
            swarm_execution_id: data.swarm_execution_id,
            task_id: data.task_id,
            workspace_id: None,
            sequence_order: data.sequence_order,
            depends_on,
            required_skills,
            assigned_agent_profile_id: None,
            status: SwarmTaskStatus::Pending,
            branch_name: None,
            complexity,
            duration_seconds: None,
            error_message: None,
            retry_count: 0,
            max_retries,
            started_at: None,
            completed_at: None,
            created_at: now,
            updated_at: now,
        }
    }

    /// The skills that the SubTask requires.
    pub fn get_required_skills(&self) -> (r: Vec<String>)
        ensures
            r.deep_view() == self@.required_skills,
    {
        clone_strings(&self.required_skills)
    }

    /// The SubTasks that the SubTask depends on.
    pub fn get_dependencies(&self) -> (r: Vec<u128>)
        ensures
            r@ == self@.depends_on,
    {
        let mut r: Vec<u128> = Vec::new();
        let mut i: usize = 0;
        while i < self.depends_on.len()
            invariant
                i <= self.depends_on.len(),
                r@ == self.depends_on@.take(i as int),
            decreases self.depends_on.len() - i,
        {
            r.push(self.depends_on[i]);
            assert(r@ =~= self.depends_on@.take(i + 1));
            i += 1;
        }
        assert(r@ =~= self.depends_on@);
        r
    }
}

/// A copy of a list of strings.
pub fn clone_strings(list: &Vec<String>) -> (r: Vec<String>)
    ensures
        r.deep_view() == list.deep_view(),
{
    let mut r: Vec<String> = Vec::new();
    let mut i: usize = 0;
    assert(r.deep_view() =~= list.deep_view().take(0));
    while i < list.len()
        invariant
            i <= list.len(),
            r.deep_view() == list.deep_view().take(i as int),
        decreases list.len() - i,
    {
        let ghost before = r.deep_view();
        let copy = list[i].clone();
        r.push(copy);
        assert(r.deep_view() =~= before.push(copy@));
        assert(r.deep_view() =~= list.deep_view().take(i + 1));
        i += 1;
    }
    assert(r.deep_view() =~= list.deep_view());
    r
}

} // verus!
