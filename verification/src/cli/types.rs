//! The values that the client exchanges with the server.

use vstd::prelude::*;
use crate::text::same_text;

verus! {

/// What a caller supplies to create a project.
#[derive(Debug)]
pub struct CreateProject {
    pub name: String,
    pub repositories: Vec<CreateProjectRepo>,
}

/// A repository of a project to create.
#[derive(Debug)]
pub struct CreateProjectRepo {
    pub display_name: String,
    pub git_repo_path: String,
}

/// Board status of a task, as the server names it.
#[derive(Debug, Clone, Copy, PartialEq, Eq, Structural)]
pub enum TaskStatus {
    Todo,
    Inprogress,
    Inreview,
    Done,
    Cancelled,
}

impl TaskStatus {
    /// The wire value of the status.
    pub open spec fn spec_as_str(self) -> Seq<char> {
        match self {
            TaskStatus::Todo => "todo"@,
            TaskStatus::Inprogress => "inprogress"@,
            TaskStatus::Inreview => "inreview"@,
            TaskStatus::Done => "done"@,
            TaskStatus::Cancelled => "cancelled"@,
        }
    }

    /// The name of the status as the board shows it.
    pub open spec fn spec_display_name(self) -> Seq<char> {
        match self {
            TaskStatus::Todo => "To Do"@,
            TaskStatus::Inprogress => "In Progress"@,
            TaskStatus::Inreview => "In Review"@,
            TaskStatus::Done => "Done"@,
            TaskStatus::Cancelled => "Cancelled"@,
        }
    }

    pub fn as_str(&self) -> (s: &'static str)
        ensures
            s@ == self.spec_as_str(),
    {
        match self {
            TaskStatus::Todo => "todo",
            TaskStatus::Inprogress => "inprogress",
            TaskStatus::Inreview => "inreview",
            TaskStatus::Done => "done",
            TaskStatus::Cancelled => "cancelled",
        }
    }

    /// Reads a status from its wire value; `None` for any other text.
    pub fn from_wire(text: &str) -> (r: Option<Self>)
        ensures
            r matches Some(s) ==> s.spec_as_str() == text@,
            r is None ==> forall|s: Self| s.spec_as_str() != text@,
    {
        if same_text(text, TaskStatus::Todo.as_str()) {
            Some(TaskStatus::Todo)
        } else if same_text(text, TaskStatus::Inprogress.as_str()) {
            Some(TaskStatus::Inprogress)
        } else if same_text(text, TaskStatus::Inreview.as_str()) {
            Some(TaskStatus::Inreview)
        } else if same_text(text, TaskStatus::Done.as_str()) {
            Some(TaskStatus::Done)
        } else if same_text(text, TaskStatus::Cancelled.as_str()) {
            Some(TaskStatus::Cancelled)
        } else {
            None
        }
    }

    pub fn display_name(&self) -> (s: &'static str)
        ensures
            s@ == self.spec_display_name(),
    {
        match self {
            TaskStatus::Todo => "To Do",
            TaskStatus::Inprogress => "In Progress",
            TaskStatus::Inreview => "In Review",
            TaskStatus::Done => "Done",
            TaskStatus::Cancelled => "Cancelled",
        }
    }
}

/// Estimated size of a task.
#[derive(Debug, Clone, Copy, PartialEq, Eq, Structural)]
pub enum TaskComplexity {
    Trivial,
    Simple,
    Moderate,
    Complex,
    Epic,
}

/// State of a process that runs for a session.
#[derive(Debug, Clone, Copy, PartialEq, Eq, Structural)]
pub enum ExecutionProcessStatus {
    Running,
    Completed,
    Failed,
    Killed,
}

/// The coding agents that can execute a task.
#[derive(Debug, Clone, Copy, PartialEq, Eq, Structural)]
pub enum BaseCodingAgent {
    ClaudeCode,
    Amp,
    Gemini,
    Codex,
    Opencode,
    CursorAgent,
    QwenCode,
    Copilot,
    Droid,
}

impl BaseCodingAgent {
    /// The wire value of the agent.
    pub open spec fn spec_as_str(self) -> Seq<char> {
        match self {
            BaseCodingAgent::ClaudeCode => "CLAUDE_CODE"@,
            BaseCodingAgent::Amp => "AMP"@,
            BaseCodingAgent::Gemini => "GEMINI"@,
            BaseCodingAgent::Codex => "CODEX"@,
            BaseCodingAgent::Opencode => "OPENCODE"@,
            BaseCodingAgent::CursorAgent => "CURSOR_AGENT"@,
            BaseCodingAgent::QwenCode => "QWEN_CODE"@,
            BaseCodingAgent::Copilot => "COPILOT"@,
            BaseCodingAgent::Droid => "DROID"@,
        }
    }

    pub fn as_str(&self) -> (s: &'static str)
        ensures
            s@ == self.spec_as_str(),
    {
        match self {
            BaseCodingAgent::ClaudeCode => "CLAUDE_CODE",
            BaseCodingAgent::Amp => "AMP",
            BaseCodingAgent::Gemini => "GEMINI",
            BaseCodingAgent::Codex => "CODEX",
            BaseCodingAgent::Opencode => "OPENCODE",
            BaseCodingAgent::CursorAgent => "CURSOR_AGENT",
            BaseCodingAgent::QwenCode => "QWEN_CODE",
            BaseCodingAgent::Copilot => "COPILOT",
            BaseCodingAgent::Droid => "DROID",
        }
    }
}

/// The executors that the client offers, in the order of its form.
pub open spec fn spec_available_executors() -> Seq<BaseCodingAgent> {
    seq![
        BaseCodingAgent::CursorAgent,
        BaseCodingAgent::ClaudeCode,
        BaseCodingAgent::Gemini,
        BaseCodingAgent::Codex,
        BaseCodingAgent::Opencode,
        BaseCodingAgent::QwenCode,
        BaseCodingAgent::Amp,
        BaseCodingAgent::Copilot,
        BaseCodingAgent::Droid,
    ]
}

/// The executors that the client offers, in the order of its form.
pub fn available_executors() -> (v: Vec<BaseCodingAgent>)
    ensures
        v@ == spec_available_executors(),
{
    let mut v: Vec<BaseCodingAgent> = Vec::new();
    v.push(BaseCodingAgent::CursorAgent);
    v.push(BaseCodingAgent::ClaudeCode);
    v.push(BaseCodingAgent::Gemini);
    v.push(BaseCodingAgent::Codex);
    v.push(BaseCodingAgent::Opencode);
    v.push(BaseCodingAgent::QwenCode);
    v.push(BaseCodingAgent::Amp);
    v.push(BaseCodingAgent::Copilot);
    v.push(BaseCodingAgent::Droid);
    assert(v@ =~= spec_available_executors());
    v
}

/// An executor and the variant of it to use.
#[derive(Debug)]
pub struct ExecutorProfileId {
    pub executor: BaseCodingAgent,
    pub variant: Option<String>,
}

/// A branch of a repository.
#[derive(Debug)]
pub struct GitBranch {
    pub name: String,
    pub is_current: bool,
    pub is_remote: bool,
    pub last_commit_date: i64,
}

/// A repository known to the server.
#[derive(Debug)]
pub struct Repo {
    pub id: u128,
    pub path: String,
    pub name: String,
    pub display_name: String,
    pub setup_script: Option<String>,
    pub cleanup_script: Option<String>,
    pub copy_files: Option<String>,
    pub parallel_setup_script: bool,
    pub dev_server_script: Option<String>,
    pub created_at: i64,
    pub updated_at: i64,
}

/// How a branch stands against its target.
#[derive(Debug)]
pub struct BranchStatus {
    pub commits_behind: Option<usize>,
    pub commits_ahead: Option<usize>,
    pub has_uncommitted_changes: Option<bool>,
    pub head_oid: Option<String>,
    pub uncommitted_count: Option<usize>,
    pub untracked_count: Option<usize>,
    pub target_branch_name: String,
    pub remote_commits_behind: Option<usize>,
    pub remote_commits_ahead: Option<usize>,
    pub is_rebase_in_progress: bool,
    pub conflict_op: Option<String>,
    pub conflicted_files: Vec<String>,
}

/// What happened to a file in a diff.
#[derive(Debug, Clone, Copy, PartialEq, Eq, Structural)]
pub enum DiffChangeKind {
    Added,
    Deleted,
    Modified,
    Renamed,
    Copied,
    PermissionChange,
}

/// The size of a diff.
#[derive(Debug, Clone, Copy, PartialEq, Eq, Structural)]
pub struct DiffStats {
    pub files_changed: usize,
    pub lines_added: usize,
    pub lines_removed: usize,
}

/// A task as the server reports it.
#[derive(Debug)]
pub struct Task {
    pub id: u128,
    pub project_id: u128,
    pub title: String,
    pub description: Option<String>,
    pub status: TaskStatus,
    pub parent_workspace_id: Option<u128>,
    pub is_epic: bool,
    pub complexity: Option<TaskComplexity>,
    pub metadata: Option<String>,
    pub created_at: String,
    pub updated_at: String,
}

/// A task together with the state of its attempts.
#[derive(Debug)]
pub struct TaskWithAttemptStatus {
    pub has_in_progress_attempt: bool,
    pub last_attempt_failed: bool,
    pub executor: String,
    pub task: Task,
}

} // verus!
