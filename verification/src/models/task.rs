//! Child tasks as the orchestrator sees them.

use vstd::prelude::*;
use vstd::string::*;
use crate::text::{is_whitespace, spec_is_whitespace, to_chars};

verus! {

/// Board status of a task.
#[derive(Debug, Clone, Copy, PartialEq, Eq, Structural)]
pub enum TaskStatus {
    Todo,
    InProgress,
    InReview,
    Done,
    Cancelled,
}

impl Default for TaskStatus {
    fn default() -> (s: Self)
        ensures
            s == TaskStatus::Todo,
    {
        TaskStatus::Todo
    }
}

/// Estimated size of a task.
#[derive(Debug, Clone, Copy, PartialEq, Eq, Structural)]
pub enum TaskComplexity {
    Trivial,
    Simple,
    Moderate,
    Complex,
    Epic,
}

impl Default for TaskComplexity {
    fn default() -> (c: Self)
        ensures
            c == TaskComplexity::Moderate,
    {
        TaskComplexity::Moderate
    }
}

impl TaskComplexity {
    /// The label under which a plan records the complexity.
    pub open spec fn spec_label(self) -> Seq<char> {
        match self {
            TaskComplexity::Trivial => "Trivial"@,
            TaskComplexity::Simple => "Simple"@,
            TaskComplexity::Moderate => "Moderate"@,
            TaskComplexity::Complex => "Complex"@,
            TaskComplexity::Epic => "Epic"@,
        }
    }

    pub fn label(&self) -> (s: &'static str)
        ensures
            s@ == self.spec_label(),
    {
        match self {
            TaskComplexity::Trivial => "Trivial",
            TaskComplexity::Simple => "Simple",
            TaskComplexity::Moderate => "Moderate",
            TaskComplexity::Complex => "Complex",
            TaskComplexity::Epic => "Epic",
        }
    }

    /// The complexity that a plan's 1 to 5 rating stands for; anything above 4, or below 1, is an epic.
    pub open spec fn spec_from_rating(rating: i32) -> TaskComplexity {
        if rating == 1 {
            TaskComplexity::Trivial
        } else if rating == 2 {
            TaskComplexity::Simple
        } else if rating == 3 {
            TaskComplexity::Moderate
        } else if rating == 4 {
            TaskComplexity::Complex
        } else {
            TaskComplexity::Epic
        }
    }

    pub fn from_rating(rating: i32) -> (c: TaskComplexity)
        ensures
            c == Self::spec_from_rating(rating),
    {
        if rating == 1 {
            TaskComplexity::Trivial
        } else if rating == 2 {
            TaskComplexity::Simple
        } else if rating == 3 {
            TaskComplexity::Moderate
        } else if rating == 4 {
            TaskComplexity::Complex
        } else {
            TaskComplexity::Epic
        }
    }
}

/// A task of the board.
#[derive(Debug)]
pub struct Task {
    pub id: u128,
    pub project_id: u128,
    pub title: String,
    pub description: Option<String>,
    pub status: TaskStatus,
    pub parent_workspace_id: Option<u128>,
    pub is_epic: bool,
    pub complexity: Option<TaskComplexity>,
    pub metadata: Option<String>,
    pub created_at: i64,
    pub updated_at: i64,
}

/// What a caller supplies to create a task.
#[derive(Debug)]
pub struct CreateTask {
    pub project_id: u128,
    pub title: String,
    pub description: Option<String>,
    pub status: Option<TaskStatus>,
    pub parent_workspace_id: Option<u128>,
    pub image_ids: Option<Vec<u128>>,
    pub is_epic: Option<bool>,
    pub complexity: Option<TaskComplexity>,
    pub metadata: Option<String>,
}

/// Mathematical view of a [`CreateTask`].
pub ghost struct CreateTaskView {
    pub project_id: u128,
    pub title: Seq<char>,
    pub description: Option<Seq<char>>,
    pub status: Option<TaskStatus>,
    pub parent_workspace_id: Option<u128>,
    pub image_ids: Option<Seq<u128>>,
    pub is_epic: Option<bool>,
    pub complexity: Option<TaskComplexity>,
    pub metadata: Option<Seq<char>>,
}

impl View for CreateTask {
    type V = CreateTaskView;

    open spec fn view(&self) -> CreateTaskView {
        CreateTaskView {
            project_id: self.project_id,
            title: self.title@,
            description: self.description.deep_view(),
            status: self.status,
            parent_workspace_id: self.parent_workspace_id,
            image_ids: match self.image_ids {
                Some(v) => Some(v@),
                None => None,
            },
            is_epic: self.is_epic,
            complexity: self.complexity,
            metadata: self.metadata.deep_view(),
        }
    }
}

impl DeepView for CreateTask {
    type V = CreateTaskView;

    open spec fn deep_view(&self) -> CreateTaskView {
        self@
    }
}

/// A partial update of a task.
#[derive(Debug)]
pub struct UpdateTask {
    pub title: Option<String>,
    pub description: Option<String>,
    pub status: Option<TaskStatus>,
    pub parent_workspace_id: Option<u128>,
    pub image_ids: Option<Vec<u128>>,
    pub is_epic: Option<bool>,
    pub complexity: Option<TaskComplexity>,
    pub metadata: Option<String>,
}

impl CreateTask {
    /// A request for a plain to-do task with the given title and description.
    pub fn from_title_description(
        project_id: u128,
        title: String,
        description: Option<String>,
    ) -> (c: Self)
        ensures
            c@ == (CreateTaskView {
                project_id: project_id,
                title: title@,
                description: description.deep_view(),
                status: Some(TaskStatus::Todo),
                parent_workspace_id: None,
                image_ids: None,
                is_epic: None,
                complexity: None,
                metadata: None,
            }),
    {
        CreateTask {
            project_id,
            title,
            description,
            status: Some(TaskStatus::Todo),
            parent_workspace_id: None,
            image_ids: None,
            is_epic: None,
            complexity: None,
            metadata: None,
        }
    }

    /// The same request, marked as an epic.
    pub fn as_epic(self) -> (c: Self)
        ensures
            c@ == (CreateTaskView {
                is_epic: Some(true),
                complexity: Some(TaskComplexity::Epic),
                ..self@
            }),
    {
        let mut c = self;
        c.is_epic = Some(true);
        c.complexity = Some(TaskComplexity::Epic);
        c
    }
}

/// Every character of the text is white space.
pub open spec fn spec_is_blank(s: Seq<char>) -> bool {
    forall|i: int| 0 <= i < s.len() ==> spec_is_whitespace(#[trigger] s[i])
}

/// Whether every character of the text is white space.
pub fn is_blank(s: &str) -> (b: bool)
    ensures
        b == spec_is_blank(s@),
{
    let chars = to_chars(s);
    let mut i: usize = 0;
    while i < chars.len()
        invariant
            i <= chars.len(),
            chars@ == s@,
            forall|j: int| 0 <= j < i ==> spec_is_whitespace(#[trigger] chars[j]),
        decreases chars.len() - i,
    {
        if !is_whitespace(chars[i]) {
            return false;
        }
        i += 1;
    }
    true
}

impl Task {
    /// The prompt that an agent is given for the task: the title, and
    /// after an empty line the description, where that is not blank.
    pub open spec fn spec_to_prompt(&self) -> Seq<char> {
        match self.description {
            Some(d) => if spec_is_blank(d@) {
                self.title@
            } else {
                self.title@ + "\n\n"@ + d@
            },
            None => self.title@,
        }
    }

    /// The prompt that an agent is given for the task.
    pub fn to_prompt(&self) -> (prompt: String)
        ensures
            prompt@ == self.spec_to_prompt(),
    {
        match &self.description {
            Some(d) => {
                if is_blank(d.as_str()) {
                    self.title.clone()
                } else {
                    let mut prompt = self.title.clone();
                    prompt.append("\n\n");
                    prompt.append(d.as_str());
                    prompt
                }
            },
            None => self.title.clone(),
        }
    }
}

} // verus!
