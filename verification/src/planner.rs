//! The planner: decomposes an Epic into a plan, and turns a plan into SubTasks.

use vstd::prelude::*;
use vstd::string::*;
use crate::ident::random_id;
use crate::models::agent_profile::AgentProfile;
use crate::models::swarm_execution::{
    spec_with_status, CreateSwarmExecution, PlannedSubtask, PlannedSubtaskView, SwarmExecution,
    SwarmExecutionStatus, SwarmExecutionView, SwarmPlanOutput, SwarmPlanOutputView,
};
use crate::models::swarm_task::{
    clone_strings, spec_created, CreateSwarmTask, CreateSwarmTaskView, SwarmTask, SwarmTaskStatus,
    SwarmTaskView, DEFAULT_MAX_RETRIES,
};
use crate::models::task::{CreateTask, CreateTaskView, Task, TaskComplexity, TaskStatus};
use crate::plan_text::{plan_text, spec_plan_text};
use crate::quorum::spec_consensus_threshold;
use crate::schedule::lemma_count_status_none;
use crate::swarm::{
    spec_deps_respected, spec_forward_deps, spec_ids_distinct, spec_in_sequence,
    spec_names_earlier, Swarm, SwarmView,
};
use crate::text::{
    contains_str, decimal, lowercase, spec_contains, spec_decimal, spec_lowercase, to_chars,
};

verus! {

/// Why a planner operation was refused.
#[derive(Debug)]
pub enum PlannerError {
    TaskNotFound(u128),
    NotEpicTask,
    NoPlannerAgent,
    PlanningFailed(String),
    InvalidPlanOutput(String),
}

/// Configuration of the planner.
#[derive(Debug, Clone, Copy)]
pub struct PlannerConfig {
    /// The least number of subtasks that calls for a swarm.
    pub swarm_threshold: i32,
    /// The most subtasks that a plan may have.
    pub max_subtasks: i32,
    pub default_reviewer_count: i32,
    pub max_parallel_workers: i32,
}

impl Default for PlannerConfig {
    fn default() -> (c: Self)
        ensures
            c.swarm_threshold == 2,
            c.max_subtasks == 10,
            c.default_reviewer_count == 3,
            c.max_parallel_workers == 5,
    {
        PlannerConfig {
            swarm_threshold: 2,
            max_subtasks: 10,
            default_reviewer_count: 3,
            max_parallel_workers: 5,
        }
    }
}

/// The planner. It holds its configuration by value and keeps no other state.
#[derive(Debug)]
pub struct PlannerService {
    pub config: PlannerConfig,
}

/// The points that a word adds to the score of a lowercased title.
pub open spec fn spec_points(lower: Seq<char>, word: Seq<char>, points: int) -> int {
    if spec_contains(lower, word) {
        points
    } else {
        0
    }
}

/// The score of a lowercased title before it is capped: 1, one more for
/// each verb of construction in it, two more for each word of scale.
pub open spec fn spec_raw_title_score(lower: Seq<char>) -> int {
    1 + spec_points(lower, "refactor"@, 1) + spec_points(lower, "implement"@, 1) + spec_points(
        lower,
        "build"@,
        1,
    ) + spec_points(lower, "create"@, 1) + spec_points(lower, "design"@, 1) + spec_points(
        lower,
        "integrate"@,
        1,
    ) + spec_points(lower, "migrate"@, 1) + spec_points(lower, "optimize"@, 1) + spec_points(
        lower,
        "architecture"@,
        1,
    ) + spec_points(lower, "system"@, 2) + spec_points(lower, "framework"@, 2) + spec_points(
        lower,
        "platform"@,
        2,
    ) + spec_points(lower, "engine"@, 2) + spec_points(lower, "complete"@, 2) + spec_points(
        lower,
        "full"@,
        2,
    ) + spec_points(lower, "entire"@, 2) + spec_points(lower, "comprehensive"@, 2) + spec_points(
        lower,
        "end-to-end"@,
        2,
    )
}

/// The complexity score of a lowercased title, from 1 to 5.
pub open spec fn spec_title_score(lower: Seq<char>) -> int {
    if spec_raw_title_score(lower) < 5 {
        spec_raw_title_score(lower)
    } else {
        5
    }
}

/// The points that `word` adds to the score of a lowercased title.
fn points(lower: &Vec<char>, word: &str, worth: i32) -> (p: i32)
    ensures
        p == spec_points(lower@, word@, worth as int),
{
    if contains_str(lower, word) {
        worth
    } else {
        0
    }
}

/// Scores a title that is already in lowercase.
pub fn score_title(lower: &str) -> (score: i32)
    ensures
        score == spec_title_score(lower@),
        1 <= score <= 5,
{
    let l = to_chars(lower);
    let verbs: i32 = points(&l, "refactor", 1) + points(&l, "implement", 1) + points(&l, "build", 1)
        + points(&l, "create", 1) + points(&l, "design", 1) + points(&l, "integrate", 1) + points(
        &l,
        "migrate",
        1,
    ) + points(&l, "optimize", 1) + points(&l, "architecture", 1);
    let scale: i32 = points(&l, "system", 2) + points(&l, "framework", 2) + points(
        &l,
        "platform",
        2,
    ) + points(&l, "engine", 2) + points(&l, "complete", 2) + points(&l, "full", 2) + points(
        &l,
        "entire",
        2,
    ) + points(&l, "comprehensive", 2) + points(&l, "end-to-end", 2);
    let raw: i32 = 1 + verbs + scale;
    if raw < 5 {
        raw
    } else {
        5
    }
}

/// The complexity of a task whose description is `description_len`
/// bytes long and whose title scores `title_score`.
pub open spec fn spec_classify(description_len: int, title_score: int) -> TaskComplexity {
    if description_len <= 50 && title_score == 1 {
        TaskComplexity::Trivial
    } else if description_len <= 200 && 1 <= title_score <= 2 {
        TaskComplexity::Simple
    } else if description_len <= 500 && 1 <= title_score <= 3 {
        TaskComplexity::Moderate
    } else if description_len <= 1000 {
        TaskComplexity::Complex
    } else {
        TaskComplexity::Epic
    }
}

/// Classifies a task by the length of its description and the score of its title.
pub fn classify(description_len: usize, title_score: i32) -> (c: TaskComplexity)
    ensures
        c == spec_classify(description_len as int, title_score as int),
{
    if description_len <= 50 && title_score == 1 {
        TaskComplexity::Trivial
    } else if description_len <= 200 && 1 <= title_score && title_score <= 2 {
        TaskComplexity::Simple
    } else if description_len <= 500 && 1 <= title_score && title_score <= 3 {
        TaskComplexity::Moderate
    } else if description_len <= 1000 {
        TaskComplexity::Complex
    } else {
        TaskComplexity::Epic
    }
}

/// The length in bytes of a task's description; 0 where it has none.
pub open spec fn spec_description_len(task: &Task) -> int {
    match task.description {
        Some(d) => (vstd::utf8::encode_utf8(d@).len() as usize) as int,
        None => 0,
    }
}

/// One subtask of a plan.
pub open spec fn spec_planned(
    title: Seq<char>,
    description: Seq<char>,
    required_skills: Seq<Seq<char>>,
    depends_on: Seq<i32>,
    complexity: i32,
    minutes: i32,
) -> PlannedSubtaskView {
    PlannedSubtaskView {
        title: title,
        description: description,
        required_skills: required_skills,
        depends_on: depends_on,
        complexity: complexity,
        estimated_duration: Some(minutes),
    }
}

/// The subtasks that the planner's skeletons give for a task: a single
/// shot for a trivial or simple task, three phases for a moderate one,
/// six phases for a complex one or an epic.
pub open spec fn spec_generate_subtasks(
    title: Seq<char>,
    description: Seq<char>,
    complexity: TaskComplexity,
) -> Seq<PlannedSubtaskView> {
    match complexity {
        TaskComplexity::Trivial | TaskComplexity::Simple => seq![
            spec_planned(title, description, seq!["backend"@], seq![], 1, 30),
        ],
        TaskComplexity::Moderate => seq![
            spec_planned(
                "Analyze requirements: "@ + title,
                "Analyze and document the requirements"@,
                seq!["architecture"@],
                seq![],
                2,
                30,
            ),
            spec_planned(
                "Implement: "@ + title,
                description,
                seq!["backend"@, "frontend"@],
                seq![0i32],
                3,
                60,
            ),
            spec_planned(
                "Test: "@ + title,
                "Write tests and verify implementation"@,
                seq!["testing"@],
                seq![1i32],
                2,
                30,
            ),
        ],
        TaskComplexity::Complex | TaskComplexity::Epic => seq![
            spec_planned(
                "Architecture design: "@ + title,
                "Design the overall architecture and components"@,
                seq!["architecture"@],
                seq![],
                3,
                45,
            ),
            spec_planned(
                "Backend implementation"@,
                "Implement backend services and APIs"@,
                seq!["backend"@, "database"@],
                seq![0i32],
                4,
                90,
            ),
            spec_planned(
                "Frontend implementation"@,
                "Implement frontend components and UI"@,
                seq!["frontend"@],
                seq![0i32],
                4,
                90,
            ),
            spec_planned(
                "Integration"@,
                "Integrate frontend and backend components"@,
                seq!["backend"@, "frontend"@],
                seq![1i32, 2i32],
                3,
                45,
            ),
            spec_planned(
                "Testing and QA"@,
                "Comprehensive testing and quality assurance"@,
                seq!["testing"@],
                seq![3i32],
                3,
                60,
            ),
            spec_planned(
                "Documentation"@,
                "Write documentation and update README"@,
                seq!["documentation"@],
                seq![3i32],
                2,
                30,
            ),
        ],
    }
}

/// Every dependency of every subtask is the position of an earlier subtask.
pub open spec fn spec_forward_only(subtasks: Seq<PlannedSubtaskView>) -> bool {
    forall|i: int, k: int|
        0 <= i < subtasks.len() && 0 <= k < subtasks[i].depends_on.len() ==> 0 <= (
        #[trigger] subtasks[i].depends_on[k]) < i
}

/// The plan has between one and `max_subtasks` subtasks, and its
/// dependencies point backwards only.
pub open spec fn spec_plan_valid(plan: SwarmPlanOutputView, max_subtasks: i32) -> bool {
    &&& 1 <= plan.subtasks.len() <= max_subtasks
    &&& spec_forward_only(plan.subtasks)
}

/// The reasoning that the planner records with its plan.
pub open spec fn spec_reasoning(title: Seq<char>, complexity: TaskComplexity, count: nat) -> Seq<
    char,
> {
    "Task '"@ + title + "' analyzed as "@ + complexity.spec_label() + " complexity. "@
        + spec_decimal(count) + " subtasks identified."@
}

/// The plan that the planner's skeletons give for a task of the given complexity.
pub open spec fn spec_decompose(
    title: Seq<char>,
    description: Seq<char>,
    complexity: TaskComplexity,
    swarm_threshold: i32,
) -> SwarmPlanOutputView {
    let subtasks = spec_generate_subtasks(title, description, complexity);
    SwarmPlanOutputView {
        complexity: complexity.spec_label(),
        requires_swarm: subtasks.len() >= swarm_threshold,
        subtasks: subtasks,
        estimated_total_duration: None,
        reasoning: spec_reasoning(title, complexity, subtasks.len()),
    }
}

/// The skeletons keep what every plan must keep: at least one and at
/// most six subtasks, and dependencies that point backwards only.
pub proof fn lemma_skeletons_are_valid(
    title: Seq<char>,
    description: Seq<char>,
    complexity: TaskComplexity,
)
    ensures
        1 <= spec_generate_subtasks(title, description, complexity).len() <= 6,
        spec_forward_only(spec_generate_subtasks(title, description, complexity)),
{
    let s = spec_generate_subtasks(title, description, complexity);
    assert forall|i: int, k: int|
        0 <= i < s.len() && 0 <= k < s[i].depends_on.len() implies 0 <= (
    #[trigger] s[i].depends_on[k]) < i by {
        match complexity {
            TaskComplexity::Trivial | TaskComplexity::Simple => {},
            TaskComplexity::Moderate => {},
            TaskComplexity::Complex | TaskComplexity::Epic => {},
        }
    }
}

/// The text of `a` followed by the text of `b`.
pub fn concat(a: &str, b: &str) -> (s: String)
    ensures
        s@ == a@ + b@,
{
    let mut s = String::new();
    s.append(a);
    s.append(b);
    assert(s@ =~= a@ + b@);
    s
}

/// A list of one string.
pub fn one_string(a: &str) -> (v: Vec<String>)
    ensures
        v.deep_view() == seq![a@],
{
    let mut v: Vec<String> = Vec::new();
    v.push(a.to_owned());
    assert(v.deep_view() =~= seq![a@]);
    v
}

/// A list of two strings.
pub fn two_strings(a: &str, b: &str) -> (v: Vec<String>)
    ensures
        v.deep_view() == seq![a@, b@],
{
    let mut v: Vec<String> = Vec::new();
    v.push(a.to_owned());
    v.push(b.to_owned());
    assert(v.deep_view() =~= seq![a@, b@]);
    v
}

/// A list of one position.
pub fn one_position(a: i32) -> (v: Vec<i32>)
    ensures
        v@ == seq![a],
{
    let mut v: Vec<i32> = Vec::new();
    v.push(a);
    assert(v@ =~= seq![a]);
    v
}

/// A list of two positions.
pub fn two_positions(a: i32, b: i32) -> (v: Vec<i32>)
    ensures
        v@ == seq![a, b],
{
    let mut v: Vec<i32> = Vec::new();
    v.push(a);
    v.push(b);
    assert(v@ =~= seq![a, b]);
    v
}

/// Builds one subtask of a plan.
pub fn planned(
    title: String,
    description: String,
    required_skills: Vec<String>,
    depends_on: Vec<i32>,
    complexity: i32,
    minutes: i32,
) -> (p: PlannedSubtask)
    ensures
        p@ == spec_planned(
            title@,
            description@,
            required_skills.deep_view(),
            depends_on@,
            complexity,
            minutes,
        ),
{
    PlannedSubtask {
        title,
        description,
        required_skills,
        depends_on,
        complexity,
        estimated_duration: Some(minutes),
    }
}

/// The single-shot skeleton.
fn single_shot(title: &str, description: &str) -> (v: Vec<PlannedSubtask>)
    ensures
        v.deep_view() == spec_generate_subtasks(title@, description@, TaskComplexity::Trivial),
        v.deep_view() == spec_generate_subtasks(title@, description@, TaskComplexity::Simple),
{
    let mut v: Vec<PlannedSubtask> = Vec::new();
    v.push(
        planned(title.to_owned(), description.to_owned(), one_string("backend"), Vec::new(), 1, 30),
    );
    assert(v.deep_view() =~= spec_generate_subtasks(title@, description@, TaskComplexity::Trivial));
    v
}

/// The three-phase skeleton.
fn three_phases(title: &str, description: &str) -> (v: Vec<PlannedSubtask>)
    ensures
        v.deep_view() == spec_generate_subtasks(title@, description@, TaskComplexity::Moderate),
{
    let mut v: Vec<PlannedSubtask> = Vec::new();
    v.push(
        planned(
            concat("Analyze requirements: ", title),
            "Analyze and document the requirements".to_owned(),
            one_string("architecture"),
            Vec::new(),
            2,
            30,
        ),
    );
    v.push(
        planned(
            concat("Implement: ", title),
            description.to_owned(),
            two_strings("backend", "frontend"),
            one_position(0),
            3,
            60,
        ),
    );
    v.push(
        planned(
            concat("Test: ", title),
            "Write tests and verify implementation".to_owned(),
            one_string("testing"),
            one_position(1),
            2,
            30,
        ),
    );
    assert(v.deep_view() =~= spec_generate_subtasks(title@, description@, TaskComplexity::Moderate));
    v
}

/// The six-phase skeleton.
fn six_phases(title: &str, description: &str) -> (v: Vec<PlannedSubtask>)
    ensures
        v.deep_view() == spec_generate_subtasks(title@, description@, TaskComplexity::Complex),
        v.deep_view() == spec_generate_subtasks(title@, description@, TaskComplexity::Epic),
{
    let mut v: Vec<PlannedSubtask> = Vec::new();
    v.push(
        planned(
            concat("Architecture design: ", title),
            "Design the overall architecture and components".to_owned(),
            one_string("architecture"),
            Vec::new(),
            3,
            45,
        ),
    );
    v.push(
        planned(
            "Backend implementation".to_owned(),
            "Implement backend services and APIs".to_owned(),
            two_strings("backend", "database"),
            one_position(0),
            4,
            90,
        ),
    );
    v.push(
        planned(
            "Frontend implementation".to_owned(),
            "Implement frontend components and UI".to_owned(),
            one_string("frontend"),
            one_position(0),
            4,
            90,
        ),
    );
    v.push(
        planned(
            "Integration".to_owned(),
            "Integrate frontend and backend components".to_owned(),
            two_strings("backend", "frontend"),
            two_positions(1, 2),
            3,
            45,
        ),
    );
    v.push(
        planned(
            "Testing and QA".to_owned(),
            "Comprehensive testing and quality assurance".to_owned(),
            one_string("testing"),
            one_position(3),
            3,
            60,
        ),
    );
    v.push(
        planned(
            "Documentation".to_owned(),
            "Write documentation and update README".to_owned(),
            one_string("documentation"),
            one_position(3),
            2,
            30,
        ),
    );
    assert(v.deep_view() =~= spec_generate_subtasks(title@, description@, TaskComplexity::Complex));
    v
}

/// A child task to create: the request, and the identifier to create it under.
#[derive(Debug)]
pub struct NewTask {
    pub id: u128,
    pub create: CreateTask,
}

/// Mathematical view of a [`NewTask`].
pub ghost struct NewTaskView {
    pub id: u128,
    pub create: CreateTaskView,
}

impl View for NewTask {
    type V = NewTaskView;

    open spec fn view(&self) -> NewTaskView {
        NewTaskView { id: self.id, create: self.create@ }
    }
}

impl DeepView for NewTask {
    type V = NewTaskView;

    open spec fn deep_view(&self) -> NewTaskView {
        self@
    }
}

/// The position of the first available planner among the profiles.
pub open spec fn spec_first_planner(profiles: Seq<AgentProfile>) -> Option<int> {
    if exists|i: int| 0 <= i < profiles.len() && (#[trigger] profiles[i]).spec_is_available_planner() {
        Some(
            choose|i: int|
                0 <= i < profiles.len() && (#[trigger] profiles[i]).spec_is_available_planner()
                    && forall|j: int|
                    0 <= j < i ==> !(#[trigger] profiles[j]).spec_is_available_planner(),
        )
    } else {
        None
    }
}

/// The position of the first available planner among the profiles.
pub fn first_planner(profiles: &Vec<AgentProfile>) -> (r: Option<usize>)
    ensures
        r matches Some(i) ==> i < profiles.len() && spec_first_planner(profiles@) == Some(i as int),
        r is None ==> spec_first_planner(profiles@) is None,
{
    let mut i: usize = 0;
    while i < profiles.len()
        invariant
            i <= profiles.len(),
            forall|j: int| 0 <= j < i ==> !(#[trigger] profiles[j]).spec_is_available_planner(),
        decreases profiles.len() - i,
    {
        if profiles[i].is_available_planner() {
            proof {
                let c = spec_first_planner(profiles@).unwrap();
                if c < i {
                    assert(!profiles[c].spec_is_available_planner());
                }
                if i < c {
                    assert(profiles[i as int].spec_is_available_planner());
                }
            }
            return Some(i);
        }
        i += 1;
    }
    None
}

/// The Execution that the planner creates for an Epic.
pub open spec fn spec_new_execution(
    config: PlannerConfig,
    epic_task_id: u128,
    workspace_id: Option<u128>,
    planner: u128,
    id: u128,
    now: i64,
) -> SwarmExecutionView {
    SwarmExecutionView {
        id: id,
        epic_task_id: epic_task_id,
        epic_workspace_id: workspace_id,
        status: SwarmExecutionStatus::Planning,
        planner_output: None,
        planner_profile_id: Some(planner),
        reviewer_count: config.default_reviewer_count,
        consensus_threshold: spec_consensus_threshold(config.default_reviewer_count as int) as i32,
        consensus_approvals: 0,
        consensus_rejections: 0,
        max_parallel_workers: config.max_parallel_workers,
        error_message: None,
        planned_at: None,
        execution_started_at: None,
        review_started_at: None,
        merge_started_at: None,
        created_at: now,
        completed_at: None,
        updated_at: now,
    }
}

/// The request for the child task of a planned subtask.
pub open spec fn spec_child_request(
    p: PlannedSubtaskView,
    project_id: u128,
    workspace_id: Option<u128>,
) -> CreateTaskView {
    CreateTaskView {
        project_id: project_id,
        title: p.title,
        description: Some(p.description),
        status: Some(TaskStatus::Todo),
        parent_workspace_id: workspace_id,
        image_ids: None,
        is_epic: Some(false),
        complexity: Some(TaskComplexity::spec_from_rating(p.complexity)),
        metadata: None,
    }
}

/// The identifiers of the SubTasks that a planned subtask depends on.
pub open spec fn spec_mapped_deps(depends_on: Seq<i32>, subtask_ids: Seq<u128>) -> Seq<u128> {
    Seq::new(depends_on.len(), |k: int| subtask_ids[depends_on[k] as int])
}

/// The SubTask of the planned subtask at position `i`.
pub open spec fn spec_subtask(
    subtasks: Seq<PlannedSubtaskView>,
    execution_id: u128,
    i: int,
    task_ids: Seq<u128>,
    subtask_ids: Seq<u128>,
    now: i64,
) -> SwarmTaskView {
    spec_created(
        CreateSwarmTaskView {
            swarm_execution_id: execution_id,
            task_id: task_ids[i],
            sequence_order: i as i32,
            depends_on: Some(spec_mapped_deps(subtasks[i].depends_on, subtask_ids)),
            required_skills: Some(subtasks[i].required_skills),
            complexity: Some(subtasks[i].complexity),
            max_retries: Some(DEFAULT_MAX_RETRIES),
        },
        subtask_ids[i],
        now,
    )
}

/// The SubTasks of the first `n` subtasks of a plan.
pub open spec fn spec_subtasks(
    subtasks: Seq<PlannedSubtaskView>,
    execution_id: u128,
    task_ids: Seq<u128>,
    subtask_ids: Seq<u128>,
    now: i64,
    n: int,
) -> Seq<SwarmTaskView> {
    Seq::new(n as nat, |i: int| spec_subtask(subtasks, execution_id, i, task_ids, subtask_ids, now))
}

/// The child tasks of the first `n` subtasks of a plan.
pub open spec fn spec_children(
    subtasks: Seq<PlannedSubtaskView>,
    project_id: u128,
    workspace_id: Option<u128>,
    task_ids: Seq<u128>,
    n: int,
) -> Seq<NewTaskView> {
    Seq::new(
        n as nat,
        |i: int|
            NewTaskView {
                id: task_ids[i],
                create: spec_child_request(subtasks[i], project_id, workspace_id),
            },
    )
}

/// The first `n` identifiers differ from one another.
pub open spec fn spec_distinct(ids: Seq<u128>, n: int) -> bool {
    forall|i: int, j: int| 0 <= i < j < n ==> ids[i] != ids[j]
}

/// Whether the first `n` identifiers differ from one another.
pub fn all_distinct(ids: &Vec<u128>, n: usize) -> (b: bool)
    requires
        n <= ids.len(),
    ensures
        b == spec_distinct(ids@, n as int),
{
    let mut j: usize = 0;
    while j < n
        invariant
            j <= n <= ids.len(),
            forall|a: int, b: int| 0 <= a < b < j ==> ids[a] != ids[b],
        decreases n - j,
    {
        let mut i: usize = 0;
        while i < j
            invariant
                i <= j < n <= ids.len(),
                forall|a: int| 0 <= a < i ==> ids[a] != ids[j as int],
            decreases j - i,
        {
            if ids[i] == ids[j] {
                return false;
            }
            i += 1;
        }
        j += 1;
    }
    true
}

/// The Execution after a plan was turned into SubTasks.
pub open spec fn spec_materialized(
    s: SwarmView,
    plan: SwarmPlanOutputView,
    task_ids: Seq<u128>,
    subtask_ids: Seq<u128>,
    now: i64,
) -> SwarmView {
    SwarmView {
        execution: spec_with_status(s.execution, SwarmExecutionStatus::Executing, now),
        tasks: spec_subtasks(
            plan.subtasks,
            s.execution.id,
            task_ids,
            subtask_ids,
            now,
            plan.subtasks.len() as int,
        ),
        ..s
    }
}

/// The SubTasks of a valid plan, under identifiers that differ from one
/// another, form a well-formed Execution that keeps the scheduling
/// invariant: every SubTask is pending, and every dependency names an
/// earlier SubTask.
pub proof fn lemma_materialized_is_well_formed(
    s: SwarmView,
    plan: SwarmPlanOutputView,
    task_ids: Seq<u128>,
    subtask_ids: Seq<u128>,
    now: i64,
)
    requires
        s.wf(),
        1 <= plan.subtasks.len() <= i32::MAX,
        spec_forward_only(plan.subtasks),
        subtask_ids.len() >= plan.subtasks.len(),
        spec_distinct(subtask_ids, plan.subtasks.len() as int),
    ensures
        spec_materialized(s, plan, task_ids, subtask_ids, now).wf(),
        s.execution.max_parallel_workers >= 0 ==> spec_materialized(
            s,
            plan,
            task_ids,
            subtask_ids,
            now,
        ).inv(),
{
    reveal(spec_ids_distinct);
    reveal(spec_forward_deps);
    reveal(spec_in_sequence);
    reveal(spec_deps_respected);
    let n = plan.subtasks.len() as int;
    let ts = spec_subtasks(plan.subtasks, s.execution.id, task_ids, subtask_ids, now, n);
    assert forall|i: int, k: int|
        0 <= i < ts.len() && 0 <= k < ts[i].depends_on.len() implies spec_names_earlier(
        ts,
        i,
        #[trigger] ts[i].depends_on[k],
    ) by {
        let d = plan.subtasks[i].depends_on[k];
        assert(0 <= d < i);
        assert(ts[d as int].id == subtask_ids[d as int]);
    }
    lemma_count_status_none(ts, SwarmTaskStatus::Running, n);
    lemma_count_status_none(ts, SwarmTaskStatus::Assigned, n);
}

/// The plan that the planner gives for a task.
pub open spec fn spec_plan_of(config: PlannerConfig, task: &Task) -> SwarmPlanOutputView {
    spec_decompose(
        task.title@,
        spec_description(task),
        spec_classify(spec_description_len(task), spec_title_score(spec_lowercase(task.title@))),
        config.swarm_threshold,
    )
}

/// How the creation of an Execution under the identifier `id` ends.
pub open spec fn spec_create_execution(
    config: PlannerConfig,
    task: &Task,
    profiles: Seq<AgentProfile>,
    workspace_id: Option<u128>,
    mark_epic: bool,
    id: u128,
    now: i64,
    r: Result<Swarm, PlannerError>,
) -> bool {
    if !task.is_epic && !mark_epic {
        r matches Err(PlannerError::NotEpicTask)
    } else if spec_first_planner(profiles) is None {
        r matches Err(PlannerError::NoPlannerAgent)
    } else if config.default_reviewer_count < 1 {
        r matches Err(PlannerError::PlanningFailed(m)) && m@
            == "The number of voters must be positive"@
    } else {
        &&& r matches Ok(swarm)
        &&& r->Ok_0.wf()
        &&& r->Ok_0@.inv() == (config.max_parallel_workers >= 0)
        &&& r->Ok_0@ == (SwarmView {
            execution: spec_new_execution(
                config,
                task.id,
                workspace_id,
                profiles[spec_first_planner(profiles).unwrap()].id,
                id,
                now,
            ),
            tasks: Seq::empty(),
            reviews: Seq::empty(),
            votes: Seq::empty(),
        })
    }
}

/// How the turning of a plan into SubTasks ends, given the identifiers.
pub open spec fn spec_execute_plan(
    s: SwarmView,
    max_subtasks: i32,
    project_id: u128,
    plan: SwarmPlanOutputView,
    task_ids: Seq<u128>,
    subtask_ids: Seq<u128>,
    now: i64,
    after: SwarmView,
    r: Result<Vec<NewTask>, PlannerError>,
) -> bool {
    if s.execution.status != SwarmExecutionStatus::Planned || s.tasks.len() != 0 {
        r matches Err(PlannerError::PlanningFailed(m)) && m@ == "Execution is not planned"@
    } else if !spec_plan_valid(plan, max_subtasks) {
        r matches Err(PlannerError::InvalidPlanOutput(_))
    } else if !spec_distinct(subtask_ids, plan.subtasks.len() as int) {
        r matches Err(PlannerError::PlanningFailed(m)) && m@ == "Identifiers collide"@
    } else {
        &&& r matches Ok(children)
        &&& r->Ok_0.deep_view() == spec_children(
            plan.subtasks,
            project_id,
            s.execution.epic_workspace_id,
            task_ids,
            plan.subtasks.len() as int,
        )
        &&& after == spec_materialized(s, plan, task_ids, subtask_ids, now)
    }
}

/// Builds the request for the child task of a planned subtask.
pub fn child_request(p: &PlannedSubtask, project_id: u128, workspace_id: Option<u128>) -> (c:
    CreateTask)
    ensures
        c@ == spec_child_request(p@, project_id, workspace_id),
{
    CreateTask {
        project_id,
        title: p.title.clone(),
        description: Some(p.description.clone()),
        status: Some(TaskStatus::Todo),
        parent_workspace_id: workspace_id,
        image_ids: None,
        is_epic: Some(false),
        complexity: Some(TaskComplexity::from_rating(p.complexity)),
        metadata: None,
    }
}

/// The identifiers of the SubTasks at the positions that `depends_on` names.
pub fn mapped_deps(depends_on: &Vec<i32>, subtask_ids: &Vec<u128>, limit: usize) -> (r: Vec<u128>)
    requires
        limit <= subtask_ids.len(),
        forall|k: int| 0 <= k < depends_on.len() ==> 0 <= #[trigger] depends_on[k] < limit,
    ensures
        r@ == spec_mapped_deps(depends_on@, subtask_ids@),
{
    let mut r: Vec<u128> = Vec::new();
    let mut k: usize = 0;
    while k < depends_on.len()
        invariant
            k <= depends_on.len(),
            limit <= subtask_ids.len(),
            forall|m: int| 0 <= m < depends_on.len() ==> 0 <= #[trigger] depends_on[m] < limit,
            r@ == spec_mapped_deps(depends_on@, subtask_ids@).take(k as int),
        decreases depends_on.len() - k,
    {
        let d = depends_on[k];
        r.push(subtask_ids[d as usize]);
        assert(r@ =~= spec_mapped_deps(depends_on@, subtask_ids@).take(k + 1));
        k += 1;
    }
    assert(r@ =~= spec_mapped_deps(depends_on@, subtask_ids@));
    r
}

/// Builds the SubTask of the planned subtask at position `i`.
pub fn subtask(
    p: &PlannedSubtask,
    execution_id: u128,
    i: usize,
    task_ids: &Vec<u128>,
    subtask_ids: &Vec<u128>,
    now: i64,
) -> (t: SwarmTask)
    requires
        i < task_ids.len(),
        i < subtask_ids.len(),
        i <= i32::MAX,
        forall|k: int| 0 <= k < p.depends_on.len() ==> 0 <= #[trigger] p.depends_on[k] < i,
    ensures
        t@ == spec_created(
            CreateSwarmTaskView {
                swarm_execution_id: execution_id,
                task_id: task_ids[i as int],
                sequence_order: i as i32,
                depends_on: Some(spec_mapped_deps(p@.depends_on, subtask_ids@)),
                required_skills: Some(p@.required_skills),
                complexity: Some(p.complexity),
                max_retries: Some(DEFAULT_MAX_RETRIES),
            },
            subtask_ids[i as int],
            now,
        ),
{
    let data = CreateSwarmTask {
        swarm_execution_id: execution_id,
        task_id: task_ids[i],
        sequence_order: i as i32,
        depends_on: Some(mapped_deps(&p.depends_on, subtask_ids, i)),
        required_skills: Some(clone_strings(&p.required_skills)),
        complexity: Some(p.complexity),
        max_retries: Some(DEFAULT_MAX_RETRIES),
    };
    SwarmTask::create(data, subtask_ids[i], now)
}

/// The description of a task; the empty text where it has none.
pub open spec fn spec_description(task: &Task) -> Seq<char> {
    match task.description {
        Some(d) => d@,
        None => Seq::empty(),
    }
}

impl PlannerService {
    pub fn new() -> (p: Self)
        ensures
            p.config.swarm_threshold == 2,
            p.config.max_subtasks == 10,
            p.config.default_reviewer_count == 3,
            p.config.max_parallel_workers == 5,
    {
        PlannerService { config: PlannerConfig::default() }
    }

    pub fn with_config(config: PlannerConfig) -> (p: Self)
        ensures
            p.config == config,
    {
        PlannerService { config }
    }

    /// Scores the complexity of a title, from 1 to 5.
    pub fn estimate_title_complexity(&self, title: &str) -> (score: i32)
        ensures
            score == spec_title_score(spec_lowercase(title@)),
            1 <= score <= 5,
    {
        let lower = lowercase(title);
        score_title(lower.as_str())
    }

    /// Estimates the complexity of a task from its title and the length of its description.
    pub fn analyze_complexity(&self, task: &Task) -> (c: TaskComplexity)
        ensures
            c == spec_classify(
                spec_description_len(task),
                spec_title_score(spec_lowercase(task.title@)),
            ),
    {
        let description_len: usize = match &task.description {
            Some(d) => d.as_str().len(),
            None => 0,
        };
        let title_score = self.estimate_title_complexity(task.title.as_str());
        classify(description_len, title_score)
    }

    /// The subtasks that the planner's skeletons give for a task.
    pub fn generate_subtasks(&self, task: &Task, complexity: &TaskComplexity) -> (v: Vec<
        PlannedSubtask,
    >)
        ensures
            v.deep_view() == spec_generate_subtasks(task.title@, spec_description(task), *complexity),
            1 <= v.len() <= 6,
            spec_forward_only(v.deep_view()),
    {
        proof {
            lemma_skeletons_are_valid(task.title@, spec_description(task), *complexity);
        }
        let description: String = match &task.description {
            Some(d) => d.clone(),
            None => String::new(),
        };
        match complexity {
            TaskComplexity::Trivial | TaskComplexity::Simple => single_shot(
                task.title.as_str(),
                description.as_str(),
            ),
            TaskComplexity::Moderate => three_phases(task.title.as_str(), description.as_str()),
            TaskComplexity::Complex | TaskComplexity::Epic => six_phases(
                task.title.as_str(),
                description.as_str(),
            ),
        }
    }

    /// Decomposes a task of the given complexity into a plan.
    pub fn decompose(&self, task: &Task, complexity: TaskComplexity) -> (plan: SwarmPlanOutput)
        ensures
            plan@ == spec_decompose(
                task.title@,
                spec_description(task),
                complexity,
                self.config.swarm_threshold,
            ),
            spec_forward_only(plan@.subtasks),
            1 <= plan@.subtasks.len() <= 6,
            plan.requires_swarm <==> plan@.subtasks.len() >= self.config.swarm_threshold,
    {
        let subtasks = self.generate_subtasks(task, &complexity);
        let count = subtasks.len();
        let requires_swarm = self.config.swarm_threshold <= 0 || count
            >= self.config.swarm_threshold as usize;
        let label = complexity.label();
        let mut reasoning = String::new();
        reasoning.append("Task '");
        reasoning.append(task.title.as_str());
        reasoning.append("' analyzed as ");
        reasoning.append(label);
        reasoning.append(" complexity. ");
        let digits = decimal(count as u64);
        reasoning.append(digits.as_str());
        reasoning.append(" subtasks identified.");
        assert(reasoning@ =~= spec_reasoning(task.title@, complexity, count as nat));
        SwarmPlanOutput {
            complexity: label.to_owned(),
            requires_swarm,
            subtasks,
            estimated_total_duration: None,
            reasoning,
        }
    }

    /// Decomposes a task into a plan, after estimating its complexity.
    pub fn decompose_task(&self, task: &Task) -> (plan: SwarmPlanOutput)
        ensures
            plan@ == spec_decompose(
                task.title@,
                spec_description(task),
                spec_classify(
                    spec_description_len(task),
                    spec_title_score(spec_lowercase(task.title@)),
                ),
                self.config.swarm_threshold,
            ),
            spec_forward_only(plan@.subtasks),
            1 <= plan@.subtasks.len() <= 6,
            plan.requires_swarm <==> plan@.subtasks.len() >= self.config.swarm_threshold,
    {
        let complexity = self.analyze_complexity(task);
        self.decompose(task, complexity)
    }

    /// Checks a plan: it must have at least one subtask and no more than
    /// the configured maximum, and every dependency must be the position of
    /// an earlier subtask.
    pub fn validate_plan(&self, plan: &SwarmPlanOutput) -> (r: Result<(), PlannerError>)
        ensures
            r is Ok <==> spec_plan_valid(plan@, self.config.max_subtasks),
            r matches Err(e) ==> e is InvalidPlanOutput,
            r matches Err(PlannerError::InvalidPlanOutput(m)) ==> m@ == (if plan@.subtasks.len()
                == 0 {
                "Plan has no subtasks"@
            } else if plan@.subtasks.len() > self.config.max_subtasks {
                "Plan has too many subtasks"@
            } else {
                "Subtask dependencies must point to earlier subtasks"@
            }),
    {
        let n = plan.subtasks.len();
        if n == 0 {
            return Err(PlannerError::InvalidPlanOutput("Plan has no subtasks".to_owned()));
        }
        if self.config.max_subtasks <= 0 || n > self.config.max_subtasks as usize {
            return Err(PlannerError::InvalidPlanOutput("Plan has too many subtasks".to_owned()));
        }
        let ghost subtasks = plan@.subtasks;
        let mut i: usize = 0;
        while i < n
            invariant
                i <= n == plan.subtasks.len(),
                1 <= n <= self.config.max_subtasks,
                subtasks == plan@.subtasks,
                forall|a: int, k: int|
                    0 <= a < i && 0 <= k < subtasks[a].depends_on.len() ==> 0 <= (
                    #[trigger] subtasks[a].depends_on[k]) < a,
            decreases n - i,
        {
            let mut k: usize = 0;
            assert(subtasks[i as int] == plan.subtasks[i as int]@);
            while k < plan.subtasks[i].depends_on.len()
                invariant
                    i < n == plan.subtasks.len(),
                    1 <= n <= self.config.max_subtasks,
                    subtasks == plan@.subtasks,
                    subtasks[i as int] == plan.subtasks[i as int]@,
                    k <= plan.subtasks[i as int].depends_on.len(),
                    forall|m: int| 0 <= m < k ==> 0 <= (#[trigger] subtasks[i as int].depends_on[m]) < i,
                decreases plan.subtasks[i as int].depends_on.len() - k,
            {
                let d = plan.subtasks[i].depends_on[k];
                if d < 0 || d as usize >= i {
                    assert(!(0 <= subtasks[i as int].depends_on[k as int] < i));
                    return Err(
                        PlannerError::InvalidPlanOutput(
                            "Subtask dependencies must point to earlier subtasks".to_owned(),
                        ),
                    );
                }
                k += 1;
            }
            i += 1;
        }
        Ok(())
    }
    /// Creates the Execution of an Epic, under an identifier drawn at random.
    ///
    /// See [`PlannerService::create_swarm_execution_with`], which does the
    /// work: the outcome is the same, for whatever identifier was drawn.
    pub fn create_swarm_execution(
        &self,
        task: &Task,
        profiles: &Vec<AgentProfile>,
        workspace_id: Option<u128>,
        mark_epic: bool,
        now: i64,
    ) -> (r: Result<Swarm, PlannerError>)
        ensures
            exists|id: u128|
                spec_create_execution(self.config, task, profiles@, workspace_id, mark_epic, id, now, r),
    {
        let id = random_id();
        self.create_swarm_execution_with(task, profiles, workspace_id, mark_epic, id, now)
    }

    /// Creates the Execution of an Epic, under the identifier `id`.
    ///
    /// Refused with `NotEpicTask` where the task is not an epic and the
    /// caller does not ask to mark it as one, with `NoPlannerAgent` where
    /// no profile is an available planner, and with `PlanningFailed` where
    /// the configured number of voters is not positive. The planner of
    /// the Execution is the first available planner among the profiles.
    pub fn create_swarm_execution_with(
        &self,
        task: &Task,
        profiles: &Vec<AgentProfile>,
        workspace_id: Option<u128>,
        mark_epic: bool,
        id: u128,
        now: i64,
    ) -> (r: Result<Swarm, PlannerError>)
        ensures
            spec_create_execution(self.config, task, profiles@, workspace_id, mark_epic, id, now, r),
    {
        if !task.is_epic && !mark_epic {
            return Err(PlannerError::NotEpicTask);
        }
        let planner = match first_planner(profiles) {
            Some(i) => profiles[i].id,
            None => {
                return Err(PlannerError::NoPlannerAgent);
            },
        };
        if self.config.default_reviewer_count < 1 {
            return Err(
                PlannerError::PlanningFailed("The number of voters must be positive".to_owned()),
            );
        }
        let data = CreateSwarmExecution {
            epic_task_id: task.id,
            epic_workspace_id: workspace_id,
            planner_profile_id: Some(planner),
            reviewer_count: Some(self.config.default_reviewer_count),
            max_parallel_workers: Some(self.config.max_parallel_workers),
        };
        let execution = SwarmExecution::create(&data, id, now);
        let swarm = Swarm { execution, tasks: Vec::new(), reviews: Vec::new(), votes: Vec::new() };
        proof {
            reveal(spec_ids_distinct);
            reveal(spec_forward_deps);
            reveal(spec_in_sequence);
            reveal(spec_deps_respected);
            assert(swarm@.tasks =~= Seq::empty());
            assert(swarm@.reviews =~= Seq::empty());
        }
        Ok(swarm)
    }

    /// Plans an Execution that is in planning: decomposes the Epic,
    /// records the plan's text on the Execution, and moves it to planned.
    ///
    /// Refused with `PlanningFailed` unless the Execution is in planning,
    /// and with `InvalidPlanOutput` where the plan is not valid; the
    /// Execution stays as it is then.
    pub fn generate_plan(&self, swarm: &mut Swarm, task: &Task, now: i64) -> (r: Result<
        SwarmPlanOutput,
        PlannerError,
    >)
        requires
            old(swarm).wf(),
        ensures
            final(swarm).wf(),
            final(swarm)@.inv() == old(swarm)@.inv(),
            r is Err ==> final(swarm)@ == old(swarm)@,
            old(swarm).execution.status != SwarmExecutionStatus::Planning ==> (r matches Err(
                PlannerError::PlanningFailed(m),
            ) && m@ == "Execution is not in planning state"@),
            old(swarm).execution.status == SwarmExecutionStatus::Planning ==> (r is Ok
                <==> spec_plan_valid(spec_plan_of(self.config, task), self.config.max_subtasks)),
            old(swarm).execution.status == SwarmExecutionStatus::Planning ==> (r matches Err(e)
                ==> e is InvalidPlanOutput),
            r matches Ok(plan) ==> plan@ == spec_plan_of(self.config, task) && final(swarm)@ == (
            SwarmView {
                execution: spec_with_status(
                    SwarmExecutionView {
                        planner_output: Some(spec_plan_text(plan@)),
                        updated_at: now,
                        ..old(swarm)@.execution
                    },
                    SwarmExecutionStatus::Planned,
                    now,
                ),
                ..old(swarm)@
            }),
    {
        if swarm.execution.status != SwarmExecutionStatus::Planning {
            return Err(
                PlannerError::PlanningFailed("Execution is not in planning state".to_owned()),
            );
        }
        let plan = self.decompose_task(task);
        match self.validate_plan(&plan) {
            Ok(_) => {},
            Err(e) => {
                return Err(e);
            },
        }
        swarm.execution.set_planner_output(plan_text(&plan), now);
        swarm.execution.update_status(SwarmExecutionStatus::Planned, now);
        Ok(plan)
    }

    /// Turns a plan into SubTasks, under identifiers drawn at random.
    ///
    /// See [`PlannerService::execute_plan_with`], which does the work: the
    /// outcome is the same, for whatever identifiers were drawn.
    pub fn execute_plan(&self, swarm: &mut Swarm, epic_task: &Task, plan: &SwarmPlanOutput, now: i64) -> (r:
        Result<Vec<NewTask>, PlannerError>)
        requires
            old(swarm).wf(),
        ensures
            final(swarm).wf(),
            r is Err ==> final(swarm)@ == old(swarm)@,
            exists|task_ids: Seq<u128>, subtask_ids: Seq<u128>|
                task_ids.len() == plan.subtasks.len() && subtask_ids.len() == plan.subtasks.len()
                    && spec_execute_plan(
                    old(swarm)@,
                    self.config.max_subtasks,
                    epic_task.project_id,
                    plan@,
                    task_ids,
                    subtask_ids,
                    now,
                    final(swarm)@,
                    r,
                ),
    {
        let mut task_ids: Vec<u128> = Vec::new();
        let mut subtask_ids: Vec<u128> = Vec::new();
        let mut k: usize = 0;
        while k < plan.subtasks.len()
            invariant
                k <= plan.subtasks.len(),
                task_ids.len() == k,
                subtask_ids.len() == k,
            decreases plan.subtasks.len() - k,
        {
            task_ids.push(random_id());
            subtask_ids.push(random_id());
            k += 1;
        }
        self.execute_plan_with(swarm, epic_task, plan, &task_ids, &subtask_ids, now)
    }

    /// Turns a plan into SubTasks: the `i`-th subtask of the plan becomes
    /// the SubTask `subtask_ids[i]` with the child task `task_ids[i]`, and
    /// its dependencies become the identifiers of the SubTasks at the
    /// positions it names. The Execution moves to executing, and the
    /// child tasks to create are returned.
    ///
    /// Refused with `PlanningFailed` unless the Execution is planned and
    /// has no SubTask yet, with `InvalidPlanOutput` where the plan is not
    /// valid, and with `PlanningFailed` where two of the SubTask
    /// identifiers are the same; nothing changes then.
    pub fn execute_plan_with(
        &self,
        swarm: &mut Swarm,
        epic_task: &Task,
        plan: &SwarmPlanOutput,
        task_ids: &Vec<u128>,
        subtask_ids: &Vec<u128>,
        now: i64,
    ) -> (r: Result<Vec<NewTask>, PlannerError>)
        requires
            old(swarm).wf(),
            task_ids.len() >= plan.subtasks.len(),
            subtask_ids.len() >= plan.subtasks.len(),
        ensures
            final(swarm).wf(),
            r is Err ==> final(swarm)@ == old(swarm)@,
            r is Ok && old(swarm).execution.max_parallel_workers >= 0 ==> final(swarm)@.inv(),
            spec_execute_plan(
                old(swarm)@,
                self.config.max_subtasks,
                epic_task.project_id,
                plan@,
                task_ids@,
                subtask_ids@,
                now,
                final(swarm)@,
                r,
            ),
    {
        if swarm.execution.status != SwarmExecutionStatus::Planned || swarm.tasks.len() != 0 {
            return Err(PlannerError::PlanningFailed("Execution is not planned".to_owned()));
        }
        match self.validate_plan(plan) {
            Ok(_) => {},
            Err(e) => {
                return Err(e);
            },
        }
        let n = plan.subtasks.len();
        if !all_distinct(subtask_ids, n) {
            return Err(PlannerError::PlanningFailed("Identifiers collide".to_owned()));
        }
        let ghost s0 = swarm@;
        let ghost subtasks = plan@.subtasks;
        proof {
            lemma_materialized_is_well_formed(s0, plan@, task_ids@, subtask_ids@, now);
        }
        let execution_id = swarm.execution.id;
        let project_id = epic_task.project_id;
        let workspace_id = swarm.execution.epic_workspace_id;
        let mut children: Vec<NewTask> = Vec::new();
        let mut tasks: Vec<SwarmTask> = Vec::new();
        let mut i: usize = 0;
        proof {
            assert(tasks.deep_view() =~= spec_subtasks(
                subtasks,
                execution_id,
                task_ids@,
                subtask_ids@,
                now,
                0,
            ));
            assert(children.deep_view() =~= spec_children(
                subtasks,
                project_id,
                workspace_id,
                task_ids@,
                0,
            ));
        }
        while i < n
            invariant
                i <= n == plan.subtasks.len(),
                n <= self.config.max_subtasks,
                n <= task_ids.len(),
                n <= subtask_ids.len(),
                subtasks == plan@.subtasks,
                spec_forward_only(subtasks),
                tasks.deep_view() == spec_subtasks(
                    subtasks,
                    execution_id,
                    task_ids@,
                    subtask_ids@,
                    now,
                    i as int,
                ),
                children.deep_view() == spec_children(
                    subtasks,
                    project_id,
                    workspace_id,
                    task_ids@,
                    i as int,
                ),
            decreases n - i,
        {
            let ghost tasks_before = tasks.deep_view();
            let ghost children_before = children.deep_view();
            assert(subtasks[i as int] == plan.subtasks[i as int]@);
            let child = child_request(&plan.subtasks[i], project_id, workspace_id);
            let new_task = NewTask { id: task_ids[i], create: child };
            children.push(new_task);
            assert forall|k: int| 0 <= k < plan.subtasks[i as int].depends_on.len() implies 0 <= (
            #[trigger] plan.subtasks[i as int].depends_on[k]) < i by {
                assert(0 <= subtasks[i as int].depends_on[k] < i);
            }
            let task = subtask(&plan.subtasks[i], execution_id, i, task_ids, subtask_ids, now);
            tasks.push(task);
            proof {
                assert(tasks.deep_view() =~= tasks_before.push(task@));
                assert(children.deep_view() =~= children_before.push(new_task@));
                assert(tasks.deep_view() =~= spec_subtasks(
                    subtasks,
                    execution_id,
                    task_ids@,
                    subtask_ids@,
                    now,
                    i + 1,
                ));
                assert(children.deep_view() =~= spec_children(
                    subtasks,
                    project_id,
                    workspace_id,
                    task_ids@,
                    i + 1,
                ));
            }
            i += 1;
        }
        swarm.tasks = tasks;
        swarm.execution.update_status(SwarmExecutionStatus::Executing, now);
        Ok(children)
    }
}

} // verus!
