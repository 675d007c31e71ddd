use swarm_orchestrator::models::agent_profile::AgentProfile;
use swarm_orchestrator::models::swarm_execution::{
    PlannedSubtask, SwarmExecutionStatus, SwarmPlanOutput,
};
use swarm_orchestrator::models::swarm_task::SwarmTaskStatus;
use swarm_orchestrator::models::task::{Task, TaskComplexity, TaskStatus};
use swarm_orchestrator::plan_text::plan_text;
use swarm_orchestrator::planner::{
    all_distinct, classify, score_title, PlannerConfig, PlannerError, PlannerService,
};

fn task(title: &str, description: Option<&str>, is_epic: bool) -> Task {
    Task {
        id: 0x7a5c,
        project_id: 0x9,
        title: title.to_string(),
        description: description.map(String::from),
        status: TaskStatus::Todo,
        parent_workspace_id: None,
        is_epic,
        complexity: None,
        metadata: None,
        created_at: 0,
        updated_at: 0,
    }
}

fn planner(id: u128, active: bool) -> AgentProfile {
    AgentProfile {
        id,
        name: format!("planner-{id}"),
        description: None,
        executor: "CODEX".to_string(),
        variant: None,
        executor_config: None,
        is_planner: true,
        is_reviewer: false,
        is_worker: false,
        max_concurrent_tasks: 1,
        priority: 0,
        active,
        created_at: 0,
        updated_at: 0,
    }
}

fn planned(title: &str, deps: Vec<i32>) -> PlannedSubtask {
    PlannedSubtask {
        title: title.to_string(),
        description: format!("do {title}"),
        required_skills: vec!["backend".to_string()],
        depends_on: deps,
        complexity: 2,
        estimated_duration: None,
    }
}

fn plan(subtasks: Vec<PlannedSubtask>) -> SwarmPlanOutput {
    SwarmPlanOutput {
        complexity: "Moderate".to_string(),
        requires_swarm: subtasks.len() >= 2,
        subtasks,
        estimated_total_duration: None,
        reasoning: "because".to_string(),
    }
}

#[test]
fn test_title_complexity() {
    let service = PlannerService::new();

    assert!(service.estimate_title_complexity("Fix bug") <= 2);
    assert!(service.estimate_title_complexity("Implement new feature") >= 2);
    assert!(service.estimate_title_complexity("Build complete authentication system") >= 4);
}

#[test]
fn title_scores_are_exact() {
    let service = PlannerService::new();
    assert_eq!(service.estimate_title_complexity("Fix bug"), 1);
    assert_eq!(service.estimate_title_complexity("Implement new feature"), 2);
    assert_eq!(service.estimate_title_complexity("IMPLEMENT and REFACTOR"), 3);
    // build +1, complete +2, system +2, capped at 5
    assert_eq!(service.estimate_title_complexity("Build complete authentication system"), 5);
    assert_eq!(service.estimate_title_complexity("An end-to-end platform"), 5);
    assert_eq!(service.estimate_title_complexity("Engine"), 3);
    assert_eq!(service.estimate_title_complexity(""), 1);
    // Scoring works on the lowercase form it is handed.
    assert_eq!(score_title("build"), 2);
    assert_eq!(score_title("BUILD"), 1);
    assert_eq!(score_title("a full, entire framework"), 5);
}

#[test]
fn complexity_follows_description_length_and_title_score() {
    assert_eq!(classify(0, 1), TaskComplexity::Trivial);
    assert_eq!(classify(50, 1), TaskComplexity::Trivial);
    assert_eq!(classify(51, 1), TaskComplexity::Simple);
    assert_eq!(classify(50, 2), TaskComplexity::Simple);
    assert_eq!(classify(200, 2), TaskComplexity::Simple);
    assert_eq!(classify(201, 2), TaskComplexity::Moderate);
    assert_eq!(classify(10, 3), TaskComplexity::Moderate);
    assert_eq!(classify(500, 3), TaskComplexity::Moderate);
    assert_eq!(classify(501, 3), TaskComplexity::Complex);
    assert_eq!(classify(10, 4), TaskComplexity::Complex);
    assert_eq!(classify(1000, 5), TaskComplexity::Complex);
    assert_eq!(classify(1001, 1), TaskComplexity::Epic);

    let service = PlannerService::new();
    assert_eq!(service.analyze_complexity(&task("Fix bug", None, true)), TaskComplexity::Trivial);
    let long = "x".repeat(300);
    assert_eq!(
        service.analyze_complexity(&task("Fix bug", Some(&long), true)),
        TaskComplexity::Moderate
    );
    // The length is counted in bytes: 26 two-byte characters are 52 bytes.
    let accented = "\u{e9}".repeat(26);
    assert_eq!(
        service.analyze_complexity(&task("Fix bug", Some(&accented), true)),
        TaskComplexity::Simple
    );
}

#[test]
fn skeletons_have_one_three_or_six_phases() {
    let service = PlannerService::new();
    let epic = task("Checkout", Some("Pay with card"), true);

    let single = service.generate_subtasks(&epic, &TaskComplexity::Simple);
    assert_eq!(single.len(), 1);
    assert_eq!(single[0].title, "Checkout");
    assert_eq!(single[0].description, "Pay with card");
    assert_eq!(single[0].required_skills, vec!["backend".to_string()]);
    assert!(single[0].depends_on.is_empty());
    assert_eq!(single[0].complexity, 1);
    assert_eq!(single[0].estimated_duration, Some(30));

    let three = service.generate_subtasks(&epic, &TaskComplexity::Moderate);
    let titles: Vec<&str> = three.iter().map(|p| p.title.as_str()).collect();
    assert_eq!(titles, vec!["Analyze requirements: Checkout", "Implement: Checkout", "Test: Checkout"]);
    assert_eq!(three[1].description, "Pay with card");
    assert_eq!(three[1].required_skills, vec!["backend".to_string(), "frontend".to_string()]);
    let deps: Vec<Vec<i32>> = three.iter().map(|p| p.depends_on.clone()).collect();
    assert_eq!(deps, vec![vec![], vec![0], vec![1]]);

    let six = service.generate_subtasks(&task("Shop", None, true), &TaskComplexity::Epic);
    let titles: Vec<&str> = six.iter().map(|p| p.title.as_str()).collect();
    assert_eq!(
        titles,
        vec![
            "Architecture design: Shop",
            "Backend implementation",
            "Frontend implementation",
            "Integration",
            "Testing and QA",
            "Documentation"
        ]
    );
    let deps: Vec<Vec<i32>> = six.iter().map(|p| p.depends_on.clone()).collect();
    assert_eq!(deps, vec![vec![], vec![0], vec![0], vec![1, 2], vec![3], vec![3]]);
    let ratings: Vec<i32> = six.iter().map(|p| p.complexity).collect();
    assert_eq!(ratings, vec![3, 4, 4, 3, 3, 2]);
    let minutes: Vec<Option<i32>> = six.iter().map(|p| p.estimated_duration).collect();
    assert_eq!(minutes, vec![Some(45), Some(90), Some(90), Some(45), Some(60), Some(30)]);
    for (i, p) in six.iter().enumerate() {
        assert!(p.depends_on.iter().all(|d| 0 <= *d && (*d as usize) < i));
    }
    assert!(service.validate_plan(&plan(six)).is_ok());
}

#[test]
fn decomposition_records_label_threshold_and_reasoning() {
    let service = PlannerService::new();
    let small = service.decompose_task(&task("Fix bug", None, true));
    assert_eq!(small.complexity, "Trivial");
    assert!(!small.requires_swarm);
    assert_eq!(small.subtasks.len(), 1);
    assert_eq!(small.estimated_total_duration, None);
    assert_eq!(small.reasoning, "Task 'Fix bug' analyzed as Trivial complexity. 1 subtasks identified.");

    let big = service.decompose_task(&task("Build complete system", None, true));
    assert_eq!(big.complexity, "Complex");
    assert!(big.requires_swarm);
    assert_eq!(
        big.reasoning,
        "Task 'Build complete system' analyzed as Complex complexity. 6 subtasks identified."
    );

    let eager = PlannerService::with_config(PlannerConfig {
        swarm_threshold: 1,
        max_subtasks: 10,
        default_reviewer_count: 3,
        max_parallel_workers: 5,
    });
    assert!(eager.decompose_task(&task("Fix bug", None, true)).requires_swarm);
}

#[test]
fn invalid_plans_are_refused() {
    let service = PlannerService::new();
    match service.validate_plan(&plan(Vec::new())) {
        Err(PlannerError::InvalidPlanOutput(m)) => assert_eq!(m, "Plan has no subtasks"),
        other => panic!("unexpected {other:?}"),
    }
    let many = (0..11).map(|i| planned(&format!("t{i}"), vec![])).collect();
    match service.validate_plan(&plan(many)) {
        Err(PlannerError::InvalidPlanOutput(m)) => assert_eq!(m, "Plan has too many subtasks"),
        other => panic!("unexpected {other:?}"),
    }
    let ten = (0..10).map(|i| planned(&format!("t{i}"), vec![])).collect();
    assert!(service.validate_plan(&plan(ten)).is_ok());
    for bad in [vec![1], vec![0, 2], vec![-1], vec![5]] {
        let subtasks = vec![planned("a", vec![]), planned("b", bad)];
        match service.validate_plan(&plan(subtasks)) {
            Err(PlannerError::InvalidPlanOutput(m)) => {
                assert_eq!(m, "Subtask dependencies must point to earlier subtasks")
            }
            other => panic!("unexpected {other:?}"),
        }
    }
    // A subtask cannot depend on itself.
    assert!(service.validate_plan(&plan(vec![planned("a", vec![0])])).is_err());
}

#[test]
fn executions_are_created_for_epics_with_a_planner() {
    let service = PlannerService::new();
    let profiles = vec![planner(1, false), planner(2, true), planner(3, true)];
    let epic = task("Shop", None, true);

    let swarm = service
        .create_swarm_execution_with(&epic, &profiles, Some(77), false, 0xabc, 5)
        .unwrap();
    assert_eq!(swarm.execution.id, 0xabc);
    assert_eq!(swarm.execution.epic_task_id, 0x7a5c);
    assert_eq!(swarm.execution.epic_workspace_id, Some(77));
    assert_eq!(swarm.execution.planner_profile_id, Some(2));
    assert_eq!(swarm.execution.status, SwarmExecutionStatus::Planning);
    assert_eq!(swarm.execution.reviewer_count, 3);
    assert_eq!(swarm.execution.consensus_threshold, 1);
    assert_eq!(swarm.execution.max_parallel_workers, 5);
    assert_eq!(swarm.execution.created_at, 5);
    assert!(swarm.tasks.is_empty() && swarm.reviews.is_empty() && swarm.votes.is_empty());
    assert!(swarm.is_well_formed());

    let plain = task("Shop", None, false);
    assert!(matches!(
        service.create_swarm_execution_with(&plain, &profiles, None, false, 1, 0),
        Err(PlannerError::NotEpicTask)
    ));
    assert!(service.create_swarm_execution_with(&plain, &profiles, None, true, 1, 0).is_ok());
    assert!(matches!(
        service.create_swarm_execution_with(&epic, &vec![planner(1, false)], None, false, 1, 0),
        Err(PlannerError::NoPlannerAgent)
    ));
    assert!(matches!(
        service.create_swarm_execution(&epic, &Vec::new(), None, false, 0),
        Err(PlannerError::NoPlannerAgent)
    ));
    let broken = PlannerService::with_config(PlannerConfig {
        swarm_threshold: 2,
        max_subtasks: 10,
        default_reviewer_count: 0,
        max_parallel_workers: 5,
    });
    assert!(matches!(
        broken.create_swarm_execution_with(&epic, &profiles, None, false, 1, 0),
        Err(PlannerError::PlanningFailed(_))
    ));
    let drawn = service.create_swarm_execution(&epic, &profiles, None, false, 0).unwrap();
    assert_eq!(drawn.execution.planner_profile_id, Some(2));
}

#[test]
fn threshold_is_fixed_at_creation_for_every_count() {
    for (n, t) in [(3, 1), (4, 3), (5, 3), (6, 3), (7, 5), (10, 7), (13, 9)] {
        let service = PlannerService::with_config(PlannerConfig {
            swarm_threshold: 2,
            max_subtasks: 10,
            default_reviewer_count: n,
            max_parallel_workers: 5,
        });
        let swarm = service
            .create_swarm_execution_with(&task("E", None, true), &vec![planner(1, true)], None, false, 1, 0)
            .unwrap();
        assert_eq!(swarm.execution.consensus_threshold, t);
        assert_eq!(swarm.execution.consensus_threshold, 2 * ((n - 1) / 3) + 1);
    }
}

#[test]
fn planning_records_the_plan_and_moves_on() {
    let service = PlannerService::new();
    let epic = task("Fix bug", None, true);
    let mut swarm = service
        .create_swarm_execution_with(&epic, &vec![planner(1, true)], None, false, 1, 0)
        .unwrap();
    let plan = service.generate_plan(&mut swarm, &epic, 9).unwrap();
    assert_eq!(plan.subtasks.len(), 1);
    assert_eq!(swarm.execution.status, SwarmExecutionStatus::Planned);
    assert_eq!(swarm.execution.planned_at, Some(9));
    assert_eq!(
        swarm.execution.planner_output.as_deref(),
        Some(
            "{\"complexity\":\"Trivial\",\"requires_swarm\":false,\"subtasks\":[{\"title\":\"Fix bug\",\"description\":\"\",\"required_skills\":[\"backend\"],\"depends_on\":[],\"complexity\":1,\"estimated_duration\":30}],\"estimated_total_duration\":null,\"reasoning\":\"Task 'Fix bug' analyzed as Trivial complexity. 1 subtasks identified.\"}"
        )
    );
    // Planning twice is refused and changes nothing.
    match service.generate_plan(&mut swarm, &epic, 10) {
        Err(PlannerError::PlanningFailed(m)) => assert_eq!(m, "Execution is not in planning state"),
        other => panic!("unexpected {other:?}"),
    }
    assert_eq!(swarm.execution.planned_at, Some(9));

    // A plan larger than the configured maximum leaves the Execution in planning.
    let tight = PlannerService::with_config(PlannerConfig {
        swarm_threshold: 2,
        max_subtasks: 2,
        default_reviewer_count: 3,
        max_parallel_workers: 5,
    });
    let big = task("Build complete system", None, true);
    let mut swarm = tight
        .create_swarm_execution_with(&big, &vec![planner(1, true)], None, false, 1, 0)
        .unwrap();
    assert!(matches!(
        tight.generate_plan(&mut swarm, &big, 9),
        Err(PlannerError::InvalidPlanOutput(_))
    ));
    assert_eq!(swarm.execution.status, SwarmExecutionStatus::Planning);
    assert_eq!(swarm.execution.planner_output, None);
}

#[test]
fn plan_text_is_stable() {
    let mut p = plan(vec![planned("a \"b\"", vec![]), planned("c\nd", vec![0])]);
    p.subtasks[1].depends_on = vec![0];
    p.subtasks[1].estimated_duration = Some(-5);
    p.subtasks[1].required_skills = vec!["x".to_string(), "y/z".to_string()];
    p.estimated_total_duration = Some(120);
    assert_eq!(
        plan_text(&p),
        "{\"complexity\":\"Moderate\",\"requires_swarm\":true,\"subtasks\":[{\"title\":\"a \\\"b\\\"\",\"description\":\"do a \\\"b\\\"\",\"required_skills\":[\"backend\"],\"depends_on\":[],\"complexity\":2,\"estimated_duration\":null},{\"title\":\"c\\nd\",\"description\":\"do c\\nd\",\"required_skills\":[\"x\",\"y/z\"],\"depends_on\":[0],\"complexity\":2,\"estimated_duration\":-5}],\"estimated_total_duration\":120,\"reasoning\":\"because\"}"
    );
    let mut wide = plan(vec![planned("a", vec![]), planned("b", vec![]), planned("c", vec![0, 1])]);
    wide.subtasks[2].complexity = 10;
    assert!(plan_text(&wide).contains("\"depends_on\":[0,1],\"complexity\":10,"));
}

#[test]
fn plans_become_subtasks_with_remapped_dependencies() {
    let service = PlannerService::new();
    let epic = task("Shop", None, true);
    let mut swarm = service
        .create_swarm_execution_with(&epic, &vec![planner(1, true)], Some(55), false, 0xe, 0)
        .unwrap();
    swarm.execution.update_status(SwarmExecutionStatus::Planned, 1);
    let mut p = plan(vec![
        planned("design", vec![]),
        planned("backend", vec![0]),
        planned("frontend", vec![0]),
        planned("integrate", vec![1, 2]),
    ]);
    p.subtasks[3].complexity = 9;
    let task_ids = vec![101, 102, 103, 104, 999];
    let subtask_ids = vec![201, 202, 203, 204, 999];

    let children = service
        .execute_plan_with(&mut swarm, &epic, &p, &task_ids, &subtask_ids, 7)
        .unwrap();
    assert_eq!(swarm.execution.status, SwarmExecutionStatus::Executing);
    assert_eq!(swarm.execution.execution_started_at, Some(7));
    assert_eq!(swarm.tasks.len(), 4);
    let ids: Vec<u128> = swarm.tasks.iter().map(|t| t.id).collect();
    assert_eq!(ids, vec![201, 202, 203, 204]);
    let deps: Vec<Vec<u128>> = swarm.tasks.iter().map(|t| t.depends_on.clone()).collect();
    assert_eq!(deps, vec![vec![], vec![201], vec![201], vec![202, 203]]);
    for (i, t) in swarm.tasks.iter().enumerate() {
        assert_eq!(t.sequence_order, i as i32);
        assert_eq!(t.task_id, 101 + i as u128);
        assert_eq!(t.swarm_execution_id, 0xe);
        assert_eq!(t.status, SwarmTaskStatus::Pending);
        assert_eq!(t.max_retries, 2);
        assert_eq!(t.retry_count, 0);
        assert_eq!(t.required_skills, vec!["backend".to_string()]);
        assert_eq!(t.created_at, 7);
        assert_eq!(t.get_dependencies(), t.depends_on);
        assert_eq!(t.get_required_skills(), t.required_skills);
    }
    assert_eq!(swarm.tasks[3].complexity, 9);
    assert!(swarm.is_well_formed());
    assert!(swarm.holds_invariant());

    assert_eq!(children.len(), 4);
    assert_eq!(children[1].id, 102);
    assert_eq!(children[1].create.title, "backend");
    assert_eq!(children[1].create.description.as_deref(), Some("do backend"));
    assert_eq!(children[1].create.project_id, 0x9);
    assert_eq!(children[1].create.parent_workspace_id, Some(55));
    assert_eq!(children[1].create.status, Some(TaskStatus::Todo));
    assert_eq!(children[1].create.is_epic, Some(false));
    assert_eq!(children[1].create.complexity, Some(TaskComplexity::Simple));
    assert_eq!(children[3].create.complexity, Some(TaskComplexity::Epic));

    // A second materialisation is refused.
    assert!(matches!(
        service.execute_plan_with(&mut swarm, &epic, &p, &task_ids, &subtask_ids, 8),
        Err(PlannerError::PlanningFailed(_))
    ));
    assert_eq!(swarm.tasks.len(), 4);
}

#[test]
fn materialisation_refuses_bad_plans_and_colliding_identifiers() {
    let service = PlannerService::new();
    let epic = task("Shop", None, true);
    let fresh = || {
        let mut swarm = service
            .create_swarm_execution_with(&epic, &vec![planner(1, true)], None, false, 0xe, 0)
            .unwrap();
        swarm.execution.update_status(SwarmExecutionStatus::Planned, 1);
        swarm
    };
    let good = plan(vec![planned("a", vec![]), planned("b", vec![0])]);

    let mut swarm = fresh();
    swarm.execution.status = SwarmExecutionStatus::Planning;
    match service.execute_plan_with(&mut swarm, &epic, &good, &vec![1, 2], &vec![3, 4], 0) {
        Err(PlannerError::PlanningFailed(m)) => assert_eq!(m, "Execution is not planned"),
        other => panic!("unexpected {other:?}"),
    }

    let mut swarm = fresh();
    let forward = plan(vec![planned("a", vec![1]), planned("b", vec![])]);
    assert!(matches!(
        service.execute_plan_with(&mut swarm, &epic, &forward, &vec![1, 2], &vec![3, 4], 0),
        Err(PlannerError::InvalidPlanOutput(_))
    ));
    assert!(swarm.tasks.is_empty());
    assert_eq!(swarm.execution.status, SwarmExecutionStatus::Planned);

    match service.execute_plan_with(&mut swarm, &epic, &good, &vec![1, 2], &vec![3, 3], 0) {
        Err(PlannerError::PlanningFailed(m)) => assert_eq!(m, "Identifiers collide"),
        other => panic!("unexpected {other:?}"),
    }
    assert!(all_distinct(&vec![1, 2, 3, 1], 3));
    assert!(!all_distinct(&vec![1, 2, 3, 1], 4));

    let drawn = service.execute_plan(&mut swarm, &epic, &good, 3).unwrap();
    assert_eq!(drawn.len(), 2);
    assert_eq!(swarm.tasks[1].depends_on, vec![swarm.tasks[0].id]);
    assert_eq!(swarm.tasks[0].task_id, drawn[0].id);
    assert!(swarm.is_well_formed());
}

#[test]
fn planner_defaults() {
    let service = PlannerService::new();
    assert_eq!(service.config.swarm_threshold, 2);
    assert_eq!(service.config.max_subtasks, 10);
    assert_eq!(service.config.default_reviewer_count, 3);
    assert_eq!(service.config.max_parallel_workers, 5);
}
