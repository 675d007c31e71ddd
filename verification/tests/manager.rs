use swarm_orchestrator::events::{Effects, SwarmError, SwarmEvent};
use swarm_orchestrator::manager::{branch_name, SwarmManager, SwarmManagerConfig};
use swarm_orchestrator::models::agent_profile::{
    AgentProfile, AgentProfileSkill, AgentProfileWithSkills,
};
use swarm_orchestrator::models::swarm_execution::{
    CreateSwarmExecution, SwarmExecution, SwarmExecutionStatus,
};
use swarm_orchestrator::models::swarm_task::{
    elapsed_seconds, CreateSwarmTask, SwarmProgress, SwarmTask, SwarmTaskStatus,
};
use swarm_orchestrator::models::task::TaskStatus;
use swarm_orchestrator::swarm::Swarm;

const EXECUTION: u128 = 0xe0;

fn subtask(id: u128, order: i32, deps: Vec<u128>, skills: Vec<&str>, max_retries: i32) -> SwarmTask {
    SwarmTask::create(
        CreateSwarmTask {
            swarm_execution_id: EXECUTION,
            task_id: 1000 + id,
            sequence_order: order,
            depends_on: Some(deps),
            required_skills: Some(skills.into_iter().map(String::from).collect()),
            complexity: None,
            max_retries: Some(max_retries),
        },
        id,
        0,
    )
}

fn executing(tasks: Vec<SwarmTask>, max_parallel_workers: i32) -> Swarm {
    let mut execution = SwarmExecution::create(
        &CreateSwarmExecution {
            epic_task_id: 1,
            epic_workspace_id: None,
            planner_profile_id: None,
            reviewer_count: Some(3),
            max_parallel_workers: Some(max_parallel_workers),
        },
        EXECUTION,
        0,
    );
    execution.update_status(SwarmExecutionStatus::Executing, 0);
    Swarm { execution, tasks, reviews: Vec::new(), votes: Vec::new() }
}

fn worker(id: u128, priority: i32, skills: Vec<&str>) -> AgentProfileWithSkills {
    AgentProfileWithSkills {
        profile: AgentProfile {
            id,
            name: format!("worker-{id}"),
            description: None,
            executor: "CODEX".to_string(),
            variant: None,
            executor_config: None,
            is_planner: false,
            is_reviewer: false,
            is_worker: true,
            max_concurrent_tasks: 1,
            priority,
            active: true,
            created_at: 0,
            updated_at: 0,
        },
        skills: skills
            .into_iter()
            .map(|name| AgentProfileSkill {
                agent_profile_id: id,
                agent_skill_id: 1,
                proficiency: 3,
                skill_name: Some(name.to_string()),
                skill_description: None,
            })
            .collect(),
    }
}

fn statuses(swarm: &Swarm) -> Vec<SwarmTaskStatus> {
    swarm.tasks.iter().map(|t| t.status).collect()
}

fn started_ids(effects: &Effects) -> Vec<u128> {
    effects.starts.iter().map(|s| s.swarm_task_id).collect()
}

fn run_started(manager: &SwarmManager, swarm: &mut Swarm, effects: &Effects, now: i64) {
    for order in &effects.starts {
        let done = manager.start_task(swarm, order.swarm_task_id, 500 + order.swarm_task_id, now);
        assert!(done.is_ok());
    }
}

#[test]
fn trivial_plan_runs_to_review() {
    let manager = SwarmManager::new();
    let pool = vec![worker(7, 0, vec![])];
    let mut swarm = executing(vec![subtask(1, 0, vec![], vec![], 2)], 3);
    assert!(swarm.is_well_formed());

    let tick = manager.execute_ready_tasks(&mut swarm, &pool, 10).unwrap();
    assert_eq!(started_ids(&tick), vec![1]);
    assert_eq!(tick.starts[0].agent_id, 7);
    assert_eq!(tick.starts[0].task_id, 1001);
    assert!(tick.events.is_empty());
    assert_eq!(swarm.tasks[0].status, SwarmTaskStatus::Assigned);
    assert_eq!(swarm.tasks[0].assigned_agent_profile_id, Some(7));
    assert_eq!(swarm.execution.status, SwarmExecutionStatus::Executing);

    let started = manager.start_task(&mut swarm, 1, 900, 20).unwrap();
    assert_eq!(swarm.tasks[0].status, SwarmTaskStatus::Running);
    assert_eq!(swarm.tasks[0].workspace_id, Some(900));
    assert_eq!(swarm.tasks[0].started_at, Some(20));
    assert_eq!(started.task_updates.len(), 1);
    assert_eq!(started.task_updates[0].task_id, 1001);
    assert_eq!(started.task_updates[0].status, TaskStatus::InProgress);
    assert!(matches!(
        started.events[0],
        SwarmEvent::TaskStarted { swarm_task_id: 1, agent_id: 7 }
    ));

    let done = manager.complete_task(&mut swarm, 1, &pool, 5020).unwrap();
    assert_eq!(swarm.tasks[0].status, SwarmTaskStatus::Completed);
    assert_eq!(swarm.tasks[0].duration_seconds, Some(5));
    assert_eq!(swarm.execution.status, SwarmExecutionStatus::Reviewing);
    assert_eq!(swarm.execution.review_started_at, Some(5020));
    assert_eq!(done.task_updates[0].status, TaskStatus::Done);
    assert_eq!(done.events.len(), 3);
    assert!(matches!(done.events[0], SwarmEvent::TaskCompleted { swarm_task_id: 1 }));
    match &done.events[1] {
        SwarmEvent::ExecutionProgress { progress } => {
            assert_eq!(
                *progress,
                SwarmProgress { total: 1, completed: 1, running: 0, failed: 0, pending: 0, skipped: 0 }
            );
        }
        other => panic!("unexpected event {other:?}"),
    }
    assert!(matches!(
        done.events[2],
        SwarmEvent::ConsensusRequired { swarm_execution_id: EXECUTION }
    ));
    assert!(swarm.is_well_formed());
    assert!(swarm.holds_invariant());
}

#[test]
fn fan_out_of_four_with_capacity_two() {
    let manager = SwarmManager::new();
    let pool = vec![worker(7, 0, vec![])];
    let tasks = vec![
        subtask(10, 0, vec![], vec![], 2),
        subtask(11, 1, vec![], vec![], 2),
        subtask(12, 2, vec![], vec![], 2),
        subtask(13, 3, vec![], vec![], 2),
    ];
    let mut swarm = executing(tasks, 2);

    let tick = manager.execute_ready_tasks(&mut swarm, &pool, 1).unwrap();
    assert_eq!(started_ids(&tick), vec![10, 11]);
    assert_eq!(
        statuses(&swarm),
        vec![
            SwarmTaskStatus::Assigned,
            SwarmTaskStatus::Assigned,
            SwarmTaskStatus::Pending,
            SwarmTaskStatus::Pending
        ]
    );
    assert!(swarm.holds_invariant());
    run_started(&manager, &mut swarm, &tick, 2);

    // A second tick with no free slot starts nothing.
    let idle = manager.execute_ready_tasks(&mut swarm, &pool, 3).unwrap();
    assert!(idle.starts.is_empty());
    assert!(idle.events.is_empty());

    let after_first = manager.complete_task(&mut swarm, 10, &pool, 4).unwrap();
    assert_eq!(started_ids(&after_first), vec![12]);
    run_started(&manager, &mut swarm, &after_first, 5);
    assert!(swarm.holds_invariant());

    let after_second = manager.complete_task(&mut swarm, 11, &pool, 6).unwrap();
    assert_eq!(started_ids(&after_second), vec![13]);
    run_started(&manager, &mut swarm, &after_second, 7);
    assert_eq!(swarm.active_count(), 2);

    manager.complete_task(&mut swarm, 12, &pool, 8).unwrap();
    assert_eq!(swarm.execution.status, SwarmExecutionStatus::Executing);
    let last = manager.complete_task(&mut swarm, 13, &pool, 9).unwrap();
    assert_eq!(statuses(&swarm), vec![SwarmTaskStatus::Completed; 4]);
    assert_eq!(swarm.execution.status, SwarmExecutionStatus::Reviewing);
    assert!(matches!(last.events.last(), Some(SwarmEvent::ConsensusRequired { .. })));
}

#[test]
fn diamond_with_middle_failure_skips_the_join() {
    let manager = SwarmManager::new();
    let pool = vec![worker(7, 0, vec![])];
    let tasks = vec![
        subtask(20, 0, vec![], vec![], 0),
        subtask(21, 1, vec![20], vec![], 0),
        subtask(22, 2, vec![20], vec![], 0),
        subtask(23, 3, vec![21, 22], vec![], 0),
    ];
    let mut swarm = executing(tasks, 3);
    assert!(swarm.is_well_formed());

    let tick = manager.execute_ready_tasks(&mut swarm, &pool, 1).unwrap();
    assert_eq!(started_ids(&tick), vec![20]);
    run_started(&manager, &mut swarm, &tick, 2);
    let fan = manager.complete_task(&mut swarm, 20, &pool, 3).unwrap();
    assert_eq!(started_ids(&fan), vec![21, 22]);
    run_started(&manager, &mut swarm, &fan, 4);

    let (retried, effects) = manager.fail_task(&mut swarm, 21, "compile error", 5).unwrap();
    assert!(!retried);
    assert_eq!(effects.task_updates[0].task_id, 1021);
    assert_eq!(effects.task_updates[0].status, TaskStatus::Cancelled);
    assert_eq!(effects.events.len(), 1);
    match &effects.events[0] {
        SwarmEvent::TaskFailed { swarm_task_id, error } => {
            assert_eq!(*swarm_task_id, 21);
            assert_eq!(error, "compile error");
        }
        other => panic!("unexpected event {other:?}"),
    }
    assert_eq!(swarm.tasks[1].status, SwarmTaskStatus::Failed);
    assert_eq!(swarm.tasks[1].error_message.as_deref(), Some("compile error"));
    assert_eq!(swarm.tasks[3].status, SwarmTaskStatus::Skipped);
    assert_eq!(swarm.tasks[3].workspace_id, None);
    assert_eq!(swarm.tasks[2].status, SwarmTaskStatus::Running);

    // One failure out of four is no majority: the Execution goes on.
    let progress = swarm.get_progress();
    assert_eq!(progress.failed, 1);
    assert_eq!(progress.total, 4);
    assert_eq!(swarm.execution.status, SwarmExecutionStatus::Executing);
    assert_eq!(swarm.execution.error_message, None);

    manager.complete_task(&mut swarm, 22, &pool, 6).unwrap();
    assert_eq!(
        statuses(&swarm),
        vec![
            SwarmTaskStatus::Completed,
            SwarmTaskStatus::Failed,
            SwarmTaskStatus::Completed,
            SwarmTaskStatus::Skipped
        ]
    );
    assert_ne!(swarm.execution.status, SwarmExecutionStatus::Failed);
    // A failed SubTask is neither completed nor skipped, so the review phase is not entered.
    assert!(!swarm.all_completed());
    assert_eq!(swarm.execution.status, SwarmExecutionStatus::Executing);
    assert!(swarm.is_well_formed());
    assert!(swarm.holds_invariant());
}

#[test]
fn majority_failure_fails_the_execution() {
    let manager = SwarmManager::new();
    let pool = vec![worker(7, 0, vec![])];
    let tasks = (0..5).map(|i| subtask(30 + i as u128, i, vec![], vec![], 0)).collect();
    let mut swarm = executing(tasks, 5);
    let tick = manager.execute_ready_tasks(&mut swarm, &pool, 1).unwrap();
    assert_eq!(started_ids(&tick), vec![30, 31, 32, 33, 34]);
    run_started(&manager, &mut swarm, &tick, 2);

    manager.fail_task(&mut swarm, 30, "boom", 3).unwrap();
    let (_, second) = manager.fail_task(&mut swarm, 31, "boom", 4).unwrap();
    assert_eq!(second.events.len(), 1);
    assert_eq!(swarm.execution.status, SwarmExecutionStatus::Executing);

    let (retried, third) = manager.fail_task(&mut swarm, 32, "boom", 5).unwrap();
    assert!(!retried);
    assert_eq!(swarm.get_progress().failed, 3);
    assert_eq!(swarm.execution.status, SwarmExecutionStatus::Failed);
    assert_eq!(swarm.execution.error_message.as_deref(), Some("Too many tasks failed"));
    assert_eq!(swarm.execution.completed_at, Some(5));
    assert_eq!(third.events.len(), 2);
    match &third.events[1] {
        SwarmEvent::ExecutionFailed { swarm_execution_id, error } => {
            assert_eq!(*swarm_execution_id, EXECUTION);
            assert_eq!(error, "Too many tasks failed");
        }
        other => panic!("unexpected event {other:?}"),
    }

    // Events that arrive after the Execution failed are discarded.
    let late = manager.complete_task(&mut swarm, 33, &pool, 6).unwrap();
    assert!(late.events.is_empty() && late.task_updates.is_empty() && late.starts.is_empty());
    assert_eq!(swarm.tasks[3].status, SwarmTaskStatus::Running);
}

#[test]
fn failure_with_retries_left_puts_the_subtask_back() {
    let manager = SwarmManager::new();
    let pool = vec![worker(7, 0, vec![])];
    let mut swarm = executing(vec![subtask(40, 0, vec![], vec![], 2)], 1);
    let tick = manager.execute_ready_tasks(&mut swarm, &pool, 1).unwrap();
    run_started(&manager, &mut swarm, &tick, 2);
    assert!(swarm.tasks[0].branch_name.is_some());

    let (retried, effects) = manager.fail_task(&mut swarm, 40, "flaky", 3).unwrap();
    assert!(retried);
    assert!(effects.events.is_empty() && effects.task_updates.is_empty());
    let t = &swarm.tasks[0];
    assert_eq!(t.status, SwarmTaskStatus::Pending);
    assert_eq!(t.retry_count, 1);
    assert_eq!(t.workspace_id, None);
    assert_eq!(t.branch_name, None);
    assert_eq!(t.assigned_agent_profile_id, None);
    assert_eq!(t.started_at, None);
    assert_eq!(t.completed_at, None);
    assert_eq!(t.error_message, None);

    // The next tick dispatches it again; after two retries the third failure is final.
    let again = manager.execute_ready_tasks(&mut swarm, &pool, 4).unwrap();
    assert_eq!(started_ids(&again), vec![40]);
    run_started(&manager, &mut swarm, &again, 5);
    assert!(manager.fail_task(&mut swarm, 40, "flaky", 6).unwrap().0);
    let third = manager.execute_ready_tasks(&mut swarm, &pool, 7).unwrap();
    run_started(&manager, &mut swarm, &third, 8);
    let (retried, _) = manager.fail_task(&mut swarm, 40, "flaky", 9).unwrap();
    assert!(!retried);
    assert_eq!(swarm.tasks[0].status, SwarmTaskStatus::Failed);
    assert_eq!(swarm.tasks[0].retry_count, 2);
}

#[test]
fn replayed_completion_changes_nothing() {
    let manager = SwarmManager::new();
    let pool = vec![worker(7, 0, vec![])];
    let mut swarm = executing(
        vec![subtask(50, 0, vec![], vec![], 2), subtask(51, 1, vec![50], vec![], 2)],
        1,
    );
    let tick = manager.execute_ready_tasks(&mut swarm, &pool, 1).unwrap();
    run_started(&manager, &mut swarm, &tick, 2);
    manager.complete_task(&mut swarm, 50, &pool, 3).unwrap();
    let before_progress = swarm.get_progress();
    let before_statuses = statuses(&swarm);
    let before_updated = swarm.tasks[0].updated_at;

    let replay = manager.complete_task(&mut swarm, 50, &pool, 99).unwrap();
    assert!(replay.events.is_empty());
    assert!(replay.starts.is_empty());
    assert!(replay.task_updates.is_empty());
    assert_eq!(swarm.get_progress(), before_progress);
    assert_eq!(statuses(&swarm), before_statuses);
    assert_eq!(swarm.tasks[0].updated_at, before_updated);
}

#[test]
fn cascading_skip_reaches_every_descendant() {
    let manager = SwarmManager::new();
    // 60 <- 61 <- 62 <- 63, and 64 independent.
    let tasks = vec![
        subtask(60, 0, vec![], vec![], 0),
        subtask(61, 1, vec![60], vec![], 0),
        subtask(62, 2, vec![61], vec![], 0),
        subtask(63, 3, vec![62, 64], vec![], 0),
        subtask(64, 4, vec![], vec![], 0),
    ];
    let mut swarm = executing(tasks, 5);
    // 63 names 64, which stands after it: that is no well-formed Execution.
    assert!(!swarm.is_well_formed());
    let tasks = vec![
        subtask(60, 0, vec![], vec![], 0),
        subtask(64, 1, vec![], vec![], 0),
        subtask(61, 2, vec![60], vec![], 0),
        subtask(62, 3, vec![61], vec![], 0),
        subtask(63, 4, vec![62, 64], vec![], 0),
    ];
    swarm.tasks = tasks;
    assert!(swarm.is_well_formed());

    manager.skip_dependent_tasks(&mut swarm, 60, 7);
    assert_eq!(
        statuses(&swarm),
        vec![
            SwarmTaskStatus::Pending,
            SwarmTaskStatus::Pending,
            SwarmTaskStatus::Skipped,
            SwarmTaskStatus::Skipped,
            SwarmTaskStatus::Skipped
        ]
    );
    assert_eq!(swarm.tasks[2].updated_at, 7);
    assert_eq!(swarm.tasks[1].updated_at, 0);
}

#[test]
fn pause_and_resume_keep_the_ready_set() {
    let manager = SwarmManager::new();
    let pool = vec![worker(7, 0, vec![])];
    let tasks = vec![
        subtask(70, 0, vec![], vec![], 2),
        subtask(71, 1, vec![], vec![], 2),
        subtask(72, 2, vec![70], vec![], 2),
    ];
    let mut swarm = executing(tasks, 1);
    let tick = manager.execute_ready_tasks(&mut swarm, &pool, 1).unwrap();
    run_started(&manager, &mut swarm, &tick, 2);
    let before = statuses(&swarm);

    manager.pause_execution(&mut swarm, 3).unwrap();
    assert_eq!(swarm.execution.status, SwarmExecutionStatus::Planned);
    assert_eq!(statuses(&swarm), before);
    assert!(matches!(
        manager.execute_ready_tasks(&mut swarm, &pool, 4),
        Err(SwarmError::InvalidStateTransition(_))
    ));
    assert!(matches!(
        manager.pause_execution(&mut swarm, 4),
        Err(SwarmError::InvalidStateTransition(_))
    ));

    // A completion that arrives during the pause is honoured, but nothing is dispatched.
    let done = manager.complete_task(&mut swarm, 70, &pool, 5).unwrap();
    assert!(done.starts.is_empty());
    assert_eq!(done.events.len(), 2);
    assert_eq!(swarm.tasks[0].status, SwarmTaskStatus::Completed);
    assert_eq!(swarm.tasks[1].status, SwarmTaskStatus::Pending);

    let resumed = manager.resume_execution(&mut swarm, &pool, 6).unwrap();
    assert_eq!(swarm.execution.status, SwarmExecutionStatus::Executing);
    assert_eq!(started_ids(&resumed), vec![71]);
    assert!(matches!(
        manager.resume_execution(&mut swarm, &pool, 7),
        Err(SwarmError::InvalidStateTransition(_))
    ));
}

#[test]
fn cancel_skips_what_has_not_started() {
    let manager = SwarmManager::new();
    let pool = vec![worker(7, 0, vec![])];
    let mut tasks = vec![
        subtask(80, 0, vec![], vec![], 2),
        subtask(81, 1, vec![], vec![], 2),
        subtask(82, 2, vec![80], vec![], 2),
    ];
    tasks[2].status = SwarmTaskStatus::Blocked;
    let mut swarm = executing(tasks, 1);
    let tick = manager.execute_ready_tasks(&mut swarm, &pool, 1).unwrap();
    run_started(&manager, &mut swarm, &tick, 2);

    manager.cancel_execution(&mut swarm, 9);
    assert_eq!(swarm.execution.status, SwarmExecutionStatus::Cancelled);
    assert_eq!(swarm.execution.completed_at, Some(9));
    assert_eq!(
        statuses(&swarm),
        vec![SwarmTaskStatus::Running, SwarmTaskStatus::Skipped, SwarmTaskStatus::Skipped]
    );
    // The event of the SubTask that still ran is discarded.
    let late = manager.complete_task(&mut swarm, 80, &pool, 10).unwrap();
    assert!(late.events.is_empty());
    assert_eq!(swarm.tasks[0].status, SwarmTaskStatus::Running);
    let (retried, late) = manager.fail_task(&mut swarm, 80, "late", 11).unwrap();
    assert!(!retried && late.events.is_empty());
}

#[test]
fn operations_refuse_what_they_cannot_do() {
    let manager = SwarmManager::new();
    let pool = vec![worker(7, 0, vec![])];
    let mut swarm = executing(vec![subtask(90, 0, vec![], vec![], 2)], 1);

    assert!(matches!(
        manager.complete_task(&mut swarm, 404, &pool, 1),
        Err(SwarmError::TaskNotFound(404))
    ));
    assert!(matches!(
        manager.fail_task(&mut swarm, 404, "x", 1),
        Err(SwarmError::TaskNotFound(404))
    ));
    assert!(matches!(
        manager.start_task(&mut swarm, 404, 1, 1),
        Err(SwarmError::TaskNotFound(404))
    ));
    // A pending SubTask can neither start, complete nor fail.
    match manager.start_task(&mut swarm, 90, 1, 1) {
        Err(SwarmError::InvalidStateTransition(m)) => assert_eq!(m, "SubTask is not assigned"),
        other => panic!("unexpected {other:?}"),
    }
    match manager.complete_task(&mut swarm, 90, &pool, 1) {
        Err(SwarmError::InvalidStateTransition(m)) => assert_eq!(m, "SubTask is not running"),
        other => panic!("unexpected {other:?}"),
    }
    assert!(matches!(
        manager.fail_task(&mut swarm, 90, "x", 1),
        Err(SwarmError::InvalidStateTransition(_))
    ));
    assert_eq!(swarm.tasks[0].status, SwarmTaskStatus::Pending);

    swarm.execution.status = SwarmExecutionStatus::Reviewing;
    match manager.execute_ready_tasks(&mut swarm, &pool, 1) {
        Err(SwarmError::InvalidStateTransition(m)) => {
            assert_eq!(m, "Execution is not in executing state")
        }
        other => panic!("unexpected {other:?}"),
    }
}

#[test]
fn tick_without_workers_starts_nothing() {
    let manager = SwarmManager::new();
    let mut idle = worker(7, 0, vec![]);
    idle.profile.active = false;
    let mut planner_only = worker(8, 0, vec![]);
    planner_only.profile.is_worker = false;
    let pool = vec![idle, planner_only];
    let mut swarm = executing(vec![subtask(1, 0, vec![], vec![], 2)], 3);
    let tick = manager.execute_ready_tasks(&mut swarm, &pool, 1).unwrap();
    assert!(tick.starts.is_empty());
    assert_eq!(swarm.tasks[0].status, SwarmTaskStatus::Pending);
    assert!(matches!(
        manager.find_best_agent(&vec![], &pool),
        Err(SwarmError::NoAvailableWorkers)
    ));
    assert!(matches!(
        manager.find_best_agent(&vec!["rust".to_string()], &Vec::new()),
        Err(SwarmError::NoAvailableWorkers)
    ));
}

#[test]
fn tick_on_an_execution_without_subtasks_moves_to_review() {
    let manager = SwarmManager::new();
    let mut swarm = executing(Vec::new(), 2);
    let tick = manager.execute_ready_tasks(&mut swarm, &Vec::new(), 1).unwrap();
    assert_eq!(swarm.execution.status, SwarmExecutionStatus::Reviewing);
    assert_eq!(tick.events.len(), 1);
}

#[test]
fn assignment_prefers_skills_then_priority_then_identifier() {
    let manager = SwarmManager::new();
    let pool = vec![
        worker(5, 9, vec!["docs"]),
        worker(4, 1, vec!["rust", "sql"]),
        worker(3, 1, vec!["rust", "sql", "go"]),
        worker(2, 7, vec!["rust"]),
    ];
    let need = |names: Vec<&str>| names.into_iter().map(String::from).collect::<Vec<String>>();
    // Two matching skills beat one, whatever the priority; among equals the lower identifier wins.
    assert_eq!(manager.find_best_agent(&need(vec!["rust", "sql"]), &pool).unwrap(), 2);
    // One match each for 4, 3 and 2: the higher priority wins.
    assert_eq!(manager.find_best_agent(&need(vec!["rust"]), &pool).unwrap(), 3);
    // No skill required: the highest priority.
    assert_eq!(manager.find_best_agent(&need(vec![]), &pool).unwrap(), 0);
    // Nobody matches: matching is advisory, the highest priority is still picked.
    assert_eq!(manager.find_best_agent(&need(vec!["cobol"]), &pool).unwrap(), 0);
    // A skill that is required twice counts once.
    assert_eq!(manager.find_best_agent(&need(vec!["docs", "docs", "rust"]), &pool).unwrap(), 0);
    assert_eq!(
        swarm_orchestrator::assignment::skill_score(&need(vec!["rust", "rust", "go"]), &pool[2]),
        2
    );
}

#[test]
fn tick_assigns_by_the_required_skills_of_each_subtask() {
    let manager = SwarmManager::new();
    let pool = vec![worker(1, 0, vec!["backend"]), worker(2, 0, vec!["frontend"])];
    let tasks = vec![
        subtask(1, 0, vec![], vec!["frontend"], 2),
        subtask(2, 1, vec![], vec!["backend"], 2),
    ];
    let mut swarm = executing(tasks, 2);
    let tick = manager.execute_ready_tasks(&mut swarm, &pool, 1).unwrap();
    assert_eq!(tick.starts[0].agent_id, 2);
    assert_eq!(tick.starts[1].agent_id, 1);
}

#[test]
fn branch_names_carry_the_short_identifier() {
    let id: u128 = 0xa1a2a3a4_b1b2_c1c2_d1d2_d3d4d5d6d7d8;
    assert_eq!(branch_name("swarm", id), "swarm/task-a1a2a3a4");
    assert_eq!(branch_name("team", 0x0000_00ff << 96), "team/task-000000ff");
    assert_eq!(swarm_orchestrator::ident::short_id(0), "00000000");

    let manager = SwarmManager::with_config(SwarmManagerConfig {
        max_parallel_tasks: 5,
        task_timeout_seconds: 3600,
        retry_delay_seconds: 30,
        branch_prefix: "feature".to_string(),
    });
    let pool = vec![worker(7, 0, vec![])];
    let mut swarm = executing(vec![subtask(id, 0, vec![], vec![], 2)], 1);
    let tick = manager.execute_ready_tasks(&mut swarm, &pool, 1).unwrap();
    assert_eq!(tick.starts[0].branch_name, "feature/task-a1a2a3a4");
    assert_eq!(swarm.tasks[0].branch_name.as_deref(), Some("feature/task-a1a2a3a4"));
}

#[test]
fn manager_defaults() {
    let manager = SwarmManager::new();
    assert_eq!(manager.config.max_parallel_tasks, 5);
    assert_eq!(manager.config.task_timeout_seconds, 3600);
    assert_eq!(manager.config.retry_delay_seconds, 30);
    assert_eq!(manager.config.branch_prefix, "swarm");
    let swarm = executing(Vec::new(), 2);
    assert_eq!(manager.get_status(&swarm), SwarmExecutionStatus::Executing);
    assert_eq!(
        manager.get_progress(&swarm),
        SwarmProgress { total: 0, completed: 0, running: 0, failed: 0, pending: 0, skipped: 0 }
    );
}

#[test]
fn elapsed_seconds_round_towards_zero() {
    assert_eq!(elapsed_seconds(1_000, 3_999), Some(2));
    assert_eq!(elapsed_seconds(0, 0), Some(0));
    assert_eq!(elapsed_seconds(5_000, 3_001), Some(-1));
    assert_eq!(elapsed_seconds(5_000, 4_001), Some(0));
    assert_eq!(elapsed_seconds(i64::MIN, i64::MAX), None);
    assert_eq!(elapsed_seconds(0, 2_147_483_647_999), Some(i32::MAX));
    assert_eq!(elapsed_seconds(0, 2_147_483_648_000), None);
}

#[test]
fn ready_and_running_lists() {
    let manager = SwarmManager::new();
    let pool = vec![worker(7, 0, vec![])];
    let tasks = vec![
        subtask(1, 0, vec![], vec![], 2),
        subtask(2, 1, vec![1], vec![], 2),
        subtask(3, 2, vec![], vec![], 2),
        subtask(4, 3, vec![404], vec![], 2),
    ];
    let mut swarm = executing(tasks, 1);
    assert_eq!(swarm.find_ready_tasks(), vec![0, 2]);
    assert!(swarm.find_running_tasks().is_empty());
    assert!(swarm.is_ready(0) && !swarm.is_ready(1) && !swarm.is_ready(3));
    assert_eq!(swarm.find_task(3), Some(2));
    assert_eq!(swarm.find_task(9), None);
    // A dependency that names no SubTask at all keeps its SubTask from ever being ready.
    assert!(!swarm.is_well_formed());
    swarm.tasks.pop();

    let tick = manager.execute_ready_tasks(&mut swarm, &pool, 1).unwrap();
    run_started(&manager, &mut swarm, &tick, 2);
    assert_eq!(swarm.find_ready_tasks(), vec![2]);
    assert_eq!(swarm.find_running_tasks(), vec![0]);
    assert!(swarm.holds_task(1001));
    assert!(swarm.holds_task(1003));
    assert!(!swarm.holds_task(5));
    manager.complete_task(&mut swarm, 1, &pool, 3).unwrap();
    assert!(!swarm.holds_task(1001));
    // The completion ticked: the SubTask that waited for it took the free slot.
    assert_eq!(swarm.tasks[1].status, SwarmTaskStatus::Assigned);
    assert_eq!(swarm.find_ready_tasks(), vec![2]);
    assert_eq!(swarm.find_running_tasks(), vec![1]);
    assert!(swarm.is_dep_completed(1) && !swarm.is_dep_completed(3));
    assert_eq!(swarm.count_status(SwarmTaskStatus::Completed), 1);
}

#[test]
fn inconsistent_executions_are_recognised() {
    let good = executing(vec![subtask(1, 0, vec![], vec![], 2), subtask(2, 1, vec![1], vec![], 2)], 1);
    assert!(good.is_well_formed());

    let duplicate = executing(vec![subtask(1, 0, vec![], vec![], 2), subtask(1, 1, vec![], vec![], 2)], 1);
    assert!(!duplicate.is_well_formed());
    let self_loop = executing(vec![subtask(1, 0, vec![1], vec![], 2)], 1);
    assert!(!self_loop.is_well_formed());
    let cycle = executing(vec![subtask(1, 0, vec![2], vec![], 2), subtask(2, 1, vec![1], vec![], 2)], 1);
    assert!(!cycle.is_well_formed());
    let out_of_order = executing(vec![subtask(1, 5, vec![], vec![], 2), subtask(2, 1, vec![], vec![], 2)], 1);
    assert!(!out_of_order.is_well_formed());

    let mut wrong_threshold = executing(Vec::new(), 1);
    wrong_threshold.execution.consensus_threshold = 2;
    assert!(!wrong_threshold.is_well_formed());
    let mut wrong_counter = executing(Vec::new(), 1);
    wrong_counter.execution.consensus_approvals = 1;
    assert!(!wrong_counter.is_well_formed());

    // Bounded parallelism and the dependency rule are checked apart.
    let mut crowded = executing(vec![subtask(1, 0, vec![], vec![], 2), subtask(2, 1, vec![1], vec![], 2)], 1);
    crowded.tasks[1].status = SwarmTaskStatus::Running;
    assert!(crowded.is_well_formed());
    assert!(!crowded.deps_respected());
    assert!(!crowded.holds_invariant());
    crowded.tasks[0].status = SwarmTaskStatus::Completed;
    assert!(crowded.holds_invariant());
    crowded.tasks[0].status = SwarmTaskStatus::Running;
    crowded.tasks[1].depends_on.clear();
    assert!(crowded.deps_respected() && !crowded.holds_invariant());
}
