use swarm_orchestrator::models::agent_profile::{AgentProfile, AgentProfileWithSkills};
use swarm_orchestrator::models::task::TaskStatus;
use swarm_orchestrator::team::{
    CreateTeamExecution, Team, TeamError, TeamEvent, TeamExecution, TeamExecutionStatus,
    TeamManager, TeamProgress, TeamTask, TeamTaskStatus,
};

fn team_task(id: u128, order: i32, deps: Vec<u128>, max_retries: i32) -> TeamTask {
    TeamTask {
        id,
        team_execution_id: 0x7e,
        task_id: 1000 + id,
        workspace_id: None,
        sequence_order: order,
        depends_on: deps,
        required_skills: Vec::new(),
        assigned_agent_profile_id: None,
        status: TeamTaskStatus::Pending,
        branch_name: None,
        complexity: 1,
        duration_seconds: None,
        error_message: None,
        retry_count: 0,
        max_retries,
        started_at: None,
        completed_at: None,
        created_at: 0,
        updated_at: 0,
    }
}

fn executing_team(tasks: Vec<TeamTask>, workers: i32) -> Team {
    let mut execution = TeamExecution::create(
        &CreateTeamExecution {
            epic_task_id: 1,
            epic_workspace_id: None,
            planner_profile_id: None,
            max_parallel_workers: Some(workers),
        },
        0x7e,
        0,
    );
    execution.update_status(TeamExecutionStatus::Executing, 0);
    Team { execution, tasks }
}

fn team_worker(id: u128) -> AgentProfileWithSkills {
    AgentProfileWithSkills {
        profile: AgentProfile {
            id,
            name: format!("worker-{id}"),
            description: None,
            executor: "CODEX".to_string(),
            variant: None,
            executor_config: None,
            is_planner: false,
            is_reviewer: false,
            is_worker: true,
            max_concurrent_tasks: 1,
            priority: 0,
            active: true,
            created_at: 0,
            updated_at: 0,
        },
        skills: Vec::new(),
    }
}

fn team_statuses(team: &Team) -> Vec<TeamTaskStatus> {
    team.tasks.iter().map(|t| t.status).collect()
}

#[test]
fn a_team_execution_completes_without_review() {
    let manager = TeamManager::new();
    let pool = vec![team_worker(7)];
    let mut team = executing_team(
        vec![team_task(1, 0, vec![], 2), team_task(2, 1, vec![1], 2)],
        1,
    );
    assert!(team.is_well_formed());

    let tick = manager.execute_ready_tasks(&mut team, &pool, 1).unwrap();
    assert_eq!(tick.starts.len(), 1);
    assert_eq!(tick.starts[0].swarm_task_id, 1);
    assert_eq!(tick.starts[0].branch_name, "team/task-00000000");
    assert_eq!(team_statuses(&team), vec![TeamTaskStatus::Assigned, TeamTaskStatus::Pending]);
    // An assigned task still counts as pending in the team's snapshot.
    assert_eq!(
        team.get_progress(),
        TeamProgress { total: 2, completed: 0, running: 0, failed: 0, pending: 2, skipped: 0 }
    );

    let started = manager.start_task(&mut team, 1, 90, 2).unwrap();
    assert!(matches!(started.events[0], TeamEvent::TaskStarted { team_task_id: 1, agent_id: 7 }));
    assert_eq!(started.task_updates[0].status, TaskStatus::InProgress);

    let done = manager.complete_task(&mut team, 1, &pool, 3).unwrap();
    assert_eq!(done.starts.len(), 1);
    assert_eq!(done.starts[0].swarm_task_id, 2);
    match &done.events[1] {
        TeamEvent::ExecutionProgress { progress } => assert_eq!(
            *progress,
            TeamProgress { total: 2, completed: 1, running: 0, failed: 0, pending: 1, skipped: 0 }
        ),
        other => panic!("unexpected {other:?}"),
    }
    manager.start_task(&mut team, 2, 91, 4).unwrap();
    let last = manager.complete_task(&mut team, 2, &pool, 5).unwrap();
    assert_eq!(team.execution.status, TeamExecutionStatus::Completed);
    assert_eq!(team.execution.completed_at, Some(5));
    assert!(matches!(
        last.events.last(),
        Some(TeamEvent::ExecutionCompleted { team_execution_id: 0x7e })
    ));
    assert_eq!(manager.get_status(&team), TeamExecutionStatus::Completed);
    assert!(team.is_well_formed());
}

#[test]
fn a_team_execution_fails_with_the_majority_of_its_tasks() {
    let manager = TeamManager::new();
    let pool = vec![team_worker(7)];
    let mut team = executing_team(
        vec![team_task(1, 0, vec![], 0), team_task(2, 1, vec![1], 0), team_task(3, 2, vec![], 1)],
        3,
    );
    let tick = manager.execute_ready_tasks(&mut team, &pool, 1).unwrap();
    assert_eq!(tick.starts.len(), 2);
    manager.start_task(&mut team, 1, 90, 2).unwrap();
    manager.start_task(&mut team, 3, 91, 2).unwrap();

    let (retried, _) = manager.fail_task(&mut team, 3, "flaky", 3).unwrap();
    assert!(retried);
    assert_eq!(team.tasks[2].status, TeamTaskStatus::Pending);
    assert_eq!(team.tasks[2].retry_count, 1);

    let (retried, effects) = manager.fail_task(&mut team, 1, "broken", 4).unwrap();
    assert!(!retried);
    assert_eq!(team_statuses(&team)[..2], [TeamTaskStatus::Failed, TeamTaskStatus::Skipped]);
    assert_eq!(team.execution.status, TeamExecutionStatus::Executing);
    match &effects.events[0] {
        TeamEvent::TaskFailed { team_task_id, error } => {
            assert_eq!(*team_task_id, 1);
            assert_eq!(error, "broken");
        }
        other => panic!("unexpected {other:?}"),
    }
    let again = manager.execute_ready_tasks(&mut team, &pool, 5).unwrap();
    manager.start_task(&mut team, again.starts[0].swarm_task_id, 92, 6).unwrap();
    let (_, effects) = manager.fail_task(&mut team, 3, "broken again", 7).unwrap();
    assert_eq!(team.execution.status, TeamExecutionStatus::Failed);
    assert_eq!(team.execution.error_message.as_deref(), Some("Too many tasks failed"));
    assert!(matches!(effects.events.last(), Some(TeamEvent::ExecutionFailed { .. })));
}

#[test]
fn team_lifecycle_controls() {
    let manager = TeamManager::new();
    let pool = vec![team_worker(7)];
    let mut team = executing_team(vec![team_task(1, 0, vec![], 2), team_task(2, 1, vec![], 2)], 1);
    match manager.resume_execution(&mut team, &pool, 1) {
        Err(TeamError::InvalidStateTransition(m)) => {
            assert_eq!(m, "Can only resume planned/paused teams")
        }
        other => panic!("unexpected {other:?}"),
    }
    manager.pause_execution(&mut team, 2).unwrap();
    assert_eq!(team.execution.status, TeamExecutionStatus::Planned);
    match manager.pause_execution(&mut team, 3) {
        Err(TeamError::InvalidStateTransition(m)) => assert_eq!(m, "Can only pause executing teams"),
        other => panic!("unexpected {other:?}"),
    }
    match manager.execute_ready_tasks(&mut team, &pool, 3) {
        Err(TeamError::InvalidStateTransition(m)) => {
            assert_eq!(m, "Execution is not in executing state")
        }
        other => panic!("unexpected {other:?}"),
    }
    let resumed = manager.resume_execution(&mut team, &pool, 4).unwrap();
    assert_eq!(resumed.starts.len(), 1);
    assert!(matches!(
        manager.complete_task(&mut team, 99, &pool, 5),
        Err(TeamError::TaskNotFound(99))
    ));
    manager.cancel_execution(&mut team, 6);
    assert_eq!(team.execution.status, TeamExecutionStatus::Cancelled);
    assert_eq!(team_statuses(&team), vec![TeamTaskStatus::Assigned, TeamTaskStatus::Skipped]);

    let mut chain = executing_team(
        vec![team_task(1, 0, vec![], 0), team_task(2, 1, vec![1], 0), team_task(3, 2, vec![2], 0)],
        1,
    );
    manager.skip_dependent_tasks(&mut chain, 1, 7);
    assert_eq!(
        team_statuses(&chain),
        vec![TeamTaskStatus::Pending, TeamTaskStatus::Skipped, TeamTaskStatus::Skipped]
    );
}
