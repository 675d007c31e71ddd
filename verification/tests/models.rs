use swarm_orchestrator::json::{decode_ids, decode_strings, encode_ids, encode_strings};
use swarm_orchestrator::models::agent_profile::AgentProfile;
use swarm_orchestrator::models::consensus_review::ConsensusVote;
use swarm_orchestrator::models::swarm_execution::{
    CreateSwarmExecution, SwarmExecution, SwarmExecutionStatus,
};
use swarm_orchestrator::models::swarm_task::{
    CreateSwarmTask, SwarmTask, SwarmTaskStatus,
};
use swarm_orchestrator::models::task::{is_blank, CreateTask, Task, TaskComplexity, TaskStatus};
use swarm_orchestrator::server::swarm::AddSkillRequest;
use swarm_orchestrator::team::{
    all_completed, team_progress, CreateTeamExecution, TeamExecution, TeamExecutionStatus,
    TeamManager, TeamProgress, TeamTaskStatus,
};
use swarm_orchestrator::text::{decimal, signed_decimal, to_chars, contains_str};

fn new_execution(reviewer_count: Option<i32>, workers: Option<i32>) -> SwarmExecution {
    SwarmExecution::create(
        &CreateSwarmExecution {
            epic_task_id: 1,
            epic_workspace_id: Some(2),
            planner_profile_id: Some(3),
            reviewer_count,
            max_parallel_workers: workers,
        },
        9,
        100,
    )
}

#[test]
fn status_wire_values() {
    let execution = [
        (SwarmExecutionStatus::Planning, "planning"),
        (SwarmExecutionStatus::Planned, "planned"),
        (SwarmExecutionStatus::Executing, "executing"),
        (SwarmExecutionStatus::Reviewing, "reviewing"),
        (SwarmExecutionStatus::Merging, "merging"),
        (SwarmExecutionStatus::Completed, "completed"),
        (SwarmExecutionStatus::Failed, "failed"),
        (SwarmExecutionStatus::Cancelled, "cancelled"),
    ];
    for (status, text) in execution {
        assert_eq!(status.as_str(), text);
    }
    let subtask = [
        (SwarmTaskStatus::Pending, "pending"),
        (SwarmTaskStatus::Blocked, "blocked"),
        (SwarmTaskStatus::Assigned, "assigned"),
        (SwarmTaskStatus::Running, "running"),
        (SwarmTaskStatus::Completed, "completed"),
        (SwarmTaskStatus::Failed, "failed"),
        (SwarmTaskStatus::Skipped, "skipped"),
    ];
    for (status, text) in subtask {
        assert_eq!(status.as_str(), text);
    }
    let votes = [
        (ConsensusVote::Pending, "pending"),
        (ConsensusVote::Approve, "approve"),
        (ConsensusVote::Reject, "reject"),
        (ConsensusVote::Abstain, "abstain"),
    ];
    for (vote, text) in votes {
        assert_eq!(vote.as_str(), text);
    }
    assert_eq!(TeamExecutionStatus::Executing.as_str(), "executing");
    assert_eq!(TeamTaskStatus::Skipped.as_str(), "skipped");
    assert_eq!(SwarmExecutionStatus::default(), SwarmExecutionStatus::Planning);
    assert_eq!(SwarmTaskStatus::default(), SwarmTaskStatus::Pending);
    assert_eq!(ConsensusVote::default(), ConsensusVote::Pending);
    assert_eq!(TaskStatus::default(), TaskStatus::Todo);
    assert_eq!(TaskComplexity::default(), TaskComplexity::Moderate);
    assert!(SwarmTaskStatus::Assigned.is_active() && SwarmTaskStatus::Running.is_active());
    assert!(!SwarmTaskStatus::Pending.is_active());
    assert!(SwarmTaskStatus::Skipped.is_settled() && !SwarmTaskStatus::Failed.is_settled());
    assert!(SwarmExecutionStatus::Merging.is_live() && !SwarmExecutionStatus::Cancelled.is_live());
}

#[test]
fn executions_are_created_with_defaults() {
    let e = new_execution(None, None);
    assert_eq!(e.reviewer_count, 3);
    assert_eq!(e.consensus_threshold, 1);
    assert_eq!(e.max_parallel_workers, 3);
    assert_eq!(e.status, SwarmExecutionStatus::Planning);
    assert_eq!((e.consensus_approvals, e.consensus_rejections), (0, 0));
    assert_eq!((e.created_at, e.updated_at), (100, 100));
    assert_eq!(e.epic_workspace_id, Some(2));
    let e = new_execution(Some(4), Some(8));
    assert_eq!(e.consensus_threshold, 3);
    assert_eq!(e.max_parallel_workers, 8);
}

#[test]
fn status_changes_stamp_their_phase() {
    let mut e = new_execution(None, None);
    e.update_status(SwarmExecutionStatus::Planned, 1);
    assert_eq!((e.planned_at, e.updated_at), (Some(1), 1));
    e.update_status(SwarmExecutionStatus::Executing, 2);
    assert_eq!(e.execution_started_at, Some(2));
    e.update_status(SwarmExecutionStatus::Reviewing, 3);
    assert_eq!(e.review_started_at, Some(3));
    e.update_status(SwarmExecutionStatus::Merging, 4);
    assert_eq!(e.merge_started_at, Some(4));
    assert_eq!(e.completed_at, None);
    e.update_status(SwarmExecutionStatus::Completed, 5);
    assert_eq!(e.completed_at, Some(5));
    e.update_status(SwarmExecutionStatus::Planning, 6);
    assert_eq!((e.status, e.updated_at, e.planned_at), (SwarmExecutionStatus::Planning, 6, Some(1)));
    e.set_planner_output("{}".to_string(), 7);
    assert_eq!(e.planner_output.as_deref(), Some("{}"));
    e.set_error("broken".to_string(), 8);
    assert_eq!(e.status, SwarmExecutionStatus::Failed);
    assert_eq!(e.error_message.as_deref(), Some("broken"));
    assert_eq!(e.completed_at, Some(8));
}

#[test]
fn counters_and_thresholds() {
    let mut e = new_execution(Some(4), None);
    assert!(!e.has_consensus() && !e.consensus_failed());
    assert_eq!(e.increment_rejection(1), 1);
    assert!(!e.consensus_failed());
    assert_eq!(e.increment_rejection(2), 2);
    assert!(e.consensus_failed());
    assert_eq!(e.increment_approval(3), 1);
    assert_eq!(e.increment_approval(4), 2);
    assert!(!e.has_consensus());
    assert_eq!(e.increment_approval(5), 3);
    assert!(e.has_consensus());
    assert_eq!(e.updated_at, 5);
}

#[test]
fn subtasks_are_created_with_defaults() {
    let t = SwarmTask::create(
        CreateSwarmTask {
            swarm_execution_id: 1,
            task_id: 2,
            sequence_order: 3,
            depends_on: None,
            required_skills: None,
            complexity: None,
            max_retries: None,
        },
        4,
        5,
    );
    assert_eq!(t.complexity, 3);
    assert_eq!(t.max_retries, 2);
    assert_eq!(t.retry_count, 0);
    assert_eq!(t.status, SwarmTaskStatus::Pending);
    assert!(t.depends_on.is_empty() && t.required_skills.is_empty());
    assert_eq!((t.id, t.task_id, t.sequence_order, t.created_at), (4, 2, 3, 5));

    let mut t = t;
    t.assign_agent(9, "swarm/task-00000000".to_string(), 6);
    assert_eq!(t.status, SwarmTaskStatus::Assigned);
    t.start(11, 1_000);
    assert_eq!((t.status, t.workspace_id, t.started_at), (SwarmTaskStatus::Running, Some(11), Some(1_000)));
    t.complete(61_500);
    assert_eq!((t.status, t.duration_seconds, t.completed_at), (SwarmTaskStatus::Completed, Some(60), Some(61_500)));
    t.fail("late".to_string(), 7);
    assert_eq!(t.status, SwarmTaskStatus::Failed);
    assert!(t.retry(8));
    assert!(t.retry(9));
    assert_eq!(t.retry_count, 2);
    assert!(!t.retry(10));
    assert_eq!(t.updated_at, 9);
    t.skip(11);
    assert_eq!((t.status, t.updated_at), (SwarmTaskStatus::Skipped, 11));
}

#[test]
fn lists_travel_as_json() {
    let names = Some(vec!["backend".to_string(), "a \"b\"".to_string()]);
    let text = encode_strings(&names);
    assert_eq!(text.as_deref(), Some(r#"["backend","a \"b\""]"#));
    assert_eq!(decode_strings(&text), names.clone().unwrap());
    assert_eq!(encode_strings(&None), None);
    assert_eq!(encode_strings(&Some(Vec::new())).as_deref(), Some("[]"));
    assert!(decode_strings(&None).is_empty());
    assert!(decode_strings(&Some("not json".to_string())).is_empty());
    assert!(decode_strings(&Some("[1,2]".to_string())).is_empty());
    assert_eq!(decode_strings(&Some(" [ \"x\" ] ".to_string())), vec!["x".to_string()]);

    let ids = Some(vec![1u128, 0x67e55044_10b1_426f_9247_bb680e5fe0c8]);
    let text = encode_ids(&ids);
    assert_eq!(
        text.as_deref(),
        Some(r#"["00000000-0000-0000-0000-000000000001","67e55044-10b1-426f-9247-bb680e5fe0c8"]"#)
    );
    assert_eq!(decode_ids(&text), ids.unwrap());
    assert_eq!(encode_ids(&None), None);
    assert!(decode_ids(&None).is_empty());
    assert!(decode_ids(&Some("[\"nope\"]".to_string())).is_empty());
}

#[test]
fn task_requests() {
    let plain = CreateTask::from_title_description(7, "Title".to_string(), Some("Text".to_string()));
    assert_eq!(plain.project_id, 7);
    assert_eq!(plain.status, Some(TaskStatus::Todo));
    assert_eq!(plain.is_epic, None);
    let epic = plain.as_epic();
    assert_eq!(epic.is_epic, Some(true));
    assert_eq!(epic.complexity, Some(TaskComplexity::Epic));
    assert_eq!(epic.title, "Title");
    assert_eq!(epic.description.as_deref(), Some("Text"));
    assert_eq!(TaskComplexity::from_rating(1), TaskComplexity::Trivial);
    assert_eq!(TaskComplexity::from_rating(2), TaskComplexity::Simple);
    assert_eq!(TaskComplexity::from_rating(3), TaskComplexity::Moderate);
    assert_eq!(TaskComplexity::from_rating(4), TaskComplexity::Complex);
    assert_eq!(TaskComplexity::from_rating(5), TaskComplexity::Epic);
    assert_eq!(TaskComplexity::from_rating(0), TaskComplexity::Epic);
    assert_eq!(TaskComplexity::Complex.label(), "Complex");
}

#[test]
fn profiles_take_part_only_while_active() {
    let mut p = AgentProfile {
        id: 1,
        name: "a".to_string(),
        description: None,
        executor: "CODEX".to_string(),
        variant: None,
        executor_config: None,
        is_planner: true,
        is_reviewer: true,
        is_worker: true,
        max_concurrent_tasks: 1,
        priority: 0,
        active: true,
        created_at: 0,
        updated_at: 0,
    };
    assert!(p.is_available_worker() && p.is_available_reviewer() && p.is_available_planner());
    p.active = false;
    assert!(!p.is_available_worker() && !p.is_available_reviewer() && !p.is_available_planner());
    p.active = true;
    p.is_worker = false;
    assert!(!p.is_available_worker() && p.is_available_planner());
}

#[test]
fn numbers_and_text() {
    assert_eq!(decimal(0), "0");
    assert_eq!(decimal(7), "7");
    assert_eq!(decimal(10), "10");
    assert_eq!(decimal(u64::MAX), "18446744073709551615");
    assert_eq!(signed_decimal(0), "0");
    assert_eq!(signed_decimal(-1), "-1");
    assert_eq!(signed_decimal(i32::MIN), "-2147483648");
    assert_eq!(signed_decimal(i32::MAX), "2147483647");
    assert_eq!(to_chars("h\u{e9}y"), vec!['h', '\u{e9}', 'y']);
    let hay = to_chars("the engine room");
    assert!(contains_str(&hay, "engine"));
    assert!(contains_str(&hay, "room"));
    assert!(contains_str(&hay, "the"));
    assert!(contains_str(&hay, ""));
    assert!(!contains_str(&hay, "rooms"));
    assert!(!contains_str(&to_chars(""), "a"));
    assert!(contains_str(&to_chars(""), ""));
}

#[test]
fn team_executions() {
    let mut e = TeamExecution::create(
        &CreateTeamExecution {
            epic_task_id: 1,
            epic_workspace_id: None,
            planner_profile_id: None,
            max_parallel_workers: None,
        },
        2,
        3,
    );
    assert_eq!(e.max_parallel_workers, 3);
    assert_eq!(e.status, TeamExecutionStatus::Planning);
    e.update_status(TeamExecutionStatus::Planned, 4);
    assert_eq!(e.planned_at, Some(4));
    e.update_status(TeamExecutionStatus::Executing, 5);
    assert_eq!(e.execution_started_at, Some(5));
    e.update_status(TeamExecutionStatus::Cancelled, 6);
    assert_eq!((e.completed_at, e.planned_at), (Some(6), Some(4)));

    let statuses = vec![
        TeamTaskStatus::Pending,
        TeamTaskStatus::Assigned,
        TeamTaskStatus::Running,
        TeamTaskStatus::Completed,
        TeamTaskStatus::Failed,
        TeamTaskStatus::Failed,
        TeamTaskStatus::Skipped,
    ];
    let progress = team_progress(&statuses);
    assert_eq!(
        progress,
        TeamProgress { total: 7, completed: 1, running: 1, failed: 2, pending: 2, skipped: 1 }
    );
    assert!(!all_completed(&statuses));
    assert!(all_completed(&vec![TeamTaskStatus::Completed, TeamTaskStatus::Skipped]));
    assert!(all_completed(&Vec::new()));
    let manager = TeamManager::new();
    assert_eq!(manager.config.branch_prefix, "team");
    assert!(!manager.majority_failed(&progress));
    let bad = TeamProgress { total: 5, completed: 0, running: 0, failed: 3, pending: 2, skipped: 0 };
    assert!(manager.majority_failed(&bad));
    let even = TeamProgress { total: 4, completed: 0, running: 0, failed: 2, pending: 2, skipped: 0 };
    assert!(!manager.majority_failed(&even));
}

#[test]
fn skill_requests_default_their_proficiency() {
    assert_eq!(AddSkillRequest { proficiency: None }.proficiency_or_default(), 3);
    assert_eq!(AddSkillRequest { proficiency: Some(5) }.proficiency_or_default(), 5);
}

#[test]
fn prompts_carry_the_description_unless_it_is_blank() {
    let task = |description: Option<&str>| Task {
        id: 1,
        project_id: 2,
        title: "Title".to_string(),
        description: description.map(String::from),
        status: TaskStatus::Todo,
        parent_workspace_id: None,
        is_epic: false,
        complexity: None,
        metadata: None,
        created_at: 0,
        updated_at: 0,
    };
    assert_eq!(task(None).to_prompt(), "Title");
    assert_eq!(task(Some("")).to_prompt(), "Title");
    assert_eq!(task(Some(" \n\t ")).to_prompt(), "Title");
    assert_eq!(task(Some("Do it")).to_prompt(), "Title\n\nDo it");
    assert_eq!(task(Some("  Do it ")).to_prompt(), "Title\n\n  Do it ");
    assert!(is_blank("") && is_blank("\u{2003}") && !is_blank(" x "));
}

#[test]
fn statuses_are_read_from_their_wire_values() {
    for status in [
        SwarmExecutionStatus::Planning,
        SwarmExecutionStatus::Planned,
        SwarmExecutionStatus::Executing,
        SwarmExecutionStatus::Reviewing,
        SwarmExecutionStatus::Merging,
        SwarmExecutionStatus::Completed,
        SwarmExecutionStatus::Failed,
        SwarmExecutionStatus::Cancelled,
    ] {
        assert_eq!(SwarmExecutionStatus::from_wire(status.as_str()), Some(status));
    }
    for status in [
        SwarmTaskStatus::Pending,
        SwarmTaskStatus::Blocked,
        SwarmTaskStatus::Assigned,
        SwarmTaskStatus::Running,
        SwarmTaskStatus::Completed,
        SwarmTaskStatus::Failed,
        SwarmTaskStatus::Skipped,
    ] {
        assert_eq!(SwarmTaskStatus::from_wire(status.as_str()), Some(status));
    }
    for vote in [
        ConsensusVote::Pending,
        ConsensusVote::Approve,
        ConsensusVote::Reject,
        ConsensusVote::Abstain,
    ] {
        assert_eq!(ConsensusVote::from_wire(vote.as_str()), Some(vote));
    }
    assert_eq!(SwarmExecutionStatus::from_wire("Executing"), None);
    assert_eq!(SwarmExecutionStatus::from_wire("pending"), None);
    assert_eq!(SwarmTaskStatus::from_wire("merging"), None);
    assert_eq!(SwarmTaskStatus::from_wire(""), None);
    assert_eq!(ConsensusVote::from_wire("approved"), None);
    assert_eq!(TeamExecutionStatus::from_wire("completed"), Some(TeamExecutionStatus::Completed));
    assert_eq!(TeamExecutionStatus::from_wire("reviewing"), None);
    assert_eq!(TeamTaskStatus::from_wire("blocked"), Some(TeamTaskStatus::Blocked));
    assert_eq!(
        swarm_orchestrator::cli::types::TaskStatus::from_wire("inreview"),
        Some(swarm_orchestrator::cli::types::TaskStatus::Inreview)
    );
    assert_eq!(swarm_orchestrator::cli::types::TaskStatus::from_wire("in review"), None);
}
