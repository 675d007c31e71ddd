use swarm_orchestrator::consensus::{
    count_available, is_expired, rejection_message, ConsensusConfig, ConsensusError,
    ConsensusResult, ConsensusService,
};
use swarm_orchestrator::models::agent_profile::AgentProfile;
use swarm_orchestrator::models::consensus_review::{
    ConsensusReview, ConsensusSummary, ConsensusVote, CreateConsensusReview, SubmitReviewVote,
};
use swarm_orchestrator::models::swarm_execution::{
    CreateSwarmExecution, SwarmExecution, SwarmExecutionStatus,
};
use swarm_orchestrator::panel::{precedes, select_reviewers};
use swarm_orchestrator::swarm::Swarm;

fn in_review(reviewer_count: i32) -> Swarm {
    let mut execution = SwarmExecution::create(
        &CreateSwarmExecution {
            epic_task_id: 1,
            epic_workspace_id: None,
            planner_profile_id: None,
            reviewer_count: Some(reviewer_count),
            max_parallel_workers: Some(2),
        },
        0xe0,
        0,
    );
    execution.update_status(SwarmExecutionStatus::Reviewing, 0);
    Swarm { execution, tasks: Vec::new(), reviews: Vec::new(), votes: Vec::new() }
}

fn profile(id: u128, priority: i32) -> AgentProfile {
    AgentProfile {
        id,
        name: format!("agent-{id}"),
        description: None,
        executor: "CODEX".to_string(),
        variant: None,
        executor_config: None,
        is_planner: false,
        is_reviewer: true,
        is_worker: false,
        max_concurrent_tasks: 1,
        priority,
        active: true,
        created_at: 0,
        updated_at: 0,
    }
}

fn vote(vote: ConsensusVote, comment: Option<&str>) -> SubmitReviewVote {
    SubmitReviewVote {
        vote,
        comments: comment.map(String::from),
        structured_feedback: None,
        confidence: Some(80),
        issues_found: None,
        suggested_fixes: None,
    }
}

fn open_round(service: &ConsensusService, swarm: &mut Swarm, size: usize, first_id: u128) {
    let panel: Vec<AgentProfile> = (0..size).map(|i| profile(100 + i as u128, 0)).collect();
    let ids: Vec<u128> = (0..size).map(|i| first_id + i as u128).collect();
    service.start_review_with(swarm, &panel, &ids, 0).unwrap();
}

#[test]
fn three_voters_approve_on_the_first_vote() {
    let service = ConsensusService::new();
    let mut swarm = in_review(3);
    assert_eq!(swarm.execution.consensus_threshold, 1);
    open_round(&service, &mut swarm, 3, 1);
    assert_eq!(swarm.reviews.len(), 3);
    assert!(matches!(service.evaluate_consensus(&swarm, 1), ConsensusResult::Pending { .. }));

    service.submit_vote(&mut swarm, 1, vote(ConsensusVote::Approve, None), 2).unwrap();
    assert_eq!(swarm.execution.consensus_approvals, 1);
    assert!(matches!(service.evaluate_consensus(&swarm, 3), ConsensusResult::Approved));
    let outcome = service.finalize_consensus(&mut swarm, 4);
    assert!(matches!(outcome, ConsensusResult::Approved));
    assert_eq!(swarm.execution.status, SwarmExecutionStatus::Merging);
    assert_eq!(swarm.execution.merge_started_at, Some(4));
    assert!(swarm.is_well_formed());
}

#[test]
fn four_voters_need_three_approvals() {
    let service = ConsensusService::new();
    let mut swarm = in_review(4);
    assert_eq!(swarm.execution.consensus_threshold, 3);
    open_round(&service, &mut swarm, 4, 1);

    service.submit_vote(&mut swarm, 1, vote(ConsensusVote::Approve, None), 1).unwrap();
    service.submit_vote(&mut swarm, 2, vote(ConsensusVote::Approve, None), 2).unwrap();
    assert!(matches!(service.evaluate_consensus(&swarm, 2), ConsensusResult::Pending { .. }));
    service.submit_vote(&mut swarm, 3, vote(ConsensusVote::Reject, Some("no tests")), 3).unwrap();
    // One rejection of four with a threshold of three is still recoverable.
    match service.evaluate_consensus(&swarm, 3) {
        ConsensusResult::Pending { summary } => {
            assert_eq!(
                summary,
                ConsensusSummary {
                    total_reviewers: 4,
                    votes_cast: 3,
                    approvals: 2,
                    rejections: 1,
                    abstentions: 0,
                    pending: 1,
                    threshold: 3,
                    has_consensus: false,
                    consensus_failed: false,
                }
            );
        }
        other => panic!("unexpected {other:?}"),
    }
    service.submit_vote(&mut swarm, 4, vote(ConsensusVote::Approve, None), 4).unwrap();
    assert_eq!(swarm.execution.consensus_approvals, 3);
    assert_eq!(swarm.execution.consensus_rejections, 1);
    assert!(matches!(service.evaluate_consensus(&swarm, 5), ConsensusResult::Approved));
    assert_eq!(swarm.votes, vec![1, 2, 3, 4]);
}

#[test]
fn three_abstentions_in_the_last_round_are_a_deadlock() {
    let service = ConsensusService::with_config(ConsensusConfig {
        min_reviewers: 3,
        max_rounds: 1,
        review_timeout_seconds: 1800,
    });
    let mut swarm = in_review(3);
    open_round(&service, &mut swarm, 3, 1);
    for id in 1..=3 {
        service.submit_vote(&mut swarm, id, vote(ConsensusVote::Abstain, None), 5).unwrap();
    }
    assert_eq!(swarm.execution.consensus_approvals, 0);
    assert_eq!(swarm.execution.consensus_rejections, 0);
    match service.evaluate_consensus(&swarm, 6) {
        ConsensusResult::Deadlock { summary } => {
            assert_eq!(summary.abstentions, 3);
            assert_eq!(summary.pending, 0);
            assert_eq!(summary.votes_cast, 3);
        }
        other => panic!("unexpected {other:?}"),
    }
    let outcome = service.finalize_consensus(&mut swarm, 7);
    assert!(matches!(outcome, ConsensusResult::Deadlock { .. }));
    assert_eq!(swarm.execution.status, SwarmExecutionStatus::Reviewing);
    assert_eq!(
        swarm.execution.error_message.as_deref(),
        Some("Consensus deadlock \u{2014} human intervention required")
    );
    assert_eq!(swarm.execution.completed_at, None);
}

#[test]
fn abstentions_before_the_last_round_stay_pending() {
    let service = ConsensusService::new();
    let mut swarm = in_review(3);
    open_round(&service, &mut swarm, 3, 1);
    for id in 1..=3 {
        service.submit_vote(&mut swarm, id, vote(ConsensusVote::Abstain, None), 5).unwrap();
    }
    assert!(matches!(service.evaluate_consensus(&swarm, 6), ConsensusResult::Pending { .. }));
    let before = swarm.execution.updated_at;
    assert!(matches!(service.finalize_consensus(&mut swarm, 7), ConsensusResult::Pending { .. }));
    assert_eq!(swarm.execution.status, SwarmExecutionStatus::Reviewing);
    assert_eq!(swarm.execution.error_message, None);
    assert_eq!(swarm.execution.updated_at, before);

    // Two more rounds bring the Execution to the last round allowed.
    open_round(&service, &mut swarm, 3, 11);
    assert_eq!(swarm.get_latest_round(), 2);
    open_round(&service, &mut swarm, 3, 21);
    assert_eq!(swarm.get_latest_round(), 3);
    for id in (11..=13).chain(21..=23) {
        service.submit_vote(&mut swarm, id, vote(ConsensusVote::Abstain, None), 8).unwrap();
    }
    assert!(matches!(service.evaluate_consensus(&swarm, 9), ConsensusResult::Deadlock { .. }));
}

#[test]
fn rejections_fail_the_execution_with_their_reasons_in_vote_order() {
    let service = ConsensusService::new();
    let mut swarm = in_review(4);
    open_round(&service, &mut swarm, 4, 1);
    // Votes arrive out of creation order.
    service.submit_vote(&mut swarm, 3, vote(ConsensusVote::Reject, Some("third")), 1).unwrap();
    service.submit_vote(&mut swarm, 4, vote(ConsensusVote::Approve, Some("fine")), 2).unwrap();
    assert!(matches!(service.evaluate_consensus(&swarm, 2), ConsensusResult::Pending { .. }));
    service.submit_vote(&mut swarm, 1, vote(ConsensusVote::Reject, None), 3).unwrap();
    service.submit_vote(&mut swarm, 2, vote(ConsensusVote::Reject, Some("second")), 4).unwrap();
    // rejections 3 > N - T = 4 - 3 = 1
    match service.evaluate_consensus(&swarm, 5) {
        ConsensusResult::Rejected { reasons } => {
            assert_eq!(reasons, vec!["third".to_string(), "second".to_string()]);
        }
        other => panic!("unexpected {other:?}"),
    }
    service.finalize_consensus(&mut swarm, 6);
    assert_eq!(swarm.execution.status, SwarmExecutionStatus::Failed);
    assert_eq!(
        swarm.execution.error_message.as_deref(),
        Some("Consensus rejected: third; second")
    );
    assert_eq!(swarm.execution.completed_at, Some(6));
}

#[test]
fn rejection_messages() {
    assert_eq!(rejection_message(&Vec::new()), "Consensus rejected");
    assert_eq!(rejection_message(&vec!["a".to_string()]), "Consensus rejected: a");
    assert_eq!(
        rejection_message(&vec!["a".to_string(), "b".to_string(), "c".to_string()]),
        "Consensus rejected: a; b; c"
    );
}

#[test]
fn a_second_vote_on_a_review_is_refused() {
    let service = ConsensusService::new();
    let mut swarm = in_review(4);
    open_round(&service, &mut swarm, 4, 1);
    service.submit_vote(&mut swarm, 2, vote(ConsensusVote::Approve, Some("ok")), 1).unwrap();
    let approvals = swarm.execution.consensus_approvals;
    let rejections = swarm.execution.consensus_rejections;

    let again = service.submit_vote(&mut swarm, 2, vote(ConsensusVote::Reject, Some("no")), 2);
    assert!(matches!(again, Err(ConsensusError::ReviewAlreadySubmitted)));
    assert_eq!(swarm.execution.consensus_approvals, approvals);
    assert_eq!(swarm.execution.consensus_rejections, rejections);
    assert_eq!(swarm.reviews[1].vote, ConsensusVote::Approve);
    assert_eq!(swarm.reviews[1].comments.as_deref(), Some("ok"));
    assert_eq!(swarm.votes, vec![2]);

    assert!(matches!(
        service.submit_vote(&mut swarm, 77, vote(ConsensusVote::Approve, None), 3),
        Err(ConsensusError::ReviewNotFound(77))
    ));
}

#[test]
fn submitted_votes_are_recorded_on_the_review() {
    let service = ConsensusService::new();
    let mut swarm = in_review(3);
    open_round(&service, &mut swarm, 3, 1);
    let data = SubmitReviewVote {
        vote: ConsensusVote::Reject,
        comments: Some("needs work".to_string()),
        structured_feedback: Some("{}".to_string()),
        confidence: Some(55),
        issues_found: Some(vec!["a \"quoted\" issue".to_string(), "second".to_string()]),
        suggested_fixes: Some(Vec::new()),
    };
    let position = service.submit_vote(&mut swarm, 2, data, 42).unwrap();
    assert_eq!(position, 1);
    let review = &swarm.reviews[1];
    assert_eq!(review.vote, ConsensusVote::Reject);
    assert_eq!(review.confidence, Some(55));
    assert_eq!(review.completed_at, Some(42));
    assert_eq!(review.issues_found.as_deref(), Some(r#"["a \"quoted\" issue","second"]"#));
    assert_eq!(review.suggested_fixes.as_deref(), Some("[]"));
    assert_eq!(review.get_issues(), vec!["a \"quoted\" issue".to_string(), "second".to_string()]);
    assert!(review.get_suggested_fixes().is_empty());
    assert!(swarm.reviews[0].get_issues().is_empty());
    assert_eq!(swarm.execution.consensus_rejections, 1);
}

#[test]
fn the_tally_always_adds_up() {
    let service = ConsensusService::new();
    let mut swarm = in_review(7);
    open_round(&service, &mut swarm, 7, 1);
    let votes = [
        ConsensusVote::Approve,
        ConsensusVote::Reject,
        ConsensusVote::Abstain,
        ConsensusVote::Approve,
        ConsensusVote::Pending,
    ];
    for (i, v) in votes.iter().enumerate() {
        service.submit_vote(&mut swarm, 1 + i as u128, vote(*v, None), 1).unwrap();
        let s = service.get_summary(&swarm, 2);
        assert_eq!(s.approvals + s.rejections + s.abstentions + s.pending, s.total_reviewers);
        assert_eq!(s.votes_cast + s.pending, s.total_reviewers);
        assert_eq!(s.total_reviewers, 7);
    }
    let s = service.get_summary(&swarm, 2);
    assert_eq!((s.approvals, s.rejections, s.abstentions, s.pending), (2, 1, 1, 3));
    assert_eq!(s.threshold, 5);
    assert!(swarm.is_well_formed());
}

#[test]
fn pending_reviews_past_their_deadline_count_as_abstentions() {
    let service = ConsensusService::with_config(ConsensusConfig {
        min_reviewers: 3,
        max_rounds: 1,
        review_timeout_seconds: 10,
    });
    let mut swarm = in_review(3);
    open_round(&service, &mut swarm, 3, 1);
    assert!(!is_expired(&swarm.reviews[0], 9_999, 10));
    assert!(is_expired(&swarm.reviews[0], 10_000, 10));

    let early = service.get_summary(&swarm, 9_999);
    assert_eq!((early.pending, early.abstentions, early.votes_cast), (3, 0, 0));
    assert!(matches!(service.evaluate_consensus(&swarm, 9_999), ConsensusResult::Pending { .. }));

    let late = service.get_summary(&swarm, 10_000);
    assert_eq!((late.pending, late.abstentions, late.votes_cast), (0, 3, 3));
    assert!(matches!(service.evaluate_consensus(&swarm, 10_000), ConsensusResult::Deadlock { .. }));
    // The rows keep their label.
    assert_eq!(swarm.reviews[0].vote, ConsensusVote::Pending);
}

#[test]
fn a_round_can_only_open_in_review_with_enough_voters() {
    let service = ConsensusService::new();
    let panel: Vec<AgentProfile> = (0..3).map(|i| profile(100 + i, 0)).collect();
    let ids = vec![1, 2, 3];

    let mut executing = in_review(3);
    executing.execution.status = SwarmExecutionStatus::Executing;
    assert!(matches!(
        service.start_review_with(&mut executing, &panel, &ids, 0),
        Err(ConsensusError::NotInReviewPhase)
    ));
    assert!(executing.reviews.is_empty());

    let mut swarm = in_review(3);
    let mut short = vec![profile(1, 0), profile(2, 0), profile(3, 0)];
    short[1].active = false;
    assert_eq!(count_available(&short), 2);
    assert!(matches!(
        service.start_review_with(&mut swarm, &short, &ids, 0),
        Err(ConsensusError::NoReviewersAvailable)
    ));
    short[1].active = true;
    short[2].is_reviewer = false;
    assert!(matches!(
        service.start_review(&mut swarm, &short, 0),
        Err(ConsensusError::NoReviewersAvailable)
    ));
    assert!(swarm.reviews.is_empty());
}

#[test]
fn rounds_prefer_fresh_voters_then_priority_then_identifier() {
    let service = ConsensusService::new();
    let mut swarm = in_review(3);
    let panel = vec![
        profile(50, 1),
        profile(40, 9),
        profile(30, 5),
        profile(20, 9),
        profile(10, 5),
    ];
    let picks = service.start_review_with(&mut swarm, &panel, &vec![1, 2, 3, 4, 5], 7).unwrap();
    // Priority 9 first (identifier 20 before 40), then priority 5 with the lower identifier.
    assert_eq!(picks, vec![3, 1, 4]);
    let chosen: Vec<u128> = swarm.reviews.iter().map(|r| r.reviewer_profile_id).collect();
    assert_eq!(chosen, vec![20, 40, 10]);
    assert!(swarm.reviews.iter().all(|r| r.round == 1 && r.vote == ConsensusVote::Pending));
    assert_eq!(swarm.reviews.iter().map(|r| r.id).collect::<Vec<_>>(), vec![1, 2, 3]);
    assert_eq!(swarm.reviews[0].swarm_execution_id, 0xe0);
    assert_eq!(swarm.reviews[0].created_at, 7);

    // The second round turns to those who have not voted yet, then falls back on a used one.
    let picks = service.start_review_with(&mut swarm, &panel, &vec![11, 12, 13, 14, 15], 8).unwrap();
    assert_eq!(picks, vec![2, 0, 3]);
    assert!(swarm.reviews[3..].iter().all(|r| r.round == 2));
    // By now every one of them has voted, so priority decides again.
    assert!(precedes(&panel, &swarm.reviews, 3, 2));
    assert!(!precedes(&panel, &swarm.reviews, 2, 3));
    assert!(precedes(&panel, &swarm.reviews[..3].iter().map(|r| ConsensusReview::create(
        &CreateConsensusReview {
            swarm_execution_id: r.swarm_execution_id,
            reviewer_profile_id: r.reviewer_profile_id,
            round: Some(r.round),
        },
        r.id,
        0,
    )).collect(), 2, 3));
    assert_eq!(select_reviewers(&panel, &Vec::new(), 2), vec![3, 1]);
}

#[test]
fn a_round_is_no_larger_than_the_pool() {
    let service = ConsensusService::new();
    let mut swarm = in_review(7);
    let panel: Vec<AgentProfile> = (0..4).map(|i| profile(100 + i, 0)).collect();
    let picks = service.start_review(&mut swarm, &panel, 0).unwrap();
    assert_eq!(picks, vec![0, 1, 2, 3]);
    assert_eq!(swarm.reviews.len(), 4);
    assert!(swarm.is_well_formed());
}

#[test]
fn reviews_are_created_pending() {
    let review = ConsensusReview::create(
        &CreateConsensusReview { swarm_execution_id: 1, reviewer_profile_id: 2, round: None },
        3,
        4,
    );
    assert_eq!(review.round, 1);
    assert_eq!(review.vote, ConsensusVote::Pending);
    assert_eq!(review.created_at, 4);
    let mut review = review;
    review.start_review(9, "abc123".to_string(), 5);
    assert_eq!(review.session_id, Some(9));
    assert_eq!(review.review_diff_hash.as_deref(), Some("abc123"));
    assert_eq!(review.started_at, Some(5));
}

#[test]
fn consensus_defaults() {
    let service = ConsensusService::new();
    assert_eq!(service.config.min_reviewers, 3);
    assert_eq!(service.config.max_rounds, 3);
    assert_eq!(service.config.review_timeout_seconds, 1800);
}

#[test]
fn responses_are_read_cautiously() {
    let service = ConsensusService::new();
    let canonical = "- **Vote**: APPROVE\n- **Confidence**: 85\n- **Comments**: fine";
    let v = service.parse_review_response(canonical);
    assert_eq!(v.vote, ConsensusVote::Approve);
    assert_eq!(v.confidence, Some(85));
    assert_eq!(v.comments.as_deref(), Some(canonical));
    assert_eq!(v.issues_found, None);

    let plain = service.parse_review_response("Vote: reject\nconfidence 40%");
    assert_eq!(plain.vote, ConsensusVote::Reject);
    assert_eq!(plain.confidence, Some(40));

    assert_eq!(service.parse_review_response("VOTE: ABSTAIN").vote, ConsensusVote::Abstain);
    assert_eq!(service.parse_review_response("looks good to me").vote, ConsensusVote::Abstain);
    assert_eq!(service.parse_review_response("").vote, ConsensusVote::Abstain);
    assert_eq!(service.parse_review_response("").confidence, None);
    // A response that names both verdicts is ambiguous.
    assert_eq!(
        service.parse_review_response("Vote: approve\nVote: reject").vote,
        ConsensusVote::Abstain
    );
    // The template itself names no vote.
    assert_eq!(
        service.parse_review_response("- **Vote**: [APPROVE/REJECT/ABSTAIN]").vote,
        ConsensusVote::Abstain
    );
}

#[test]
fn confidence_is_the_number_in_the_first_line_that_mentions_it() {
    let service = ConsensusService::new();
    let read = |text: &str| service.parse_review_response(text).confidence;
    assert_eq!(read("score 12\nConfidence: 7 of 10\nconfidence: 99"), Some(710));
    assert_eq!(read("Confidence: high\nconfidence: 5"), None);
    assert_eq!(read("confidence: 007"), Some(7));
    assert_eq!(read("confidence: 2147483647"), Some(i32::MAX));
    assert_eq!(read("confidence: 2147483648"), None);
    assert_eq!(read("confidence: 99999999999999999999999999"), None);
    assert_eq!(read("line one\r\nCONFIDENCE 30\r\n"), Some(30));
    assert_eq!(read("no such line 55"), None);
    assert_eq!(
        swarm_orchestrator::verdict::read_verdict("X", "vote: approve\nconfidence 1").confidence,
        Some(1)
    );
}

#[test]
fn the_prompt_frames_the_diff() {
    let service = ConsensusService::new();
    let prompt = service.generate_review_prompt("+added line");
    assert!(prompt.starts_with("You are reviewing code changes from a swarm execution.\n\n## Instructions\n"));
    assert!(prompt.contains("## Code Changes\n```diff\n+added line\n```\n\n## Your Review\n"));
    assert!(prompt.ends_with("- **Comments**: [Additional feedback]\n"));
    assert!(prompt.contains("- **Vote**: [APPROVE/REJECT/ABSTAIN]\n- **Confidence**: [0-100]\n"));
}

#[test]
fn reviews_are_found_by_round_and_identifier() {
    let service = ConsensusService::new();
    let mut swarm = in_review(3);
    open_round(&service, &mut swarm, 3, 1);
    open_round(&service, &mut swarm, 3, 11);
    assert_eq!(swarm.find_by_round(1), vec![0, 1, 2]);
    assert_eq!(swarm.find_by_round(2), vec![3, 4, 5]);
    assert!(swarm.find_by_round(3).is_empty());
    assert_eq!(swarm.find_review(12), Some(4));
    assert_eq!(swarm.find_review(5), None);
    assert_eq!(swarm.count_votes(ConsensusVote::Pending), 6);
    assert_eq!(swarm.get_latest_round(), 2);
}
