//! The consensus engine: voters vote on the combined result of an
//! Execution, and the votes are tallied against the `2f + 1` threshold.

use vstd::prelude::*;
use vstd::string::*;
use crate::ident::random_id;
use crate::models::agent_profile::AgentProfile;
use crate::models::consensus_review::{
    spec_voted, ConsensusReview, ConsensusReviewView, ConsensusSummary, ConsensusVote,
    CreateConsensusReview, SubmitReviewVote, SubmitReviewVoteView,
};
use crate::panel::{select_reviewers, spec_available_reviewers, spec_is_selection};
use crate::models::swarm_execution::{
    spec_with_status, SwarmExecutionStatus, SwarmExecutionView,
};
use crate::schedule::spec_with_error;
use crate::swarm::{spec_count_votes, Swarm, SwarmView};

verus! {

/// Why a consensus operation was refused.
#[derive(Debug)]
pub enum ConsensusError {
    ExecutionNotFound(u128),
    ReviewNotFound(u128),
    NotInReviewPhase,
    NoReviewersAvailable,
    ConsensusNotReached,
    ReviewAlreadySubmitted,
}

/// The outcome of an evaluation.
#[derive(Debug)]
pub enum ConsensusResult {
    /// Approvals reached the threshold.
    Approved,
    /// Too many voters rejected; the reasons are their comments, in vote order.
    Rejected { reasons: Vec<String> },
    /// Votes are still outstanding.
    Pending { summary: ConsensusSummary },
    /// All votes are in, no threshold was met, and no round is left.
    Deadlock { summary: ConsensusSummary },
}

/// Mathematical view of a [`ConsensusResult`].
pub ghost enum ConsensusResultView {
    Approved,
    Rejected { reasons: Seq<Seq<char>> },
    Pending { summary: ConsensusSummary },
    Deadlock { summary: ConsensusSummary },
}

impl View for ConsensusResult {
    type V = ConsensusResultView;

    open spec fn view(&self) -> ConsensusResultView {
        match self {
            ConsensusResult::Approved => ConsensusResultView::Approved,
            ConsensusResult::Rejected { reasons } => ConsensusResultView::Rejected {
                reasons: reasons.deep_view(),
            },
            ConsensusResult::Pending { summary } => ConsensusResultView::Pending {
                summary: *summary,
            },
            ConsensusResult::Deadlock { summary } => ConsensusResultView::Deadlock {
                summary: *summary,
            },
        }
    }
}

/// Configuration of the consensus engine.
#[derive(Debug, Clone, Copy)]
pub struct ConsensusConfig {
    pub min_reviewers: i32,
    pub max_rounds: i32,
    pub review_timeout_seconds: i64,
}

impl Default for ConsensusConfig {
    fn default() -> (c: Self)
        ensures
            c.min_reviewers == 3,
            c.max_rounds == 3,
            c.review_timeout_seconds == 1800,
    {
        ConsensusConfig { min_reviewers: 3, max_rounds: 3, review_timeout_seconds: 1800 }
    }
}

/// The consensus engine. It holds its configuration by value and keeps no other state.
#[derive(Debug)]
pub struct ConsensusService {
    pub config: ConsensusConfig,
}

/// The Review is still pending although its deadline has passed: `now`
/// lies `timeout_seconds` or more after its creation.
pub open spec fn spec_expired(r: ConsensusReviewView, now: i64, timeout_seconds: i64) -> bool {
    r.vote == ConsensusVote::Pending && now - r.created_at >= timeout_seconds * 1000
}

/// The vote that an evaluation at `now` counts for the Review: a
/// pending Review past its deadline counts as an abstention.
pub open spec fn spec_effective_vote(
    r: ConsensusReviewView,
    now: i64,
    timeout_seconds: i64,
) -> ConsensusVote {
    if spec_expired(r, now, timeout_seconds) {
        ConsensusVote::Abstain
    } else {
        r.vote
    }
}

/// How many of the first `n` Reviews count as vote `v` at `now`.
pub open spec fn spec_count_effective(
    rs: Seq<ConsensusReviewView>,
    v: ConsensusVote,
    now: i64,
    timeout_seconds: i64,
    n: int,
) -> int
    decreases n,
{
    if n <= 0 {
        0
    } else {
        spec_count_effective(rs, v, now, timeout_seconds, n - 1) + if n <= rs.len()
            && spec_effective_vote(rs[n - 1], now, timeout_seconds) == v {
            1int
        } else {
            0int
        }
    }
}

/// How many Reviews count as vote `v` at `now`.
pub open spec fn spec_tally(
    rs: Seq<ConsensusReviewView>,
    v: ConsensusVote,
    now: i64,
    timeout_seconds: i64,
) -> int {
    spec_count_effective(rs, v, now, timeout_seconds, rs.len() as int)
}

/// Approvals have reached the threshold.
pub open spec fn spec_reached(approvals: int, threshold: int) -> bool {
    approvals >= threshold
}

/// So many voters rejected that the approvals of `reviewer_count`
/// voters can no longer reach the threshold.
pub open spec fn spec_unreachable(rejections: int, reviewer_count: int, threshold: int) -> bool {
    rejections > reviewer_count - threshold
}

/// The tally of an Execution's Reviews at `now`.
pub open spec fn spec_summary(s: SwarmView, now: i64, timeout_seconds: i64) -> ConsensusSummary {
    let rs = s.reviews;
    let approvals = spec_tally(rs, ConsensusVote::Approve, now, timeout_seconds);
    let rejections = spec_tally(rs, ConsensusVote::Reject, now, timeout_seconds);
    let pending = spec_tally(rs, ConsensusVote::Pending, now, timeout_seconds);
    ConsensusSummary {
        total_reviewers: rs.len() as i32,
        votes_cast: (rs.len() - pending) as i32,
        approvals: approvals as i32,
        rejections: rejections as i32,
        abstentions: spec_tally(rs, ConsensusVote::Abstain, now, timeout_seconds) as i32,
        pending: pending as i32,
        threshold: s.execution.consensus_threshold,
        has_consensus: spec_reached(approvals, s.execution.consensus_threshold as int),
        consensus_failed: spec_unreachable(
            rejections,
            s.execution.reviewer_count as int,
            s.execution.consensus_threshold as int,
        ),
    }
}

/// Every Review counts as exactly one of the four votes: over any
/// prefix, approvals, rejections, abstentions and pending votes add up to
/// the number of Reviews.
pub proof fn lemma_tally_sums(
    rs: Seq<ConsensusReviewView>,
    now: i64,
    timeout_seconds: i64,
    n: int,
)
    requires
        0 <= n <= rs.len(),
    ensures
        spec_count_effective(rs, ConsensusVote::Approve, now, timeout_seconds, n)
            + spec_count_effective(rs, ConsensusVote::Reject, now, timeout_seconds, n)
            + spec_count_effective(rs, ConsensusVote::Abstain, now, timeout_seconds, n)
            + spec_count_effective(rs, ConsensusVote::Pending, now, timeout_seconds, n) == n,
        spec_count_effective(rs, ConsensusVote::Approve, now, timeout_seconds, n) >= 0,
        spec_count_effective(rs, ConsensusVote::Reject, now, timeout_seconds, n) >= 0,
        spec_count_effective(rs, ConsensusVote::Abstain, now, timeout_seconds, n) >= 0,
        spec_count_effective(rs, ConsensusVote::Pending, now, timeout_seconds, n) >= 0,
        spec_count_effective(rs, ConsensusVote::Approve, now, timeout_seconds, n)
            == spec_count_votes(rs, ConsensusVote::Approve, n),
        spec_count_effective(rs, ConsensusVote::Reject, now, timeout_seconds, n)
            == spec_count_votes(rs, ConsensusVote::Reject, n),
    decreases n,
{
    if n > 0 {
        lemma_tally_sums(rs, now, timeout_seconds, n - 1);
    }
}

/// The sum invariant of the tally: approvals, rejections, abstentions
/// and pending votes add up to the number of Reviews.
pub proof fn lemma_summary_sums(s: SwarmView, now: i64, timeout_seconds: i64)
    requires
        s.reviews.len() <= i32::MAX,
    ensures
        ({
            let t = spec_summary(s, now, timeout_seconds);
            &&& t.approvals + t.rejections + t.abstentions + t.pending == t.total_reviewers
            &&& t.votes_cast + t.pending == t.total_reviewers
            &&& t.total_reviewers == s.reviews.len()
            &&& t.approvals >= 0 && t.rejections >= 0 && t.abstentions >= 0 && t.pending >= 0
        }),
{
    lemma_tally_sums(s.reviews, now, timeout_seconds, s.reviews.len() as int);
}

/// The highest round among the first `n` Reviews, if there is any Review among them.
pub open spec fn spec_max_round(rs: Seq<ConsensusReviewView>, n: int) -> Option<i32>
    decreases n,
{
    if n <= 0 || n > rs.len() {
        None
    } else {
        match spec_max_round(rs, n - 1) {
            None => Some(rs[n - 1].round),
            Some(m) => Some(
                if rs[n - 1].round > m {
                    rs[n - 1].round
                } else {
                    m
                },
            ),
        }
    }
}

/// The number of the latest round, or 0 before the first one.
pub open spec fn spec_latest_round(rs: Seq<ConsensusReviewView>) -> i32 {
    match spec_max_round(rs, rs.len() as int) {
        Some(m) => m,
        None => 0,
    }
}

/// The position of the first Review with identifier `id`, if there is one.
#[verifier::opaque]
pub open spec fn spec_review_position(rs: Seq<ConsensusReviewView>, id: u128) -> Option<int> {
    if exists|i: int| 0 <= i < rs.len() && (#[trigger] rs[i]).id == id {
        Some(
            choose|i: int|
                0 <= i < rs.len() && (#[trigger] rs[i]).id == id && forall|j: int|
                    0 <= j < i ==> (#[trigger] rs[j]).id != id,
        )
    } else {
        None
    }
}

/// The comment that the `k`-th cast vote contributes to the reasons of a
/// rejection: the comment of its Review, where that Review rejects and has one.
#[verifier::opaque]
pub open spec fn spec_reason_at(s: SwarmView, k: int) -> Option<Seq<char>> {
    match spec_review_position(s.reviews, s.votes[k]) {
        None => None,
        Some(p) => if s.reviews[p].vote == ConsensusVote::Reject {
            s.reviews[p].comments
        } else {
            None
        },
    }
}

/// The comments of the rejecting Reviews among the first `n` cast votes, in vote order.
pub open spec fn spec_reasons(s: SwarmView, n: int) -> Seq<Seq<char>>
    decreases n,
{
    if n <= 0 {
        Seq::empty()
    } else {
        let rest = spec_reasons(s, n - 1);
        match spec_reason_at(s, n - 1) {
            Some(c) => rest.push(c),
            None => rest,
        }
    }
}

/// The outcome of an evaluation at `now`.
///
/// Approved where the approvals reach the threshold; else rejected where
/// the rejections rule that out; else a deadlock where no vote is
/// outstanding and the latest round is the last one allowed; else pending.
pub open spec fn spec_evaluate(
    s: SwarmView,
    max_rounds: i32,
    now: i64,
    timeout_seconds: i64,
) -> ConsensusResultView {
    let t = spec_summary(s, now, timeout_seconds);
    if t.has_consensus {
        ConsensusResultView::Approved
    } else if t.consensus_failed {
        ConsensusResultView::Rejected { reasons: spec_reasons(s, s.votes.len() as int) }
    } else if t.pending == 0 && spec_latest_round(s.reviews) >= max_rounds {
        ConsensusResultView::Deadlock { summary: t }
    } else {
        ConsensusResultView::Pending { summary: t }
    }
}

/// The error message of an Execution whose review ended in a deadlock.
pub open spec fn spec_deadlock_message() -> Seq<char> {
    "Consensus deadlock \u{2014} human intervention required"@
}

/// The first `n` reasons, separated by `"; "`.
pub open spec fn spec_joined(reasons: Seq<Seq<char>>, n: int) -> Seq<char>
    decreases n,
{
    if n <= 0 {
        Seq::empty()
    } else if n == 1 {
        reasons[0]
    } else {
        spec_joined(reasons, n - 1) + "; "@ + reasons[n - 1]
    }
}

/// The error message of an Execution that the voters rejected: the
/// reasons, where there are any, after a fixed heading.
pub open spec fn spec_rejection_message(reasons: Seq<Seq<char>>) -> Seq<char> {
    if reasons.len() == 0 {
        "Consensus rejected"@
    } else {
        "Consensus rejected: "@ + spec_joined(reasons, reasons.len() as int)
    }
}

/// An Execution after the outcome of its review was applied.
pub open spec fn spec_finalized(
    e: SwarmExecutionView,
    outcome: ConsensusResultView,
    now: i64,
) -> SwarmExecutionView {
    match outcome {
        ConsensusResultView::Approved => spec_with_status(e, SwarmExecutionStatus::Merging, now),
        ConsensusResultView::Rejected { reasons } => spec_with_error(
            e,
            spec_rejection_message(reasons),
            now,
        ),
        ConsensusResultView::Deadlock { summary } => SwarmExecutionView {
            error_message: Some(spec_deadlock_message()),
            updated_at: now,
            ..e
        },
        ConsensusResultView::Pending { summary } => e,
    }
}

/// The submission of a verdict on the pending Review at position `p`.
pub open spec fn spec_submit(s: SwarmView, p: int, data: SubmitReviewVoteView, now: i64) -> SwarmView {
    let reviews = s.reviews.update(p, spec_voted(s.reviews[p], data, now));
    let votes = if data.vote == ConsensusVote::Pending {
        s.votes
    } else {
        s.votes.push(s.reviews[p].id)
    };
    let execution = if data.vote == ConsensusVote::Approve {
        SwarmExecutionView {
            consensus_approvals: (s.execution.consensus_approvals + 1) as i32,
            updated_at: now,
            ..s.execution
        }
    } else if data.vote == ConsensusVote::Reject {
        SwarmExecutionView {
            consensus_rejections: (s.execution.consensus_rejections + 1) as i32,
            updated_at: now,
            ..s.execution
        }
    } else {
        s.execution
    };
    SwarmView { execution: execution, reviews: reviews, votes: votes, ..s }
}

/// Changing the vote of one Review moves one unit from the old vote's count to the new one's.
pub proof fn lemma_count_votes_update(
    a: Seq<ConsensusReviewView>,
    b: Seq<ConsensusReviewView>,
    at: int,
    v: ConsensusVote,
    n: int,
)
    requires
        0 <= at < a.len(),
        a.len() == b.len(),
        0 <= n <= a.len(),
        forall|i: int| 0 <= i < a.len() && i != at ==> (#[trigger] a[i]).vote == b[i].vote,
    ensures
        spec_count_votes(b, v, n) == spec_count_votes(a, v, n) + (if at < n && b[at].vote == v {
            1int
        } else {
            0int
        }) - (if at < n && a[at].vote == v {
            1int
        } else {
            0int
        }),
        0 <= spec_count_votes(a, v, n) <= n,
        at < n && a[at].vote != v ==> spec_count_votes(a, v, n) < n,
    decreases n,
{
    if n > 0 {
        lemma_count_votes_update(a, b, at, v, n - 1);
        if n - 1 != at {
            assert(a[n - 1].vote == b[n - 1].vote);
        }
    }
}

/// Submitting a verdict on a pending Review keeps the structural
/// invariant: the counters of the Execution still agree with the Reviews.
pub proof fn lemma_submit_keeps_wf(s: SwarmView, p: int, data: SubmitReviewVoteView, now: i64)
    requires
        s.wf(),
        0 <= p < s.reviews.len(),
        s.reviews[p].vote == ConsensusVote::Pending,
    ensures
        spec_submit(s, p, data, now).wf(),
        spec_submit(s, p, data, now).inv() == s.inv(),
        s.execution.consensus_approvals < i32::MAX,
        s.execution.consensus_rejections < i32::MAX,
{
    let after = s.reviews.update(p, spec_voted(s.reviews[p], data, now));
    let n = s.reviews.len() as int;
    lemma_count_votes_update(s.reviews, after, p, ConsensusVote::Approve, n);
    lemma_count_votes_update(s.reviews, after, p, ConsensusVote::Reject, n);
}

/// The row of a Review that a new round opens.
pub open spec fn spec_new_review(
    id: u128,
    execution_id: u128,
    voter: u128,
    round: i32,
    now: i64,
) -> ConsensusReviewView {
    ConsensusReviewView {
        id: id,
        swarm_execution_id: execution_id,
        reviewer_profile_id: voter,
        session_id: None,
        vote: ConsensusVote::Pending,
        comments: None,
        structured_feedback: None,
        review_diff_hash: None,
        confidence: None,
        issues_found: None,
        suggested_fixes: None,
        round: round,
        started_at: None,
        completed_at: None,
        created_at: now,
        updated_at: now,
    }
}

/// The Reviews once a new round has opened its first `n` Reviews: one
/// for each chosen voter, in the order of choice, all in the round after the latest one.
pub open spec fn spec_opened(
    s: SwarmView,
    pool: Seq<AgentProfile>,
    picks: Seq<usize>,
    ids: Seq<u128>,
    now: i64,
    n: int,
) -> Seq<ConsensusReviewView> {
    s.reviews + Seq::new(
        n as nat,
        |k: int|
            spec_new_review(
                ids[k],
                s.execution.id,
                pool[picks[k] as int].id,
                (spec_latest_round(s.reviews) + 1) as i32,
                now,
            ),
    )
}

/// How many Reviews a new round opens: one for each voter that the
/// Execution asks for, as far as the pool has available voters.
pub open spec fn spec_round_size(s: SwarmView, pool: Seq<AgentProfile>) -> int {
    let available = spec_available_reviewers(pool, pool.len() as int);
    if s.execution.reviewer_count <= available {
        s.execution.reviewer_count as int
    } else {
        available
    }
}

/// A new round cannot be recorded: the round number or the number of
/// Reviews would leave the range of the record.
pub open spec fn spec_round_overflows(s: SwarmView, pool: Seq<AgentProfile>) -> bool {
    spec_latest_round(s.reviews) >= i32::MAX || s.reviews.len() + spec_round_size(s, pool)
        > i32::MAX
}

/// Counts over a prefix do not depend on what follows the prefix.
pub proof fn lemma_count_votes_prefix(
    a: Seq<ConsensusReviewView>,
    b: Seq<ConsensusReviewView>,
    v: ConsensusVote,
    n: int,
)
    requires
        0 <= n <= a.len(),
        n <= b.len(),
        forall|i: int| 0 <= i < n ==> (#[trigger] a[i]).vote == b[i].vote,
    ensures
        spec_count_votes(a, v, n) == spec_count_votes(b, v, n),
    decreases n,
{
    if n > 0 {
        lemma_count_votes_prefix(a, b, v, n - 1);
        assert(a[n - 1].vote == b[n - 1].vote);
    }
}

/// Opening a pending Review keeps the structural invariant.
pub proof fn lemma_open_keeps_wf(s: SwarmView, r: ConsensusReviewView)
    requires
        s.wf(),
        s.reviews.len() < i32::MAX,
        r.vote == ConsensusVote::Pending,
    ensures
        (SwarmView { reviews: s.reviews.push(r), ..s }).wf(),
        (SwarmView { reviews: s.reviews.push(r), ..s }).inv() == s.inv(),
{
    let after = s.reviews.push(r);
    let n = s.reviews.len() as int;
    assert forall|i: int| 0 <= i < n implies (#[trigger] s.reviews[i]).vote == after[i].vote by {}
    lemma_count_votes_prefix(s.reviews, after, ConsensusVote::Approve, n);
    lemma_count_votes_prefix(s.reviews, after, ConsensusVote::Reject, n);
}

/// How the opening of a round ends, given the identifiers `ids` for the new Reviews.
pub open spec fn spec_start_review(
    s: SwarmView,
    min_reviewers: i32,
    pool: Seq<AgentProfile>,
    ids: Seq<u128>,
    now: i64,
    after: SwarmView,
    r: Result<Vec<usize>, ConsensusError>,
) -> bool {
    if s.execution.status != SwarmExecutionStatus::Reviewing {
        r matches Err(ConsensusError::NotInReviewPhase)
    } else if spec_available_reviewers(pool, pool.len() as int) < min_reviewers {
        r matches Err(ConsensusError::NoReviewersAvailable)
    } else if spec_round_overflows(s, pool) {
        r matches Err(ConsensusError::ConsensusNotReached)
    } else {
        &&& r matches Ok(picks)
        &&& spec_is_selection(pool, s.reviews, r->Ok_0@, spec_round_size(s, pool))
        &&& after == (SwarmView {
            reviews: spec_opened(s, pool, r->Ok_0@, ids, now, spec_round_size(s, pool)),
            ..s
        })
    }
}

/// How many profiles of the pool are available voters.
pub fn count_available(pool: &Vec<AgentProfile>) -> (n: usize)
    ensures
        n == spec_available_reviewers(pool@, pool.len() as int),
        n <= pool.len(),
{
    let mut n: usize = 0;
    let mut i: usize = 0;
    while i < pool.len()
        invariant
            i <= pool.len(),
            n <= i,
            n == spec_available_reviewers(pool@, i as int),
        decreases pool.len() - i,
    {
        if pool[i].is_available_reviewer() {
            n += 1;
        }
        i += 1;
    }
    n
}

/// Whether a pending Review's deadline has passed at `now`.
pub fn is_expired(review: &ConsensusReview, now: i64, timeout_seconds: i64) -> (b: bool)
    ensures
        b == spec_expired(review@, now, timeout_seconds),
{
    let waited: i128 = now as i128 - review.created_at as i128;
    let limit: i128 = timeout_seconds as i128 * 1000;
    review.vote == ConsensusVote::Pending && waited >= limit
}

/// The vote that an evaluation at `now` counts for the Review.
pub fn effective_vote(review: &ConsensusReview, now: i64, timeout_seconds: i64) -> (v:
    ConsensusVote)
    ensures
        v == spec_effective_vote(review@, now, timeout_seconds),
{
    if is_expired(review, now, timeout_seconds) {
        ConsensusVote::Abstain
    } else {
        review.vote
    }
}

/// The rejection message for the given reasons.
pub fn rejection_message(reasons: &Vec<String>) -> (m: String)
    ensures
        m@ == spec_rejection_message(reasons.deep_view()),
{
    let ghost rs = reasons.deep_view();
    if reasons.len() == 0 {
        return "Consensus rejected".to_owned();
    }
    let mut joined = String::new();
    let mut k: usize = 0;
    while k < reasons.len()
        invariant
            k <= reasons.len(),
            rs == reasons.deep_view(),
            joined@ == spec_joined(rs, k as int),
        decreases reasons.len() - k,
    {
        if k > 0 {
            joined.append("; ");
        }
        joined.append(reasons[k].as_str());
        proof {
            assert(rs[k as int] == reasons[k as int]@);
            if k == 0 {
                assert(joined@ =~= rs[0]);
            } else {
                assert(joined@ =~= spec_joined(rs, k as int) + "; "@ + rs[k as int]);
            }
        }
        k += 1;
    }
    let mut m = "Consensus rejected: ".to_owned();
    m.append(joined.as_str());
    m
}

impl Swarm {
    /// The position of the first Review with identifier `id`.
    pub fn find_review(&self, id: u128) -> (r: Option<usize>)
        ensures
            r matches Some(i) ==> i < self.reviews.len() && self.reviews[i as int].id == id
                && spec_review_position(self@.reviews, id) == Some(i as int),
            r is None ==> spec_review_position(self@.reviews, id) is None,
    {
        reveal(spec_review_position);
        let mut i: usize = 0;
        while i < self.reviews.len()
            invariant
                i <= self.reviews.len(),
                forall|j: int| 0 <= j < i ==> self.reviews[j].id != id,
            decreases self.reviews.len() - i,
        {
            if self.reviews[i].id == id {
                proof {
                    reveal(spec_review_position);
                    let rs = self@.reviews;
                    assert(rs[i as int].id == id);
                    assert forall|j: int| 0 <= j < i implies (#[trigger] rs[j]).id != id by {
                        assert(self.reviews[j].id != id);
                    }
                    let c = spec_review_position(rs, id).unwrap();
                    if c < i {
                        assert(self.reviews[c].id != id);
                    }
                    if i < c {
                        assert(rs[i as int].id != id);
                    }
                }
                return Some(i);
            }
            i += 1;
        }
        proof {
            reveal(spec_review_position);
            let rs = self@.reviews;
            assert forall|j: int| 0 <= j < rs.len() implies (#[trigger] rs[j]).id != id by {
                assert(self.reviews[j].id != id);
            }
        }
        None
    }

    /// The number of the latest round, or 0 before the first one.
    pub fn get_latest_round(&self) -> (round: i32)
        ensures
            round == spec_latest_round(self@.reviews),
    {
        let ghost rs = self@.reviews;
        let mut best: Option<i32> = None;
        let mut i: usize = 0;
        while i < self.reviews.len()
            invariant
                i <= self.reviews.len(),
                rs == self@.reviews,
                best == spec_max_round(rs, i as int),
            decreases self.reviews.len() - i,
        {
            let round = self.reviews[i].round;
            assert(rs[i as int].round == round);
            best = match best {
                None => Some(round),
                Some(m) => Some(
                    if round > m {
                        round
                    } else {
                        m
                    },
                ),
            };
            i += 1;
        }
        match best {
            Some(m) => m,
            None => 0,
        }
    }

    /// The tally of the Reviews at `now`, where a pending Review counts
    /// as an abstention once `timeout_seconds` have passed since its creation.
    pub fn get_consensus_summary(&self, now: i64, timeout_seconds: i64) -> (t: ConsensusSummary)
        requires
            self.reviews.len() <= i32::MAX,
        ensures
            t == spec_summary(self@, now, timeout_seconds),
            t.approvals + t.rejections + t.abstentions + t.pending == t.total_reviewers,
            t.total_reviewers == self.reviews.len(),
    {
        let ghost rs = self@.reviews;
        let mut approvals: i32 = 0;
        let mut rejections: i32 = 0;
        let mut abstentions: i32 = 0;
        let mut pending: i32 = 0;
        let mut i: usize = 0;
        while i < self.reviews.len()
            invariant
                i <= self.reviews.len() <= i32::MAX,
                rs == self@.reviews,
                approvals == spec_count_effective(rs, ConsensusVote::Approve, now, timeout_seconds, i as int),
                rejections == spec_count_effective(rs, ConsensusVote::Reject, now, timeout_seconds, i as int),
                abstentions == spec_count_effective(rs, ConsensusVote::Abstain, now, timeout_seconds, i as int),
                pending == spec_count_effective(rs, ConsensusVote::Pending, now, timeout_seconds, i as int),
                approvals >= 0,
                rejections >= 0,
                abstentions >= 0,
                pending >= 0,
                approvals + rejections + abstentions + pending == i,
            decreases self.reviews.len() - i,
        {
            assert(rs[i as int] == self.reviews[i as int]@);
            match effective_vote(&self.reviews[i], now, timeout_seconds) {
                ConsensusVote::Approve => {
                    approvals += 1;
                },
                ConsensusVote::Reject => {
                    rejections += 1;
                },
                ConsensusVote::Abstain => {
                    abstentions += 1;
                },
                ConsensusVote::Pending => {
                    pending += 1;
                },
            }
            i += 1;
        }
        let total: i32 = self.reviews.len() as i32;
        let threshold = self.execution.consensus_threshold;
        let slack: i64 = self.execution.reviewer_count as i64 - threshold as i64;
        ConsensusSummary {
            total_reviewers: total,
            votes_cast: total - pending,
            approvals,
            rejections,
            abstentions,
            pending,
            threshold,
            has_consensus: approvals >= threshold,
            consensus_failed: rejections as i64 > slack,
        }
    }

    /// The comment that the `k`-th cast vote contributes to the reasons of a rejection.
    pub fn reason_at(&self, k: usize) -> (reason: Option<String>)
        requires
            k < self.votes.len(),
        ensures
            reason.deep_view() == spec_reason_at(self@, k as int),
    {
        reveal(spec_reason_at);
        match self.find_review(self.votes[k]) {
            Some(p) => {
                assert(self@.reviews[p as int] == self.reviews[p as int]@);
                if self.reviews[p].vote == ConsensusVote::Reject {
                    match &self.reviews[p].comments {
                        Some(c) => Some(c.clone()),
                        None => None,
                    }
                } else {
                    None
                }
            },
            None => None,
        }
    }

    /// The comments of the rejecting Reviews, in the order in which the votes were cast.
    pub fn rejection_reasons(&self) -> (reasons: Vec<String>)
        ensures
            reasons.deep_view() == spec_reasons(self@, self.votes.len() as int),
    {
        let mut reasons: Vec<String> = Vec::new();
        let mut k: usize = 0;
        assert(reasons.deep_view() =~= spec_reasons(self@, 0));
        while k < self.votes.len()
            invariant
                k <= self.votes.len(),
                reasons.deep_view() == spec_reasons(self@, k as int),
            decreases self.votes.len() - k,
        {
            let ghost before = reasons.deep_view();
            match self.reason_at(k) {
                Some(c) => {
                    reasons.push(c);
                    assert(reasons.deep_view() =~= before.push(c@));
                },
                None => {},
            }
            k += 1;
        }
        reasons
    }
}

impl ConsensusService {
    pub fn new() -> (c: Self)
        ensures
            c.config.min_reviewers == 3,
            c.config.max_rounds == 3,
            c.config.review_timeout_seconds == 1800,
    {
        ConsensusService { config: ConsensusConfig::default() }
    }

    pub fn with_config(config: ConsensusConfig) -> (c: Self)
        ensures
            c.config == config,
    {
        ConsensusService { config }
    }

    /// The tally of the Execution's Reviews at `now`.
    pub fn get_summary(&self, swarm: &Swarm, now: i64) -> (t: ConsensusSummary)
        requires
            swarm.reviews.len() <= i32::MAX,
        ensures
            t == spec_summary(swarm@, now, self.config.review_timeout_seconds),
            t.approvals + t.rejections + t.abstentions + t.pending == t.total_reviewers,
    {
        swarm.get_consensus_summary(now, self.config.review_timeout_seconds)
    }

    /// Records a voter's verdict on the Review `review_id` and returns
    /// the Review's position.
    ///
    /// Refused with `ReviewNotFound` where no Review has the identifier,
    /// and with `ReviewAlreadySubmitted` where the Review is no longer
    /// pending; nothing changes then. An approval or a rejection is counted
    /// on the Execution; an abstention is not.
    pub fn submit_vote(
        &self,
        swarm: &mut Swarm,
        review_id: u128,
        vote_data: SubmitReviewVote,
        now: i64,
    ) -> (r: Result<usize, ConsensusError>)
        requires
            old(swarm).wf(),
        ensures
            final(swarm).wf(),
            final(swarm)@.inv() == old(swarm)@.inv(),
            r is Err ==> final(swarm)@ == old(swarm)@,
            match spec_review_position(old(swarm)@.reviews, review_id) {
                None => r matches Err(ConsensusError::ReviewNotFound(id)) && id == review_id,
                Some(p) => if old(swarm)@.reviews[p].vote != ConsensusVote::Pending {
                    r matches Err(ConsensusError::ReviewAlreadySubmitted)
                } else {
                    r == Ok::<usize, ConsensusError>(p as usize) && final(swarm)@ == spec_submit(
                        old(swarm)@,
                        p,
                        vote_data@,
                        now,
                    )
                },
            },
    {
        let p = match swarm.find_review(review_id) {
            Some(p) => p,
            None => {
                return Err(ConsensusError::ReviewNotFound(review_id));
            },
        };
        if swarm.reviews[p].vote != ConsensusVote::Pending {
            return Err(ConsensusError::ReviewAlreadySubmitted);
        }
        let ghost s0 = swarm@;
        proof {
            lemma_submit_keeps_wf(s0, p as int, vote_data@, now);
        }
        let vote = vote_data.vote;
        swarm.vote_at(p, vote_data, now);
        match vote {
            ConsensusVote::Approve => {
                swarm.execution.increment_approval(now);
                swarm.votes.push(review_id);
            },
            ConsensusVote::Reject => {
                swarm.execution.increment_rejection(now);
                swarm.votes.push(review_id);
            },
            ConsensusVote::Abstain => {
                swarm.votes.push(review_id);
            },
            ConsensusVote::Pending => {},
        }
        Ok(p)
    }

    /// Opens a round of reviews with identifiers drawn at random.
    ///
    /// See [`ConsensusService::start_review_with`], which does the work: the
    /// outcome is the same, for whatever identifiers were drawn.
    pub fn start_review(&self, swarm: &mut Swarm, panel: &Vec<AgentProfile>, now: i64) -> (r:
        Result<Vec<usize>, ConsensusError>)
        requires
            old(swarm).wf(),
        ensures
            final(swarm).wf(),
            final(swarm)@.inv() == old(swarm)@.inv(),
            r is Err ==> final(swarm)@ == old(swarm)@,
            exists|ids: Seq<u128>|
                ids.len() == panel.len() && spec_start_review(
                    old(swarm)@,
                    self.config.min_reviewers,
                    panel@,
                    ids,
                    now,
                    final(swarm)@,
                    r,
                ),
    {
        let mut ids: Vec<u128> = Vec::new();
        let mut k: usize = 0;
        while k < panel.len()
            invariant
                k <= panel.len(),
                ids.len() == k,
            decreases panel.len() - k,
        {
            ids.push(random_id());
            k += 1;
        }
        self.start_review_with(swarm, panel, &ids, now)
    }

    /// Opens a round of reviews, with `ids` as the identifiers of the new Reviews.
    ///
    /// Refused with `NotInReviewPhase` unless the Execution is in review,
    /// with `NoReviewersAvailable` where the pool holds fewer available
    /// voters than the configured minimum, and with
    /// `ConsensusNotReached` where no further round can be recorded.
    /// Otherwise the round after the latest one is opened with one pending
    /// Review for each chosen voter, and the positions in `voters`
    /// of the chosen voters are returned in the order of choice.
    pub fn start_review_with(
        &self,
        swarm: &mut Swarm,
        panel: &Vec<AgentProfile>,
        ids: &Vec<u128>,
        now: i64,
    ) -> (r: Result<Vec<usize>, ConsensusError>)
        requires
            old(swarm).wf(),
            ids.len() >= panel.len(),
        ensures
            final(swarm).wf(),
            final(swarm)@.inv() == old(swarm)@.inv(),
            r is Err ==> final(swarm)@ == old(swarm)@,
            spec_start_review(
                old(swarm)@,
                self.config.min_reviewers,
                panel@,
                ids@,
                now,
                final(swarm)@,
                r,
            ),
    {
        if swarm.execution.status != SwarmExecutionStatus::Reviewing {
            return Err(ConsensusError::NotInReviewPhase);
        }
        let available = count_available(panel);
        if self.config.min_reviewers > 0 && available < self.config.min_reviewers as usize {
            return Err(ConsensusError::NoReviewersAvailable);
        }
        let wanted = swarm.execution.reviewer_count as usize;
        let count: usize = if wanted <= available {
            wanted
        } else {
            available
        };
        let latest = swarm.get_latest_round();
        if latest >= i32::MAX || count > 2147483647 - swarm.reviews.len() {
            return Err(ConsensusError::ConsensusNotReached);
        }
        let round: i32 = latest + 1;
        let ghost s0 = swarm@;
        let picks = select_reviewers(panel, &swarm.reviews, count);
        let execution_id = swarm.execution.id;
        let mut k: usize = 0;
        proof {
            assert(s0.reviews =~= spec_opened(s0, panel@, picks@, ids@, now, 0));
        }
        while k < count
            invariant
                k <= count == picks.len(),
                count <= panel.len() <= ids.len(),
                s0.reviews.len() + count <= i32::MAX,
                swarm.wf(),
                swarm@.inv() == s0.inv(),
                round == spec_latest_round(s0.reviews) + 1,
                execution_id == s0.execution.id,
                forall|j: int| 0 <= j < picks.len() ==> (#[trigger] picks[j]) < panel.len(),
                swarm@ == (SwarmView {
                    reviews: spec_opened(s0, panel@, picks@, ids@, now, k as int),
                    ..s0
                }),
            decreases count - k,
        {
            let data = CreateConsensusReview {
                swarm_execution_id: execution_id,
                reviewer_profile_id: panel[picks[k]].id,
                round: Some(round),
            };
            swarm.open_review(&data, ids[k], now);
            assert(swarm@.reviews =~= spec_opened(s0, panel@, picks@, ids@, now, k + 1));
            k += 1;
        }
        Ok(picks)
    }

    /// Evaluates the state of the consensus at `now`.
    pub fn evaluate_consensus(&self, swarm: &Swarm, now: i64) -> (outcome: ConsensusResult)
        requires
            swarm.reviews.len() <= i32::MAX,
        ensures
            outcome@ == spec_evaluate(
                swarm@,
                self.config.max_rounds,
                now,
                self.config.review_timeout_seconds,
            ),
    {
        let summary = swarm.get_consensus_summary(now, self.config.review_timeout_seconds);
        if summary.has_consensus {
            return ConsensusResult::Approved;
        }
        if summary.consensus_failed {
            return ConsensusResult::Rejected { reasons: swarm.rejection_reasons() };
        }
        if summary.pending == 0 && swarm.get_latest_round() >= self.config.max_rounds {
            return ConsensusResult::Deadlock { summary };
        }
        ConsensusResult::Pending { summary }
    }

    /// Evaluates the consensus and applies the outcome to the Execution:
    /// an approval moves it to merging, a rejection fails it with the
    /// voters' reasons as its error message, a deadlock records the
    /// deadlock message and leaves it in review, and a pending outcome
    /// changes nothing.
    pub fn finalize_consensus(&self, swarm: &mut Swarm, now: i64) -> (outcome: ConsensusResult)
        requires
            old(swarm).wf(),
        ensures
            final(swarm).wf(),
            final(swarm)@.inv() == old(swarm)@.inv(),
            outcome@ == spec_evaluate(
                old(swarm)@,
                self.config.max_rounds,
                now,
                self.config.review_timeout_seconds,
            ),
            final(swarm)@ == (SwarmView {
                execution: spec_finalized(old(swarm)@.execution, outcome@, now),
                ..old(swarm)@
            }),
    {
        let outcome = self.evaluate_consensus(swarm, now);
        match &outcome {
            ConsensusResult::Approved => {
                swarm.execution.update_status(SwarmExecutionStatus::Merging, now);
            },
            ConsensusResult::Rejected { reasons } => {
                swarm.execution.set_error(rejection_message(reasons), now);
            },
            ConsensusResult::Deadlock { summary: _ } => {
                swarm.execution.error_message = Some(
                    "Consensus deadlock \u{2014} human intervention required".to_owned(),
                );
                swarm.execution.updated_at = now;
            },
            ConsensusResult::Pending { summary: _ } => {},
        }
        outcome
    }
}

} // verus!
