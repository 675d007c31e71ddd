//! Reviews: one voter's vote on one round of an Execution.

use vstd::prelude::*;
use crate::text::same_text;
use crate::json::{decode_strings, encode_strings, spec_decode_strings, spec_encode_strings};

verus! {

/// A voter's verdict.
#[derive(Debug, Clone, Copy, PartialEq, Eq, Structural)]
pub enum ConsensusVote {
    Pending,
    Approve,
    Reject,
    Abstain,
}

impl Default for ConsensusVote {
    fn default() -> (v: Self)
        ensures
            v == ConsensusVote::Pending,
    {
        ConsensusVote::Pending
    }
}

impl ConsensusVote {
    /// The stable lowercase wire value of the vote.
    pub open spec fn spec_as_str(self) -> Seq<char> {
        match self {
            ConsensusVote::Pending => "pending"@,
            ConsensusVote::Approve => "approve"@,
            ConsensusVote::Reject => "reject"@,
            ConsensusVote::Abstain => "abstain"@,
        }
    }

    pub fn as_str(&self) -> (s: &'static str)
        ensures
            s@ == self.spec_as_str(),
    {
        match self {
            ConsensusVote::Pending => "pending",
            ConsensusVote::Approve => "approve",
            ConsensusVote::Reject => "reject",
            ConsensusVote::Abstain => "abstain",
        }
    }

    /// Reads a vote from its wire value; `None` for any other text.
    pub fn from_wire(text: &str) -> (r: Option<Self>)
        ensures
            r matches Some(s) ==> s.spec_as_str() == text@,
            r is None ==> forall|s: Self| s.spec_as_str() != text@,
    {
        if same_text(text, ConsensusVote::Pending.as_str()) {
            Some(ConsensusVote::Pending)
        } else if same_text(text, ConsensusVote::Approve.as_str()) {
            Some(ConsensusVote::Approve)
        } else if same_text(text, ConsensusVote::Reject.as_str()) {
            Some(ConsensusVote::Reject)
        } else if same_text(text, ConsensusVote::Abstain.as_str()) {
            Some(ConsensusVote::Abstain)
        } else {
            None
        }
    }
}

/// One voter's row for one round.
#[derive(Debug)]
pub struct ConsensusReview {
    pub id: u128,
    pub swarm_execution_id: u128,
    pub reviewer_profile_id: u128,
    pub session_id: Option<u128>,
    pub vote: ConsensusVote,
    pub comments: Option<String>,
    pub structured_feedback: Option<String>,
    pub review_diff_hash: Option<String>,
    pub confidence: Option<i32>,
    pub issues_found: Option<String>,
    pub suggested_fixes: Option<String>,
    pub round: i32,
    pub started_at: Option<i64>,
    pub completed_at: Option<i64>,
    pub created_at: i64,
    pub updated_at: i64,
}

/// Mathematical view of a [`ConsensusReview`].
pub ghost struct ConsensusReviewView {
    pub id: u128,
    pub swarm_execution_id: u128,
    pub reviewer_profile_id: u128,
    pub session_id: Option<u128>,
    pub vote: ConsensusVote,
    pub comments: Option<Seq<char>>,
    pub structured_feedback: Option<Seq<char>>,
    pub review_diff_hash: Option<Seq<char>>,
    pub confidence: Option<i32>,
    pub issues_found: Option<Seq<char>>,
    pub suggested_fixes: Option<Seq<char>>,
    pub round: i32,
    pub started_at: Option<i64>,
    pub completed_at: Option<i64>,
    pub created_at: i64,
    pub updated_at: i64,
}

impl View for ConsensusReview {
    type V = ConsensusReviewView;

    open spec fn view(&self) -> ConsensusReviewView {
        ConsensusReviewView {
            id: self.id,
            swarm_execution_id: self.swarm_execution_id,
            reviewer_profile_id: self.reviewer_profile_id,
            session_id: self.session_id,
            vote: self.vote,
            comments: self.comments.deep_view(),
            structured_feedback: self.structured_feedback.deep_view(),
            review_diff_hash: self.review_diff_hash.deep_view(),
            confidence: self.confidence,
            issues_found: self.issues_found.deep_view(),
            suggested_fixes: self.suggested_fixes.deep_view(),
            round: self.round,
            started_at: self.started_at,
            completed_at: self.completed_at,
            created_at: self.created_at,
            updated_at: self.updated_at,
        }
    }
}

impl DeepView for ConsensusReview {
    type V = ConsensusReviewView;

    open spec fn deep_view(&self) -> ConsensusReviewView {
        self@
    }
}

/// What a caller supplies to open a Review.
#[derive(Debug, Clone, Copy)]
pub struct CreateConsensusReview {
    pub swarm_execution_id: u128,
    pub reviewer_profile_id: u128,
    pub round: Option<i32>,
}

/// A voter's submitted verdict.
#[derive(Debug)]
pub struct SubmitReviewVote {
    pub vote: ConsensusVote,
    pub comments: Option<String>,
    pub structured_feedback: Option<String>,
    pub confidence: Option<i32>,
    pub issues_found: Option<Vec<String>>,
    pub suggested_fixes: Option<Vec<String>>,
}

/// The tally of an Execution's Reviews.
#[derive(Debug, Clone, Copy, PartialEq, Eq, Structural)]
pub struct ConsensusSummary {
    pub total_reviewers: i32,
    pub votes_cast: i32,
    pub approvals: i32,
    pub rejections: i32,
    pub abstentions: i32,
    pub pending: i32,
    pub threshold: i32,
    pub has_consensus: bool,
    pub consensus_failed: bool,
}

/// The round a Review belongs to when the caller names none.
pub const DEFAULT_ROUND: i32 = 1;

impl ConsensusReview {
    /// The row of a new Review, with the vote still pending.
    pub open spec fn spec_create(data: CreateConsensusReview, id: u128, now: i64) -> ConsensusReviewView {
        ConsensusReviewView {
            id: id,
            swarm_execution_id: data.swarm_execution_id,
            reviewer_profile_id: data.reviewer_profile_id,
            session_id: None,
            vote: ConsensusVote::Pending,
            comments: None,
            structured_feedback: None,
            review_diff_hash: None,
            confidence: None,
            issues_found: None,
            suggested_fixes: None,
            round: match data.round {
                Some(n) => n,
                None => DEFAULT_ROUND,
            },
            started_at: None,
            completed_at: None,
            created_at: now,
            updated_at: now,
        }
    }

    /// Builds the row of a new Review, with the vote still pending.
    pub fn create(data: &CreateConsensusReview, id: u128, now: i64) -> (r: Self)
        ensures
            r@ == Self::spec_create(*data, id, now),
    {
        let round: i32 = match data.round {
            Some(n) => n,
            None => DEFAULT_ROUND,
        };
        ConsensusReview {
            id,
            swarm_execution_id: data.swarm_execution_id,
            reviewer_profile_id: data.reviewer_profile_id,
            session_id: None,
            vote: ConsensusVote::Pending,
            comments: None,
            structured_feedback: None,
            review_diff_hash: None,
            confidence: None,
            issues_found: None,
            suggested_fixes: None,
            round,
            started_at: None,
            completed_at: None,
            created_at: now,
            updated_at: now,
        }
    }

    /// Records that the voter's session began on the diff with hash `diff_hash`.
    pub fn start_review(&mut self, session_id: u128, diff_hash: String, now: i64)
        ensures
            final(self)@ == (ConsensusReviewView {
                session_id: Some(session_id),
                review_diff_hash: Some(diff_hash@),
                started_at: Some(now),
                updated_at: now,
                ..old(self)@
            }),
    {
        self.session_id = Some(session_id);
        self.review_diff_hash = Some(diff_hash);
        self.started_at = Some(now);
        self.updated_at = now;
    }
}

/// Mathematical view of a [`SubmitReviewVote`].
pub ghost struct SubmitReviewVoteView {
    pub vote: ConsensusVote,
    pub comments: Option<Seq<char>>,
    pub structured_feedback: Option<Seq<char>>,
    pub confidence: Option<i32>,
    pub issues_found: Option<Seq<Seq<char>>>,
    pub suggested_fixes: Option<Seq<Seq<char>>>,
}

impl View for SubmitReviewVote {
    type V = SubmitReviewVoteView;

    open spec fn view(&self) -> SubmitReviewVoteView {
        SubmitReviewVoteView {
            vote: self.vote,
            comments: self.comments.deep_view(),
            structured_feedback: self.structured_feedback.deep_view(),
            confidence: self.confidence,
            issues_found: self.issues_found.deep_view(),
            suggested_fixes: self.suggested_fixes.deep_view(),
        }
    }
}

/// A Review as a submitted verdict leaves it.
pub open spec fn spec_voted(
    r: ConsensusReviewView,
    data: SubmitReviewVoteView,
    now: i64,
) -> ConsensusReviewView {
    ConsensusReviewView {
        vote: data.vote,
        comments: data.comments,
        structured_feedback: data.structured_feedback,
        confidence: data.confidence,
        issues_found: spec_encode_strings(data.issues_found),
        suggested_fixes: spec_encode_strings(data.suggested_fixes),
        completed_at: Some(now),
        updated_at: now,
        ..r
    }
}

impl ConsensusReview {
    /// Records the voter's verdict on the row.
    pub fn submit_vote(&mut self, data: SubmitReviewVote, now: i64)
        ensures
            final(self)@ == spec_voted(old(self)@, data@, now),
    {
        let issues = encode_strings(&data.issues_found);
        let fixes = encode_strings(&data.suggested_fixes);
        self.vote = data.vote;
        self.comments = data.comments;
        self.structured_feedback = data.structured_feedback;
        self.confidence = data.confidence;
        self.issues_found = issues;
        self.suggested_fixes = fixes;
        self.completed_at = Some(now);
        self.updated_at = now;
    }

    /// The issues that the voter found.
    pub fn get_issues(&self) -> (r: Vec<String>)
        ensures
            r.deep_view() == spec_decode_strings(self@.issues_found),
    {
        decode_strings(&self.issues_found)
    }

    /// The fixes that the voter suggested.
    pub fn get_suggested_fixes(&self) -> (r: Vec<String>)
        ensures
            r.deep_view() == spec_decode_strings(self@.suggested_fixes),
    {
        decode_strings(&self.suggested_fixes)
    }
}

} // verus!
