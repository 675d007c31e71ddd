//! The review prompt, and the reading of the structured verdict that a
//! reviewing agent answers with.
//!
//! The reading is cautious: a response that names no vote, or names both
//! an approval and a rejection, is an abstention.

use vstd::prelude::*;
use vstd::string::*;
use crate::consensus::ConsensusService;
use crate::models::consensus_review::{ConsensusVote, SubmitReviewVote, SubmitReviewVoteView};
use crate::text::{contains_str, lowercase, spec_contains, spec_lowercase, to_chars};

verus! {

/// The lowercased response names the verdict `word` after the vote
/// header, in the canonical form or in the plain one.
pub open spec fn spec_names_vote(lower: Seq<char>, word: Seq<char>) -> bool {
    spec_contains(lower, "**vote**: "@ + word) || spec_contains(lower, "vote: "@ + word)
}

/// The vote that a lowercased response stands for.
pub open spec fn spec_vote_of(lower: Seq<char>) -> ConsensusVote {
    let approves = spec_names_vote(lower, "approve"@);
    let rejects = spec_names_vote(lower, "reject"@);
    if approves && !rejects {
        ConsensusVote::Approve
    } else if rejects && !approves {
        ConsensusVote::Reject
    } else {
        ConsensusVote::Abstain
    }
}

/// The end of the line that begins at `a`: the position of the next
/// line feed, or the end of the text.
pub open spec fn spec_line_end(s: Seq<char>, a: int) -> int
    decreases s.len() - a,
{
    if a >= s.len() {
        s.len() as int
    } else if s[a] == '\n' {
        a
    } else {
        spec_line_end(s, a + 1)
    }
}

/// A line ends at or after its beginning, and within the text.
pub proof fn lemma_line_end_bounds(s: Seq<char>, a: int)
    requires
        0 <= a <= s.len(),
    ensures
        a <= spec_line_end(s, a) <= s.len(),
    decreases s.len() - a,
{
    if a < s.len() && s[a] != '\n' {
        lemma_line_end_bounds(s, a + 1);
    }
}

/// Whether a character is a decimal digit.
pub open spec fn spec_is_digit(c: char) -> bool {
    '0' <= c <= '9'
}

/// The number that the digits among the first `n` characters of a line spell, read in order.
pub open spec fn spec_digits_value(line: Seq<char>, n: int) -> int
    decreases n,
{
    if n <= 0 {
        0
    } else if spec_is_digit(line[n - 1]) {
        spec_digits_value(line, n - 1) * 10 + (line[n - 1] as int - 0x30)
    } else {
        spec_digits_value(line, n - 1)
    }
}

/// Whether a digit stands among the first `n` characters of a line.
pub open spec fn spec_has_digit(line: Seq<char>, n: int) -> bool {
    exists|i: int| 0 <= i < n && i < line.len() && spec_is_digit(#[trigger] line[i])
}

/// The number that the digits of a line spell, where the line has a
/// digit and the number fits the record.
pub open spec fn spec_number_in(line: Seq<char>) -> Option<i32> {
    let value = spec_digits_value(line, line.len() as int);
    if spec_has_digit(line, line.len() as int) && value <= i32::MAX {
        Some(value as i32)
    } else {
        None
    }
}

/// The confidence that a lowercased response states from position `a`
/// on: the number in the first line that holds the word `confidence`.
pub open spec fn spec_confidence_from(s: Seq<char>, a: int) -> Option<i32>
    decreases s.len() - a,
{
    if a < 0 || a > s.len() {
        None
    } else {
        let e = spec_line_end(s, a);
        if spec_contains(s.subrange(a, e), "confidence"@) {
            spec_number_in(s.subrange(a, e))
        } else if e >= s.len() {
            None
        } else {
            proof {
                lemma_line_end_bounds(s, a);
            }
            spec_confidence_from(s, e + 1)
        }
    }
}

/// The confidence that a lowercased response states.
pub open spec fn spec_confidence_of(lower: Seq<char>) -> Option<i32> {
    spec_confidence_from(lower, 0)
}

/// The verdict that a response stands for, given its lowercased form.
pub open spec fn spec_verdict(response: Seq<char>, lower: Seq<char>) -> SubmitReviewVoteView {
    SubmitReviewVoteView {
        vote: spec_vote_of(lower),
        comments: Some(response),
        structured_feedback: None,
        confidence: spec_confidence_of(lower),
        issues_found: None,
        suggested_fixes: None,
    }
}

/// The end of the line that begins at `a`.
pub fn line_end(s: &Vec<char>, a: usize) -> (e: usize)
    requires
        a <= s.len(),
    ensures
        e == spec_line_end(s@, a as int),
        a <= e <= s.len(),
    decreases s.len() - a,
{
    if a >= s.len() {
        s.len()
    } else if s[a] == '\n' {
        a
    } else {
        line_end(s, a + 1)
    }
}

/// The digits never spell a negative number, and more characters never spell a smaller one.
pub proof fn lemma_digits_value_grows(line: Seq<char>, m: int, n: int)
    requires
        0 <= m <= n,
    ensures
        0 <= spec_digits_value(line, m) <= spec_digits_value(line, n),
    decreases n,
{
    if n > m {
        lemma_digits_value_grows(line, m, n - 1);
    } else if n > 0 {
        lemma_digits_value_grows(line, 0, n - 1);
    }
}

/// Reads the number that the digits of a line spell.
pub fn number_in(line: &Vec<char>) -> (r: Option<i32>)
    ensures
        r == spec_number_in(line@),
{
    let mut value: u64 = 0;
    let mut any = false;
    let mut too_big = false;
    let mut i: usize = 0;
    while i < line.len()
        invariant
            i <= line.len(),
            any == spec_has_digit(line@, i as int),
            !too_big ==> value == spec_digits_value(line@, i as int) && value <= i32::MAX,
            too_big ==> spec_digits_value(line@, i as int) > i32::MAX,
        decreases line.len() - i,
    {
        let c = line[i];
        proof {
            lemma_digits_value_grows(line@, i as int, i + 1);
        }
        if '0' <= c && c <= '9' {
            any = true;
            if !too_big {
                let d: u64 = (c as u32 - 48) as u64;
                value = value * 10 + d;
                if value > 2147483647 {
                    too_big = true;
                }
            }
        } else {
            proof {
                if spec_has_digit(line@, i + 1) {
                    let w = choose|w: int| 0 <= w < i + 1 && w < line.len() && spec_is_digit(#[trigger] line[w]);
                    assert(w < i);
                }
            }
        }
        i += 1;
    }
    if any && !too_big {
        Some(value as i32)
    } else {
        None
    }
}

/// Reads the confidence that a lowercased response states from position `a` on.
pub fn confidence_from(s: &Vec<char>, a: usize) -> (r: Option<i32>)
    requires
        a <= s.len(),
    ensures
        r == spec_confidence_from(s@, a as int),
    decreases s.len() - a,
{
    let e = line_end(s, a);
    let mut line: Vec<char> = Vec::new();
    let mut k: usize = a;
    while k < e
        invariant
            a <= k <= e <= s.len(),
            line@ == s@.subrange(a as int, k as int),
        decreases e - k,
    {
        line.push(s[k]);
        assert(line@ =~= s@.subrange(a as int, k + 1));
        k += 1;
    }
    if contains_str(&line, "confidence") {
        number_in(&line)
    } else if e >= s.len() {
        None
    } else {
        confidence_from(s, e + 1)
    }
}

/// Reads the vote that a lowercased response stands for.
pub fn vote_of(lower: &Vec<char>) -> (v: ConsensusVote)
    ensures
        v == spec_vote_of(lower@),
{
    proof {
        reveal_strlit("**vote**: ");
        reveal_strlit("vote: ");
        reveal_strlit("approve");
        reveal_strlit("reject");
        reveal_strlit("**vote**: approve");
        reveal_strlit("vote: approve");
        reveal_strlit("**vote**: reject");
        reveal_strlit("vote: reject");
        assert("**vote**: approve"@ =~= "**vote**: "@ + "approve"@);
        assert("vote: approve"@ =~= "vote: "@ + "approve"@);
        assert("**vote**: reject"@ =~= "**vote**: "@ + "reject"@);
        assert("vote: reject"@ =~= "vote: "@ + "reject"@);
    }
    let approves = contains_str(lower, "**vote**: approve") || contains_str(lower, "vote: approve");
    let rejects = contains_str(lower, "**vote**: reject") || contains_str(lower, "vote: reject");
    if approves && !rejects {
        ConsensusVote::Approve
    } else if rejects && !approves {
        ConsensusVote::Reject
    } else {
        ConsensusVote::Abstain
    }
}

/// Reads the verdict of a response, given the response in lowercase.
pub fn read_verdict(response: &str, lower: &str) -> (v: SubmitReviewVote)
    ensures
        v@ == spec_verdict(response@, lower@),
{
    let chars = to_chars(lower);
    SubmitReviewVote {
        vote: vote_of(&chars),
        comments: Some(response.to_owned()),
        structured_feedback: None,
        confidence: confidence_from(&chars, 0),
        issues_found: None,
        suggested_fixes: None,
    }
}

/// What the review prompt says before the changes.
pub open spec fn spec_prompt_head() -> Seq<char> {
    "You are reviewing code changes from a swarm execution.\n\n## Instructions\n1. Review all code changes carefully\n2. Check for:\n   - Code quality and best practices\n   - Potential bugs or security issues\n   - Consistency with the codebase style\n   - Test coverage\n   - Documentation\n\n3. Provide your vote:\n   - APPROVE: Changes are acceptable\n   - REJECT: Changes have significant issues\n   - ABSTAIN: Unable to make a determination\n\n4. List any issues found with severity (critical/major/minor)\n5. Suggest fixes for any issues\n\n## Code Changes\n```diff\n"@
}

/// What the review prompt says after the changes.
pub open spec fn spec_prompt_tail() -> Seq<char> {
    "\n```\n\n## Your Review\nPlease structure your response as:\n- **Vote**: [APPROVE/REJECT/ABSTAIN]\n- **Confidence**: [0-100]\n- **Issues Found**: [List of issues]\n- **Suggested Fixes**: [List of fixes]\n- **Comments**: [Additional feedback]\n"@
}

impl ConsensusService {
    /// The prompt that asks an agent for a structured verdict on the changes.
    pub fn generate_review_prompt(&self, diff_content: &str) -> (prompt: String)
        ensures
            prompt@ == spec_prompt_head() + diff_content@ + spec_prompt_tail(),
    {
        let mut prompt = String::new();
        prompt.append(
            "You are reviewing code changes from a swarm execution.\n\n## Instructions\n1. Review all code changes carefully\n2. Check for:\n   - Code quality and best practices\n   - Potential bugs or security issues\n   - Consistency with the codebase style\n   - Test coverage\n   - Documentation\n\n3. Provide your vote:\n   - APPROVE: Changes are acceptable\n   - REJECT: Changes have significant issues\n   - ABSTAIN: Unable to make a determination\n\n4. List any issues found with severity (critical/major/minor)\n5. Suggest fixes for any issues\n\n## Code Changes\n```diff\n",
        );
        prompt.append(diff_content);
        prompt.append(
            "\n```\n\n## Your Review\nPlease structure your response as:\n- **Vote**: [APPROVE/REJECT/ABSTAIN]\n- **Confidence**: [0-100]\n- **Issues Found**: [List of issues]\n- **Suggested Fixes**: [List of fixes]\n- **Comments**: [Additional feedback]\n",
        );
        assert(prompt@ =~= spec_prompt_head() + diff_content@ + spec_prompt_tail());
        prompt
    }

    /// Reads the verdict of an agent's response: the vote, the stated
    /// confidence, and the response itself as the comment.
    pub fn parse_review_response(&self, response: &str) -> (v: SubmitReviewVote)
        ensures
            v@ == spec_verdict(response@, spec_lowercase(response@)),
    {
        let lower = lowercase(response);
        read_verdict(response, lower.as_str())
    }
}

} // verus!
