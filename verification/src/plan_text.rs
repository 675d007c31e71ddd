//! The stable textual form of a plan: a JSON object with the plan's
//! fields in their declared order and no white space.

use vstd::prelude::*;
use vstd::string::*;
use crate::json::{quoted, quoted_list, spec_quoted, spec_quoted_list};
use crate::models::swarm_execution::{
    PlannedSubtask, PlannedSubtaskView, SwarmPlanOutput, SwarmPlanOutputView,
};
use crate::text::{signed_decimal, spec_signed_decimal};

verus! {

/// An optional number in a JSON text: `null` for none.
pub open spec fn spec_number_or_null(n: Option<i32>) -> Seq<char> {
    match n {
        Some(v) => spec_signed_decimal(v as int),
        None => "null"@,
    }
}

/// A truth value in a JSON text.
pub open spec fn spec_truth(b: bool) -> Seq<char> {
    if b {
        "true"@
    } else {
        "false"@
    }
}

/// The first `n` numbers of a list, separated by commas.
pub open spec fn spec_numbers(list: Seq<i32>, n: int) -> Seq<char>
    decreases n,
{
    if n <= 0 {
        Seq::empty()
    } else if n == 1 {
        spec_signed_decimal(list[0] as int)
    } else {
        spec_numbers(list, n - 1) + ","@ + spec_signed_decimal(list[n - 1] as int)
    }
}

/// The text of one subtask of a plan.
pub open spec fn spec_subtask_text(p: PlannedSubtaskView) -> Seq<char> {
    "{\"title\":"@ + spec_quoted(p.title) + ",\"description\":"@ + spec_quoted(p.description)
        + ",\"required_skills\":"@ + spec_quoted_list(p.required_skills) + ",\"depends_on\":["@
        + spec_numbers(p.depends_on, p.depends_on.len() as int) + "],\"complexity\":"@
        + spec_signed_decimal(p.complexity as int) + ",\"estimated_duration\":"@
        + spec_number_or_null(p.estimated_duration) + "}"@
}

/// The texts of the first `n` subtasks of a plan, separated by commas.
pub open spec fn spec_subtask_texts(list: Seq<PlannedSubtaskView>, n: int) -> Seq<char>
    decreases n,
{
    if n <= 0 {
        Seq::empty()
    } else if n == 1 {
        spec_subtask_text(list[0])
    } else {
        spec_subtask_texts(list, n - 1) + ","@ + spec_subtask_text(list[n - 1])
    }
}

/// The text of a plan.
pub open spec fn spec_plan_text(plan: SwarmPlanOutputView) -> Seq<char> {
    "{\"complexity\":"@ + spec_quoted(plan.complexity) + ",\"requires_swarm\":"@ + spec_truth(
        plan.requires_swarm,
    ) + ",\"subtasks\":["@ + spec_subtask_texts(plan.subtasks, plan.subtasks.len() as int)
        + "],\"estimated_total_duration\":"@ + spec_number_or_null(plan.estimated_total_duration)
        + ",\"reasoning\":"@ + spec_quoted(plan.reasoning) + "}"@
}

/// Writes an optional number.
pub fn number_or_null(n: Option<i32>) -> (s: String)
    ensures
        s@ == spec_number_or_null(n),
{
    match n {
        Some(v) => signed_decimal(v),
        None => "null".to_owned(),
    }
}

/// Writes a list of numbers, separated by commas.
pub fn numbers(list: &Vec<i32>) -> (s: String)
    ensures
        s@ == spec_numbers(list@, list.len() as int),
{
    let mut s = String::new();
    let mut k: usize = 0;
    while k < list.len()
        invariant
            k <= list.len(),
            s@ == spec_numbers(list@, k as int),
        decreases list.len() - k,
    {
        let ghost before = s@;
        if k > 0 {
            s.append(",");
        }
        let digits = signed_decimal(list[k]);
        s.append(digits.as_str());
        proof {
            if k == 0 {
                assert(s@ =~= spec_signed_decimal(list[0] as int));
            } else {
                assert(s@ =~= before + ","@ + spec_signed_decimal(list[k as int] as int));
            }
        }
        k += 1;
    }
    s
}

/// Writes one subtask of a plan.
pub fn subtask_text(p: &PlannedSubtask) -> (s: String)
    ensures
        s@ == spec_subtask_text(p@),
{
    let mut s = String::new();
    s.append("{\"title\":");
    s.append(quoted(p.title.as_str()).as_str());
    s.append(",\"description\":");
    s.append(quoted(p.description.as_str()).as_str());
    s.append(",\"required_skills\":");
    s.append(quoted_list(&p.required_skills).as_str());
    s.append(",\"depends_on\":[");
    s.append(numbers(&p.depends_on).as_str());
    s.append("],\"complexity\":");
    s.append(signed_decimal(p.complexity).as_str());
    s.append(",\"estimated_duration\":");
    s.append(number_or_null(p.estimated_duration).as_str());
    s.append("}");
    assert(s@ =~= spec_subtask_text(p@));
    s
}

/// Writes the subtasks of a plan, separated by commas.
pub fn subtask_texts(list: &Vec<PlannedSubtask>) -> (s: String)
    ensures
        s@ == spec_subtask_texts(list.deep_view(), list.len() as int),
{
    let ghost views = list.deep_view();
    let mut s = String::new();
    let mut k: usize = 0;
    while k < list.len()
        invariant
            k <= list.len(),
            views == list.deep_view(),
            s@ == spec_subtask_texts(views, k as int),
        decreases list.len() - k,
    {
        let ghost before = s@;
        if k > 0 {
            s.append(",");
        }
        let one = subtask_text(&list[k]);
        s.append(one.as_str());
        proof {
            assert(views[k as int] == list[k as int]@);
            if k == 0 {
                assert(s@ =~= spec_subtask_text(views[0]));
            } else {
                assert(s@ =~= before + ","@ + spec_subtask_text(views[k as int]));
            }
        }
        k += 1;
    }
    s
}

/// Writes a plan in its stable textual form.
pub fn plan_text(plan: &SwarmPlanOutput) -> (s: String)
    ensures
        s@ == spec_plan_text(plan@),
{
    let mut s = String::new();
    s.append("{\"complexity\":");
    s.append(quoted(plan.complexity.as_str()).as_str());
    s.append(",\"requires_swarm\":");
    if plan.requires_swarm {
        s.append("true");
    } else {
        s.append("false");
    }
    s.append(",\"subtasks\":[");
    s.append(subtask_texts(&plan.subtasks).as_str());
    s.append("],\"estimated_total_duration\":");
    s.append(number_or_null(plan.estimated_total_duration).as_str());
    s.append(",\"reasoning\":");
    s.append(quoted(plan.reasoning.as_str()).as_str());
    s.append("}");
    assert(s@ =~= spec_plan_text(plan@));
    s
}

} // verus!
