//! The assignment policy: which worker gets a SubTask.
//!
//! Workers are scored by how many of the required skills they hold. Matching is
//! advisory: a worker with no matching skill is still picked when nobody does
//! better. Ties go to the higher priority, then to the lower identifier.

use vstd::prelude::*;
use crate::models::agent_profile::AgentProfileWithSkills;

verus! {

/// How many distinct required skills the worker holds.
pub open spec fn spec_skill_score(required: Seq<Seq<char>>, worker: AgentProfileWithSkills) -> nat {
    required.to_set().intersect(worker.skill_names()).len()
}

/// `a` is at least as good a choice as `b`: a higher score wins, then a
/// higher priority, then a lower identifier.
pub open spec fn spec_at_least_as_good(
    required: Seq<Seq<char>>,
    a: AgentProfileWithSkills,
    b: AgentProfileWithSkills,
) -> bool {
    let sa = spec_skill_score(required, a);
    let sb = spec_skill_score(required, b);
    sa > sb || (sa == sb && (a.profile.priority > b.profile.priority || (a.profile.priority
        == b.profile.priority && a.profile.id <= b.profile.id)))
}

/// The worker at `i` is available and no available worker of the pool is a better choice.
pub open spec fn spec_is_best(
    required: Seq<Seq<char>>,
    pool: Seq<AgentProfileWithSkills>,
    i: int,
) -> bool {
    &&& 0 <= i < pool.len()
    &&& pool[i].profile.spec_is_available_worker()
    &&& forall|j: int|
        0 <= j < pool.len() && (#[trigger] pool[j]).profile.spec_is_available_worker()
            ==> spec_at_least_as_good(required, pool[i], pool[j])
}

/// The pool holds at least one available worker.
pub open spec fn spec_has_worker(pool: Seq<AgentProfileWithSkills>) -> bool {
    exists|j: int| 0 <= j < pool.len() && (#[trigger] pool[j]).profile.spec_is_available_worker()
}

/// The policy's choice: the first position of the pool that holds a best
/// worker, or `None` where the pool holds no available worker.
pub open spec fn spec_best_worker(
    required: Seq<Seq<char>>,
    pool: Seq<AgentProfileWithSkills>,
) -> Option<int> {
    if exists|i: int| spec_is_best(required, pool, i) {
        let i = choose|i: int|
            spec_is_best(required, pool, i) && forall|j: int|
                0 <= j < i ==> !spec_is_best(required, pool, j);
        Some(i)
    } else {
        None
    }
}

/// Whether `name` occurs among the first `n` entries of `names`.
fn occurs_before(names: &Vec<String>, n: usize, name: &String) -> (b: bool)
    requires
        n <= names.len(),
    ensures
        b == names.deep_view().take(n as int).contains(name@),
{
    let mut k: usize = 0;
    while k < n
        invariant
            k <= n <= names.len(),
            !names.deep_view().take(k as int).contains(name@),
        decreases n - k,
    {
        if names[k] == *name {
            assert(names.deep_view().take(n as int)[k as int] == name@);
            return true;
        }
        assert(names.deep_view().take(k + 1) =~= names.deep_view().take(k as int).push(
            names[k as int]@,
        ));
        k += 1;
    }
    false
}

/// Whether the worker holds the skill called `name`.
pub fn holds_skill(worker: &AgentProfileWithSkills, name: &String) -> (b: bool)
    ensures
        b == worker.skill_names().contains(name@),
{
    let mut k: usize = 0;
    while k < worker.skills.len()
        invariant
            k <= worker.skills.len(),
            forall|j: int| 0 <= j < k ==> worker.skills[j].skill_name.deep_view() != Some(name@),
        decreases worker.skills.len() - k,
    {
        match &worker.skills[k].skill_name {
            Some(held) => {
                if *held == *name {
                    assert(worker.skills[k as int].skill_name.deep_view() == Some(name@));
                    return true;
                }
            },
            None => {},
        }
        k += 1;
    }
    false
}

/// Scores a worker against the required skills.
pub fn skill_score(required: &Vec<String>, worker: &AgentProfileWithSkills) -> (score: usize)
    ensures
        score == spec_skill_score(required.deep_view(), *worker),
{
    let ghost req = required.deep_view();
    let ghost names = worker.skill_names();
    let mut score: usize = 0;
    let mut i: usize = 0;
    proof {
        assert(req.take(0).to_set() =~= Set::<Seq<char>>::empty());
        assert(req.take(0).to_set().intersect(names) =~= Set::<Seq<char>>::empty());
    }
    while i < required.len()
        invariant
            i <= required.len(),
            req == required.deep_view(),
            names == worker.skill_names(),
            score <= i,
            score == req.take(i as int).to_set().intersect(names).len(),
        decreases required.len() - i,
    {
        let seen = occurs_before(required, i, &required[i]);
        let held = holds_skill(worker, &required[i]);
        proof {
            broadcast use vstd::set::group_set_axioms;
            broadcast use vstd::seq_lib::seq_to_set_is_finite;

            let before = req.take(i as int);
            let x = req[i as int];
            assert(x == required[i as int]@);
            assert(req.take(i + 1) =~= before.push(x));
            assert(before.push(x).to_set() =~= before.to_set().insert(x)) by {
                assert forall|y: Seq<char>|
                    before.push(x).to_set().contains(y) <==> before.to_set().insert(x).contains(
                        y,
                    ) by {
                    if before.push(x).contains(y) {
                        let k = choose|k: int| 0 <= k < before.push(x).len() && before.push(x)[k] == y;
                        if k < before.len() {
                            assert(before[k] == y);
                        }
                    }
                    if before.contains(y) {
                        let k = choose|k: int| 0 <= k < before.len() && before[k] == y;
                        assert(before.push(x)[k] == y);
                    }
                    if y == x {
                        assert(before.push(x)[before.len() as int] == y);
                    }
                }
            }
            let old_common = before.to_set().intersect(names);
            let new_common = before.to_set().insert(x).intersect(names);
            assert(before.to_set().finite());
            assert(old_common.finite());
            if seen {
                assert(before.to_set().contains(x));
                assert(new_common =~= old_common);
            } else if held {
                assert(!before.to_set().contains(x));
                assert(new_common =~= old_common.insert(x));
                assert(!old_common.contains(x));
            } else {
                assert(new_common =~= old_common);
            }
        }
        if !seen && held {
            score += 1;
        }
        i += 1;
    }
    proof {
        assert(req.take(required.len() as int) =~= req);
    }
    score
}

} // verus!
