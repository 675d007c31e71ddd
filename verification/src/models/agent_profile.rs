//! Agent profiles: who can plan, work and review, and with which skills.

use vstd::prelude::*;

verus! {

/// A long-lived agent. Only an active profile takes part in anything.
#[derive(Debug)]
pub struct AgentProfile {
    pub id: u128,
    pub name: String,
    pub description: Option<String>,
    pub executor: String,
    pub variant: Option<String>,
    pub executor_config: Option<String>,
    pub is_planner: bool,
    pub is_reviewer: bool,
    pub is_worker: bool,
    pub max_concurrent_tasks: i32,
    pub priority: i32,
    pub active: bool,
    pub created_at: i64,
    pub updated_at: i64,
}

/// One skill held by one profile, with the skill's name where it is known.
#[derive(Debug)]
pub struct AgentProfileSkill {
    pub agent_profile_id: u128,
    pub agent_skill_id: u128,
    pub proficiency: i32,
    pub skill_name: Option<String>,
    pub skill_description: Option<String>,
}

/// A profile together with the skills it holds.
#[derive(Debug)]
pub struct AgentProfileWithSkills {
    pub profile: AgentProfile,
    pub skills: Vec<AgentProfileSkill>,
}

/// A skill to give to a new profile.
#[derive(Debug, Clone, Copy)]
pub struct SkillAssignment {
    pub skill_id: u128,
    pub proficiency: Option<i32>,
}

/// What a caller supplies to create a profile.
#[derive(Debug)]
pub struct CreateAgentProfile {
    pub name: String,
    pub description: Option<String>,
    pub executor: String,
    pub variant: Option<String>,
    pub executor_config: Option<String>,
    pub is_planner: Option<bool>,
    pub is_reviewer: Option<bool>,
    pub is_worker: Option<bool>,
    pub max_concurrent_tasks: Option<i32>,
    pub priority: Option<i32>,
    pub skills: Option<Vec<SkillAssignment>>,
}

/// A partial update of a profile.
#[derive(Debug)]
pub struct UpdateAgentProfile {
    pub name: Option<String>,
    pub description: Option<String>,
    pub executor: Option<String>,
    pub variant: Option<String>,
    pub executor_config: Option<String>,
    pub is_planner: Option<bool>,
    pub is_reviewer: Option<bool>,
    pub is_worker: Option<bool>,
    pub max_concurrent_tasks: Option<i32>,
    pub priority: Option<i32>,
    pub active: Option<bool>,
}

impl AgentProfile {
    /// The profile may be handed SubTasks.
    pub open spec fn spec_is_available_worker(&self) -> bool {
        self.is_worker && self.active
    }

    /// The profile may be asked to review.
    pub open spec fn spec_is_available_reviewer(&self) -> bool {
        self.is_reviewer && self.active
    }

    /// The profile may be asked to plan.
    pub open spec fn spec_is_available_planner(&self) -> bool {
        self.is_planner && self.active
    }

    pub fn is_available_worker(&self) -> (b: bool)
        ensures
            b == self.spec_is_available_worker(),
    {
        self.is_worker && self.active
    }

    pub fn is_available_reviewer(&self) -> (b: bool)
        ensures
            b == self.spec_is_available_reviewer(),
    {
        self.is_reviewer && self.active
    }

    pub fn is_available_planner(&self) -> (b: bool)
        ensures
            b == self.spec_is_available_planner(),
    {
        self.is_planner && self.active
    }
}

impl AgentProfileWithSkills {
    /// The names of the skills that the profile holds.
    pub open spec fn skill_names(&self) -> Set<Seq<char>> {
        Set::new(
            |name: Seq<char>|
                exists|k: int|
                    0 <= k < self.skills.len() && (#[trigger] self.skills[k]).skill_name.deep_view()
                        == Some(name),
        )
    }
}

} // verus!
