//! The catalog of skills that agents can hold.

use vstd::prelude::*;

verus! {

/// One skill of the catalog. Names are unique.
#[derive(Debug)]
pub struct AgentSkill {
    pub id: u128,
    pub name: String,
    pub description: String,
    pub prompt_modifier: Option<String>,
    pub category: String,
    pub icon: Option<String>,
    pub created_at: i64,
    pub updated_at: i64,
}

/// What a caller supplies to add a skill to the catalog.
#[derive(Debug)]
pub struct CreateAgentSkill {
    pub name: String,
    pub description: String,
    pub prompt_modifier: Option<String>,
    pub category: Option<String>,
    pub icon: Option<String>,
}

/// A partial update of a skill.
#[derive(Debug)]
pub struct UpdateAgentSkill {
    pub name: Option<String>,
    pub description: Option<String>,
    pub prompt_modifier: Option<String>,
    pub category: Option<String>,
    pub icon: Option<String>,
}

} // verus!
