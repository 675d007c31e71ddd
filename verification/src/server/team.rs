//! Request bodies of the team routes.

use vstd::prelude::*;

verus! {

/// The body of a request that reports the failure of a task.
#[derive(Debug)]
pub struct FailTaskRequest {
    pub error: String,
}

/// The body of a request that gives a skill to a profile.
#[derive(Debug, Clone, Copy)]
pub struct AddSkillRequest {
    pub proficiency: Option<i32>,
}

/// The body of a request that marks a task as an epic, or unmarks it.
#[derive(Debug, Clone, Copy)]
pub struct SetEpicRequest {
    pub is_epic: bool,
}

/// The proficiency that a skill is given with where the request names none.
pub const DEFAULT_PROFICIENCY: i32 = 3;

impl AddSkillRequest {
    /// The proficiency to record: the one that the request names, or the default.
    pub fn proficiency_or_default(&self) -> (p: i32)
        ensures
            p == (match self.proficiency {
                Some(v) => v,
                None => DEFAULT_PROFICIENCY,
            }),
    {
        match self.proficiency {
            Some(v) => v,
            None => DEFAULT_PROFICIENCY,
        }
    }
}

} // verus!
