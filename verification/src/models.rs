//! Records of the orchestration data model and their mathematical views.

pub mod agent_profile;
pub mod agent_skill;
pub mod consensus_review;
pub mod swarm_execution;
pub mod swarm_task;
pub mod task;
