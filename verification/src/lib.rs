pub mod assignment;
pub mod events;
pub mod ident;
pub mod manager;
pub mod models;
pub mod quorum;
pub mod schedule;
pub mod swarm;
pub mod text;
pub mod json;
pub mod consensus;
pub mod panel;
pub mod planner;
pub mod plan_text;
pub mod verdict;
pub mod cli;
pub mod server;
pub mod team;
