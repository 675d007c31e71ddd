//! The bodies of the requests that the server's routes accept.

pub mod swarm;
pub mod team;
