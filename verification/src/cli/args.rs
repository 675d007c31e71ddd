//! The arguments of the command line.

use vstd::prelude::*;

verus! {

/// The arguments of one run.
#[derive(Debug)]
pub struct Args {
    /// The address of the server.
    pub server: String,
    /// Whether to log for debugging.
    pub debug: bool,
    pub command: Command,
}

/// What the run is asked to do.
#[derive(Debug)]
#[allow(inconsistent_fields)]
pub enum Command {
    /// Create a task and start an attempt at once.
    Create {
        project: String,
        prompt: String,
        title: Option<String>,
        status: String,
        tool: String,
        model: Option<String>,
        repos: Vec<String>,
        branch: Option<String>,
        watch: bool,
    },
    /// Watch the board, or one task.
    Watch { project: Option<String>, task: Option<String>, slug: Option<String> },
    /// List the projects of the server.
    Projects { json: bool },
    /// Manage projects.
    Project { command: ProjectCommand },
    /// Manage a local server process.
    Server { command: ServerCommand },
}

/// What to do with projects.
#[derive(Debug)]
pub enum ProjectCommand {
    /// Add a project from a local repository.
    Add { path: String, name: Option<String>, display_name: Option<String> },
}

/// What to do with the server process.
#[derive(Debug)]
pub enum ServerCommand {
    /// Start the server.
    Start { command: String, background: bool, log: String },
}

/// The address of the server where the command line names none.
pub open spec fn spec_default_server() -> Seq<char> {
    "http://localhost:5173"@
}

/// The address of the server where the command line names none.
pub fn default_server() -> (s: &'static str)
    ensures
        s@ == spec_default_server(),
{
    "http://localhost:5173"
}

} // verus!
