//! Picking the task to watch.

use vstd::prelude::*;
use vstd::string::*;
use crate::cli::types::TaskWithAttemptStatus;
use crate::cli::utils::{spec_task_slug, task_slug};

verus! {

/// What to watch: the whole board, one task by identifier, or one task by the slug of its title.
#[derive(Debug)]
pub enum WatchFilter {
    Board,
    TaskId(u128),
    Slug(String),
}

/// The task at `i` is one that the filter asks for.
pub open spec fn spec_passes(tasks: Seq<TaskWithAttemptStatus>, filter: &WatchFilter, i: int) -> bool {
    match filter {
        WatchFilter::TaskId(id) => tasks[i].task.id == *id,
        WatchFilter::Slug(slug) => spec_task_slug(tasks[i].task.title@) == slug@,
        WatchFilter::Board => false,
    }
}

/// Finds the first task that the filter asks for.
pub fn select_task_by_filter(tasks: &Vec<TaskWithAttemptStatus>, filter: &WatchFilter) -> (r:
    Option<usize>)
    ensures
        r matches Some(i) ==> i < tasks.len() && spec_passes(tasks@, filter, i as int)
            && forall|j: int| 0 <= j < i ==> !spec_passes(tasks@, filter, j),
        r is None ==> forall|j: int| 0 <= j < tasks.len() ==> !spec_passes(tasks@, filter, j),
{
    let mut i: usize = 0;
    while i < tasks.len()
        invariant
            i <= tasks.len(),
            forall|j: int| 0 <= j < i ==> !spec_passes(tasks@, filter, j),
        decreases tasks.len() - i,
    {
        let hit = match filter {
            WatchFilter::TaskId(id) => tasks[i].task.id == *id,
            WatchFilter::Slug(slug) => task_slug(tasks[i].task.title.as_str()) == *slug,
            WatchFilter::Board => false,
        };
        if hit {
            return Some(i);
        }
        i += 1;
    }
    None
}

} // verus!
