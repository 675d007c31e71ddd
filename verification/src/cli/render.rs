//! Lines of the live board.

use vstd::prelude::*;
use vstd::string::*;
use crate::cli::types::TaskWithAttemptStatus;

verus! {

/// The marks of a task on the board: `RUN` while an attempt is under
/// way, `FAIL` where the last attempt failed.
pub open spec fn spec_flags(running: bool, failed: bool) -> Seq<char> {
    if running && failed {
        " [RUN|FAIL]"@
    } else if running {
        " [RUN]"@
    } else if failed {
        " [FAIL]"@
    } else {
        Seq::empty()
    }
}

/// The executor of a task in brackets; nothing where it is unknown.
pub open spec fn spec_executor_note(executor: Seq<char>) -> Seq<char> {
    if executor.len() == 0 {
        Seq::empty()
    } else {
        " ("@ + executor + ")"@
    }
}

/// The line of a task on the board: title, executor, marks.
pub open spec fn spec_task_line(task: &TaskWithAttemptStatus) -> Seq<char> {
    task.task.title@ + spec_executor_note(task.executor@) + spec_flags(
        task.has_in_progress_attempt,
        task.last_attempt_failed,
    )
}

/// Writes the line of a task on the board.
pub fn format_task_line(task: &TaskWithAttemptStatus) -> (line: String)
    ensures
        line@ == spec_task_line(task),
{
    let mut line = task.task.title.clone();
    if !task.executor.as_str().is_empty() {
        line.append(" (");
        line.append(task.executor.as_str());
        line.append(")");
    }
    if task.has_in_progress_attempt && task.last_attempt_failed {
        line.append(" [RUN|FAIL]");
    } else if task.has_in_progress_attempt {
        line.append(" [RUN]");
    } else if task.last_attempt_failed {
        line.append(" [FAIL]");
    }
    assert(line@ =~= spec_task_line(task));
    line
}

} // verus!
