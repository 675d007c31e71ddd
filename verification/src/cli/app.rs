//! The state of the interactive board: views, input modes, columns.

use vstd::prelude::*;
use crate::cli::types::TaskStatus;

verus! {

/// The screens of the client.
#[derive(Debug, Clone, Copy, PartialEq, Eq, Structural)]
pub enum Screen {
    Projects,
    Tasks,
    Workspaces,
    WorkspaceDetail,
    CreateTask,
    CreateAttempt,
    Help,
}

impl Default for Screen {
    fn default() -> (v: Self)
        ensures
            v == Screen::Projects,
    {
        Screen::Projects
    }
}

/// Whether keys navigate or edit a text field.
#[derive(Debug, Clone, Copy, PartialEq, Eq, Structural)]
pub enum InputMode {
    Normal,
    Editing,
}

impl Default for InputMode {
    fn default() -> (m: Self)
        ensures
            m == InputMode::Normal,
    {
        InputMode::Normal
    }
}

/// A column of the board.
#[derive(Debug, Clone, Copy, PartialEq, Eq, Structural)]
pub enum TaskColumn {
    Todo,
    InProgress,
    InReview,
    Done,
}

impl TaskColumn {
    /// The position of the column on the board, from the left.
    pub open spec fn spec_index(self) -> int {
        match self {
            TaskColumn::Todo => 0,
            TaskColumn::InProgress => 1,
            TaskColumn::InReview => 2,
            TaskColumn::Done => 3,
        }
    }

    /// The column at a position of the board.
    pub open spec fn spec_at(index: int) -> TaskColumn {
        if index <= 0 {
            TaskColumn::Todo
        } else if index == 1 {
            TaskColumn::InProgress
        } else if index == 2 {
            TaskColumn::InReview
        } else {
            TaskColumn::Done
        }
    }

    /// The status of the tasks that the column shows.
    pub open spec fn spec_status(self) -> TaskStatus {
        match self {
            TaskColumn::Todo => TaskStatus::Todo,
            TaskColumn::InProgress => TaskStatus::Inprogress,
            TaskColumn::InReview => TaskStatus::Inreview,
            TaskColumn::Done => TaskStatus::Done,
        }
    }

    /// The heading of the column.
    pub open spec fn spec_title(self) -> Seq<char> {
        match self {
            TaskColumn::Todo => "To Do"@,
            TaskColumn::InProgress => "In Progress"@,
            TaskColumn::InReview => "In Review"@,
            TaskColumn::Done => "Done"@,
        }
    }

    /// The position of the column on the board, from the left.
    pub fn index(&self) -> (i: usize)
        ensures
            i == self.spec_index(),
    {
        match self {
            TaskColumn::Todo => 0,
            TaskColumn::InProgress => 1,
            TaskColumn::InReview => 2,
            TaskColumn::Done => 3,
        }
    }

    pub fn status(&self) -> (s: TaskStatus)
        ensures
            s == self.spec_status(),
    {
        match self {
            TaskColumn::Todo => TaskStatus::Todo,
            TaskColumn::InProgress => TaskStatus::Inprogress,
            TaskColumn::InReview => TaskStatus::Inreview,
            TaskColumn::Done => TaskStatus::Done,
        }
    }

    /// The column to the right; the last column stays where it is.
    pub fn next(&self) -> (c: Self)
        ensures
            c == Self::spec_at(self.spec_index() + 1),
            c.spec_index() == (if self.spec_index() < 3 {
                self.spec_index() + 1
            } else {
                3
            }),
    {
        match self {
            TaskColumn::Todo => TaskColumn::InProgress,
            TaskColumn::InProgress => TaskColumn::InReview,
            TaskColumn::InReview => TaskColumn::Done,
            TaskColumn::Done => TaskColumn::Done,
        }
    }

    /// The column to the left; the first column stays where it is.
    pub fn prev(&self) -> (c: Self)
        ensures
            c == Self::spec_at(self.spec_index() - 1),
            c.spec_index() == (if self.spec_index() > 0 {
                self.spec_index() - 1
            } else {
                0
            }),
    {
        match self {
            TaskColumn::Todo => TaskColumn::Todo,
            TaskColumn::InProgress => TaskColumn::Todo,
            TaskColumn::InReview => TaskColumn::InProgress,
            TaskColumn::Done => TaskColumn::InReview,
        }
    }

    pub fn title(&self) -> (s: &'static str)
        ensures
            s@ == self.spec_title(),
            s@ == self.spec_status().spec_display_name(),
    {
        match self {
            TaskColumn::Todo => "To Do",
            TaskColumn::InProgress => "In Progress",
            TaskColumn::InReview => "In Review",
            TaskColumn::Done => "Done",
        }
    }
}

/// The selection after a step up in a list: one less, but never below 0.
pub fn step_up(selected: usize) -> (s: usize)
    ensures
        s == (if selected > 0 {
            selected - 1
        } else {
            0
        }),
{
    if selected > 0 {
        selected - 1
    } else {
        0
    }
}

/// The selection after a step down in a list of `len` entries: one
/// more, but never past the last entry.
pub fn step_down(selected: usize, len: usize) -> (s: usize)
    ensures
        s == (if len > 0 && selected < len - 1 {
            selected + 1
        } else {
            selected as int
        }),
{
    if len > 0 && selected < len - 1 {
        selected + 1
    } else {
        selected
    }
}

/// The navigation state of the interactive client: where the user is,
/// what is selected, and what the status line says.
#[derive(Debug)]
pub struct App {
    pub view: Screen,
    pub previous_view: Option<Screen>,
    pub input_mode: InputMode,
    pub should_quit: bool,
    pub status_message: Option<String>,
    pub error_message: Option<String>,
    pub selected_project_index: usize,
    pub selected_column: TaskColumn,
    pub selected_todo_index: usize,
    pub selected_in_progress_index: usize,
    pub selected_in_review_index: usize,
    pub selected_done_index: usize,
    pub selected_workspace_index: usize,
}

impl App {
    /// The selection in a column of the board.
    pub open spec fn spec_selected_in(&self, column: TaskColumn) -> usize {
        match column {
            TaskColumn::Todo => self.selected_todo_index,
            TaskColumn::InProgress => self.selected_in_progress_index,
            TaskColumn::InReview => self.selected_in_review_index,
            TaskColumn::Done => self.selected_done_index,
        }
    }

    /// The state in which the client starts: the list of projects, with the first entry selected.
    pub fn new() -> (app: Self)
        ensures
            app.view == Screen::Projects,
            app.previous_view is None,
            app.input_mode == InputMode::Normal,
            !app.should_quit,
            app.status_message is None,
            app.error_message is None,
            app.selected_project_index == 0,
            app.selected_column == TaskColumn::Todo,
            forall|c: TaskColumn| app.spec_selected_in(c) == 0,
            app.selected_workspace_index == 0,
    {
        App {
            view: Screen::Projects,
            previous_view: None,
            input_mode: InputMode::Normal,
            should_quit: false,
            status_message: None,
            error_message: None,
            selected_project_index: 0,
            selected_column: TaskColumn::Todo,
            selected_todo_index: 0,
            selected_in_progress_index: 0,
            selected_in_review_index: 0,
            selected_done_index: 0,
            selected_workspace_index: 0,
        }
    }

    /// The selection in a column of the board.
    pub fn selected_in(&self, column: TaskColumn) -> (i: usize)
        ensures
            i == self.spec_selected_in(column),
    {
        match column {
            TaskColumn::Todo => self.selected_todo_index,
            TaskColumn::InProgress => self.selected_in_progress_index,
            TaskColumn::InReview => self.selected_in_review_index,
            TaskColumn::Done => self.selected_done_index,
        }
    }

    /// Sets the selection in a column of the board.
    fn select_in(&mut self, column: TaskColumn, index: usize)
        ensures
            final(self).spec_selected_in(column) == index,
            forall|c: TaskColumn| c != column ==> final(self).spec_selected_in(c) == old(self).spec_selected_in(c),
            final(self).view == old(self).view,
            final(self).previous_view == old(self).previous_view,
            final(self).input_mode == old(self).input_mode,
            final(self).should_quit == old(self).should_quit,
            final(self).status_message == old(self).status_message,
            final(self).error_message == old(self).error_message,
            final(self).selected_project_index == old(self).selected_project_index,
            final(self).selected_column == old(self).selected_column,
            final(self).selected_workspace_index == old(self).selected_workspace_index,
    {
        match column {
            TaskColumn::Todo => {
                self.selected_todo_index = index;
            },
            TaskColumn::InProgress => {
                self.selected_in_progress_index = index;
            },
            TaskColumn::InReview => {
                self.selected_in_review_index = index;
            },
            TaskColumn::Done => {
                self.selected_done_index = index;
            },
        }
    }

    /// Shows a status message, and drops the error message.
    pub fn set_status(&mut self, message: String)
        ensures
            final(self).status_message.deep_view() == Some(message@),
            final(self).error_message is None,
            final(self).spec_same_place(old(self)),
    {
        self.status_message = Some(message);
        self.error_message = None;
    }

    /// Shows an error message, and drops the status message.
    pub fn set_error(&mut self, message: String)
        ensures
            final(self).error_message.deep_view() == Some(message@),
            final(self).status_message is None,
            final(self).spec_same_place(old(self)),
    {
        self.error_message = Some(message);
        self.status_message = None;
    }

    /// Drops both messages.
    pub fn clear_messages(&mut self)
        ensures
            final(self).status_message is None,
            final(self).error_message is None,
            final(self).spec_same_place(old(self)),
    {
        self.status_message = None;
        self.error_message = None;
    }

    /// `self` shows the same screen with the same selections as `other`.
    pub open spec fn spec_same_place(&self, other: &App) -> bool {
        &&& self.view == other.view
        &&& self.previous_view == other.previous_view
        &&& self.input_mode == other.input_mode
        &&& self.should_quit == other.should_quit
        &&& self.spec_same_selection(other)
    }

    /// `self` has the same selections as `other`.
    pub open spec fn spec_same_selection(&self, other: &App) -> bool {
        &&& self.selected_project_index == other.selected_project_index
        &&& self.selected_column == other.selected_column
        &&& self.selected_workspace_index == other.selected_workspace_index
        &&& forall|c: TaskColumn| self.spec_selected_in(c) == other.spec_selected_in(c)
    }

    /// `self` shows the same messages as `other`.
    pub open spec fn spec_same_messages(&self, other: &App) -> bool {
        &&& self.status_message == other.status_message
        &&& self.error_message == other.error_message
    }

    /// Goes back to the screen that the user came from, if there is one.
    pub fn go_back(&mut self)
        ensures
            final(self).previous_view is None,
            final(self).view == (match old(self).previous_view {
                Some(v) => v,
                None => old(self).view,
            }),
            final(self).input_mode == old(self).input_mode,
            final(self).should_quit == old(self).should_quit,
            final(self).spec_same_selection(old(self)),
            final(self).spec_same_messages(old(self)),
    {
        match self.previous_view {
            Some(v) => {
                self.view = v;
                self.previous_view = None;
            },
            None => {},
        }
    }

    /// Goes to a screen, and remembers the one that the user leaves.
    pub fn navigate_to(&mut self, view: Screen)
        ensures
            final(self).view == view,
            final(self).previous_view == Some(old(self).view),
            final(self).input_mode == old(self).input_mode,
            final(self).should_quit == old(self).should_quit,
            final(self).spec_same_selection(old(self)),
            final(self).spec_same_messages(old(self)),
    {
        self.previous_view = Some(self.view);
        self.view = view;
    }

    /// Moves the selection up in the list of the current screen.
    pub fn move_up(&mut self)
        ensures
            final(self).view == old(self).view,
            final(self).previous_view == old(self).previous_view,
            final(self).input_mode == old(self).input_mode,
            final(self).should_quit == old(self).should_quit,
            final(self).selected_column == old(self).selected_column,
            final(self).spec_same_messages(old(self)),
            final(self).selected_project_index == (if old(self).view == Screen::Projects
                && old(self).selected_project_index > 0 {
                old(self).selected_project_index - 1
            } else {
                old(self).selected_project_index as int
            }),
            final(self).selected_workspace_index == (if old(self).view == Screen::Workspaces
                && old(self).selected_workspace_index > 0 {
                old(self).selected_workspace_index - 1
            } else {
                old(self).selected_workspace_index as int
            }),
            forall|c: TaskColumn|
                final(self).spec_selected_in(c) == (if old(self).view == Screen::Tasks && c == old(
                    self,
                ).selected_column && old(self).spec_selected_in(c) > 0 {
                    old(self).spec_selected_in(c) - 1
                } else {
                    old(self).spec_selected_in(c) as int
                }),
    {
        match self.view {
            Screen::Projects => {
                self.selected_project_index = step_up(self.selected_project_index);
            },
            Screen::Tasks => {
                let column = self.selected_column;
                let index = step_up(self.selected_in(column));
                self.select_in(column, index);
            },
            Screen::Workspaces => {
                self.selected_workspace_index = step_up(self.selected_workspace_index);
            },
            _ => {},
        }
    }

    /// Moves the selection down in the list of the current screen, which
    /// has `len` entries: the projects, the tasks of the selected column,
    /// or the workspaces.
    pub fn move_down(&mut self, len: usize)
        ensures
            final(self).view == old(self).view,
            final(self).previous_view == old(self).previous_view,
            final(self).input_mode == old(self).input_mode,
            final(self).should_quit == old(self).should_quit,
            final(self).selected_column == old(self).selected_column,
            final(self).spec_same_messages(old(self)),
            final(self).selected_project_index == (if old(self).view == Screen::Projects && len > 0
                && old(self).selected_project_index < len - 1 {
                old(self).selected_project_index + 1
            } else {
                old(self).selected_project_index as int
            }),
            final(self).selected_workspace_index == (if old(self).view == Screen::Workspaces && len
                > 0 && old(self).selected_workspace_index < len - 1 {
                old(self).selected_workspace_index + 1
            } else {
                old(self).selected_workspace_index as int
            }),
            forall|c: TaskColumn|
                final(self).spec_selected_in(c) == (if old(self).view == Screen::Tasks && c == old(
                    self,
                ).selected_column && len > 0 && old(self).spec_selected_in(c) < len - 1 {
                    old(self).spec_selected_in(c) + 1
                } else {
                    old(self).spec_selected_in(c) as int
                }),
    {
        match self.view {
            Screen::Projects => {
                self.selected_project_index = step_down(self.selected_project_index, len);
            },
            Screen::Tasks => {
                let column = self.selected_column;
                let index = step_down(self.selected_in(column), len);
                self.select_in(column, index);
            },
            Screen::Workspaces => {
                self.selected_workspace_index = step_down(self.selected_workspace_index, len);
            },
            _ => {},
        }
    }

    /// Moves to the column on the left, on the board.
    pub fn move_left(&mut self)
        ensures
            final(self).selected_column == (if old(self).view == Screen::Tasks {
                TaskColumn::spec_at(old(self).selected_column.spec_index() - 1)
            } else {
                old(self).selected_column
            }),
            final(self).view == old(self).view,
            final(self).previous_view == old(self).previous_view,
            final(self).input_mode == old(self).input_mode,
            final(self).should_quit == old(self).should_quit,
            final(self).selected_project_index == old(self).selected_project_index,
            final(self).selected_workspace_index == old(self).selected_workspace_index,
            forall|c: TaskColumn| final(self).spec_selected_in(c) == old(self).spec_selected_in(c),
            final(self).spec_same_messages(old(self)),
    {
        if self.view == Screen::Tasks {
            self.selected_column = self.selected_column.prev();
        }
    }

    /// Moves to the column on the right, on the board.
    pub fn move_right(&mut self)
        ensures
            final(self).selected_column == (if old(self).view == Screen::Tasks {
                TaskColumn::spec_at(old(self).selected_column.spec_index() + 1)
            } else {
                old(self).selected_column
            }),
            final(self).view == old(self).view,
            final(self).previous_view == old(self).previous_view,
            final(self).input_mode == old(self).input_mode,
            final(self).should_quit == old(self).should_quit,
            final(self).selected_project_index == old(self).selected_project_index,
            final(self).selected_workspace_index == old(self).selected_workspace_index,
            forall|c: TaskColumn| final(self).spec_selected_in(c) == old(self).spec_selected_in(c),
            final(self).spec_same_messages(old(self)),
    {
        if self.view == Screen::Tasks {
            self.selected_column = self.selected_column.next();
        }
    }
}

} // verus!
