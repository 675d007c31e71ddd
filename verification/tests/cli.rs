use swarm_orchestrator::cli::app::{step_down, step_up, App, InputMode, Screen, TaskColumn};
use swarm_orchestrator::cli::args::default_server;
use swarm_orchestrator::cli::render::format_task_line;
use swarm_orchestrator::cli::resolve::{
    default_branch_from_list, find_repo, split_repo_branch, tasks_stream_path,
    tasks_stream_query, ws_scheme,
};
use swarm_orchestrator::cli::types::{
    available_executors, BaseCodingAgent, GitBranch, Repo, Task, TaskStatus,
    TaskWithAttemptStatus,
};
use swarm_orchestrator::cli::watch::{select_task_by_filter, WatchFilter};
use swarm_orchestrator::cli::utils::{
    pad_truncate, slug_of, task_slug, truncate_title, yes_no,
};
use swarm_orchestrator::ident::parse_uuid;

fn branch(name: &str) -> GitBranch {
    GitBranch { name: name.to_string(), is_current: false, is_remote: false, last_commit_date: 0 }
}

fn repo(id: u128, name: &str, display_name: &str, path: &str) -> Repo {
    Repo {
        id,
        path: path.to_string(),
        name: name.to_string(),
        display_name: display_name.to_string(),
        setup_script: None,
        cleanup_script: None,
        copy_files: None,
        parallel_setup_script: false,
        dev_server_script: None,
        created_at: 0,
        updated_at: 0,
    }
}

#[test]
fn columns_walk_the_board() {
    assert_eq!(TaskColumn::Todo.next(), TaskColumn::InProgress);
    assert_eq!(TaskColumn::InProgress.next(), TaskColumn::InReview);
    assert_eq!(TaskColumn::InReview.next(), TaskColumn::Done);
    assert_eq!(TaskColumn::Done.next(), TaskColumn::Done);
    assert_eq!(TaskColumn::Todo.prev(), TaskColumn::Todo);
    assert_eq!(TaskColumn::InProgress.prev(), TaskColumn::Todo);
    assert_eq!(TaskColumn::InReview.prev(), TaskColumn::InProgress);
    assert_eq!(TaskColumn::Done.prev(), TaskColumn::InReview);
    assert_eq!(TaskColumn::Todo.status(), TaskStatus::Todo);
    assert_eq!(TaskColumn::InProgress.status(), TaskStatus::Inprogress);
    assert_eq!(TaskColumn::InReview.status(), TaskStatus::Inreview);
    assert_eq!(TaskColumn::Done.status(), TaskStatus::Done);
    for column in [TaskColumn::Todo, TaskColumn::InProgress, TaskColumn::InReview, TaskColumn::Done] {
        assert_eq!(column.title(), column.status().display_name());
    }
    assert_eq!(TaskColumn::InReview.title(), "In Review");
    assert_eq!(TaskColumn::Done.index(), 3);
    assert_eq!(Screen::default(), Screen::Projects);
    assert_eq!(InputMode::default(), InputMode::Normal);
}

#[test]
fn selections_stay_inside_their_lists() {
    assert_eq!(step_up(0), 0);
    assert_eq!(step_up(3), 2);
    assert_eq!(step_down(0, 0), 0);
    assert_eq!(step_down(0, 1), 0);
    assert_eq!(step_down(0, 2), 1);
    assert_eq!(step_down(4, 5), 4);
}

#[test]
fn wire_names() {
    assert_eq!(TaskStatus::Todo.as_str(), "todo");
    assert_eq!(TaskStatus::Inprogress.as_str(), "inprogress");
    assert_eq!(TaskStatus::Inreview.as_str(), "inreview");
    assert_eq!(TaskStatus::Done.as_str(), "done");
    assert_eq!(TaskStatus::Cancelled.as_str(), "cancelled");
    assert_eq!(TaskStatus::Todo.display_name(), "To Do");
    assert_eq!(TaskStatus::Inprogress.display_name(), "In Progress");
    assert_eq!(TaskStatus::Cancelled.display_name(), "Cancelled");
    assert_eq!(BaseCodingAgent::ClaudeCode.as_str(), "CLAUDE_CODE");
    assert_eq!(BaseCodingAgent::Amp.as_str(), "AMP");
    assert_eq!(BaseCodingAgent::Gemini.as_str(), "GEMINI");
    assert_eq!(BaseCodingAgent::Codex.as_str(), "CODEX");
    assert_eq!(BaseCodingAgent::Opencode.as_str(), "OPENCODE");
    assert_eq!(BaseCodingAgent::CursorAgent.as_str(), "CURSOR_AGENT");
    assert_eq!(BaseCodingAgent::QwenCode.as_str(), "QWEN_CODE");
    assert_eq!(BaseCodingAgent::Copilot.as_str(), "COPILOT");
    assert_eq!(BaseCodingAgent::Droid.as_str(), "DROID");
    assert_eq!(available_executors().len(), 9);
    assert_eq!(available_executors()[0], BaseCodingAgent::CursorAgent);
    assert_eq!(default_server(), "http://localhost:5173");
}

#[test]
fn text_is_fitted_to_columns() {
    assert_eq!(pad_truncate("abc", 5), "abc  ");
    assert_eq!(pad_truncate("abc", 3), "abc");
    assert_eq!(pad_truncate("", 2), "  ");
    assert_eq!(pad_truncate("abcdefgh", 6), "abc...");
    assert_eq!(pad_truncate("abcdefgh", 4), "a...");
    assert_eq!(pad_truncate("abcdefgh", 3), "abc");
    assert_eq!(pad_truncate("abcdefgh", 0), "");
    assert_eq!(pad_truncate("abcdefgh", 8), "abcdefgh");
    // Two characters of two bytes each do not fit three bytes, though they fit three columns.
    assert_eq!(pad_truncate("\u{e9}\u{e9}", 3), "\u{e9}\u{e9}");
    assert_eq!(pad_truncate("\u{e9}\u{e9}", 4), "\u{e9}\u{e9}  ");
    assert_eq!(pad_truncate("\u{e9}\u{e9}\u{e9}", 5), "\u{e9}\u{e9}...");
}

#[test]
fn prompts_become_titles() {
    assert_eq!(truncate_title("  fix the bug \n"), "fix the bug");
    assert_eq!(truncate_title("\u{a0}\u{3000}x\u{2003}"), "x");
    assert_eq!(truncate_title("   "), "");
    assert_eq!(truncate_title(""), "");
    let sixty = "a".repeat(60);
    assert_eq!(truncate_title(&sixty), sixty);
    let long = "b".repeat(61);
    assert_eq!(truncate_title(&long), format!("{}...", "b".repeat(60)));
    assert_eq!(truncate_title(&format!("  {long}  ")), format!("{}...", "b".repeat(60)));
    // 31 two-byte characters are 62 bytes: too long in bytes, so three dots follow all of them.
    let accented = "\u{e9}".repeat(31);
    assert_eq!(truncate_title(&accented), format!("{accented}..."));
    assert_eq!(truncate_title("a\u{200b}"), "a\u{200b}");
}

#[test]
fn truth_values_have_words() {
    assert_eq!(yes_no(true), "yes");
    assert_eq!(yes_no(false), "no");
}

#[test]
fn titles_become_slugs() {
    assert_eq!(task_slug("Fix the Login Bug!"), "fix-the-login-bu");
    assert_eq!(task_slug("Hello, World"), "hello-world");
    assert_eq!(task_slug("  --Weird__name--  "), "weird-name");
    assert_eq!(task_slug("abcdefghijklmno pq"), "abcdefghijklmno");
    assert_eq!(task_slug("!!!"), "");
    assert_eq!(task_slug(""), "");
    assert_eq!(task_slug("\u{c9}t\u{e9} 2024"), "t-2024");
    assert_eq!(slug_of("--a-b--"), "a-b");
    assert_eq!(slug_of("abcdefghijklmnop-qrs"), "abcdefghijklmnop");
    assert_eq!(slug_of("abcdefghijklmno--qrs"), "abcdefghijklmno");
    assert_eq!(slug_of("Kept As Is"), "Kept As Is");
}

#[test]
fn repository_references_split_at_the_last_at_sign() {
    let split = |s: &str| split_repo_branch(s);
    assert_eq!(split("repo@main"), ("repo".to_string(), Some("main".to_string())));
    assert_eq!(split("repo"), ("repo".to_string(), None));
    assert_eq!(split("repo@"), ("repo@".to_string(), None));
    assert_eq!(split("@main"), ("".to_string(), Some("main".to_string())));
    assert_eq!(split("a@b@c"), ("a@b".to_string(), Some("c".to_string())));
    assert_eq!(split("a@@c"), ("a@".to_string(), Some("c".to_string())));
    assert_eq!(split(""), ("".to_string(), None));
    assert_eq!(split("@"), ("@".to_string(), None));
    assert_eq!(split("r\u{e9}po@br\u{e4}nch"), ("r\u{e9}po".to_string(), Some("br\u{e4}nch".to_string())));
}

#[test]
fn default_branches() {
    assert_eq!(default_branch_from_list(&Vec::new()), None);
    assert_eq!(
        default_branch_from_list(&vec![branch("dev"), branch("master"), branch("main")]),
        Some("main".to_string())
    );
    assert_eq!(
        default_branch_from_list(&vec![branch("dev"), branch("master")]),
        Some("master".to_string())
    );
    assert_eq!(
        default_branch_from_list(&vec![branch("dev"), branch("Main")]),
        Some("dev".to_string())
    );
}

#[test]
fn repositories_are_found_by_identifier_name_or_path() {
    let id: u128 = 0x67e55044_10b1_426f_9247_bb680e5fe0c8;
    let repos = vec![
        repo(1, "api", "Backend API", "/srv/code/api"),
        repo(id, "web", "Web App", "/srv/code/Web-Frontend"),
        repo(3, "web", "Other", "/tmp/other"),
    ];
    assert_eq!(find_repo(&repos, "67e55044-10b1-426f-9247-bb680e5fe0c8"), Some(1));
    assert_eq!(find_repo(&repos, "67E5504410B1426F9247BB680E5FE0C8"), Some(1));
    assert_eq!(find_repo(&repos, "00000000-0000-0000-0000-000000000009"), None);
    assert_eq!(find_repo(&repos, "API"), Some(0));
    assert_eq!(find_repo(&repos, "backend api"), Some(0));
    assert_eq!(find_repo(&repos, "web"), Some(1));
    assert_eq!(find_repo(&repos, "web-frontend"), Some(1));
    assert_eq!(find_repo(&repos, "other"), Some(2));
    assert_eq!(find_repo(&repos, "missing"), None);
    assert_eq!(find_repo(&Vec::new(), "api"), None);
}

#[test]
fn identifiers_are_read_from_text() {
    assert_eq!(
        parse_uuid("67e55044-10b1-426f-9247-bb680e5fe0c8"),
        Some(0x67e55044_10b1_426f_9247_bb680e5fe0c8)
    );
    assert_eq!(parse_uuid("00000000-0000-0000-0000-000000000001"), Some(1));
    assert_eq!(parse_uuid("not-a-uuid"), None);
    assert_eq!(parse_uuid(""), None);
}

#[test]
fn board_lines_and_filters() {
    let entry = |id: u128, title: &str, executor: &str, running: bool, failed: bool| TaskWithAttemptStatus {
        has_in_progress_attempt: running,
        last_attempt_failed: failed,
        executor: executor.to_string(),
        task: Task {
            id,
            project_id: 1,
            title: title.to_string(),
            description: None,
            status: TaskStatus::Todo,
            parent_workspace_id: None,
            is_epic: false,
            complexity: None,
            metadata: None,
            created_at: String::new(),
            updated_at: String::new(),
        },
    };
    assert_eq!(format_task_line(&entry(1, "Fix", "", false, false)), "Fix");
    assert_eq!(format_task_line(&entry(1, "Fix", "CODEX", false, false)), "Fix (CODEX)");
    assert_eq!(format_task_line(&entry(1, "Fix", "", true, false)), "Fix [RUN]");
    assert_eq!(format_task_line(&entry(1, "Fix", "", false, true)), "Fix [FAIL]");
    assert_eq!(format_task_line(&entry(1, "Fix", "AMP", true, true)), "Fix (AMP) [RUN|FAIL]");

    let tasks = vec![
        entry(1, "Fix the login", "", false, false),
        entry(2, "Write docs", "", false, false),
        entry(3, "Fix the Login!", "", false, false),
    ];
    assert_eq!(select_task_by_filter(&tasks, &WatchFilter::TaskId(2)), Some(1));
    assert_eq!(select_task_by_filter(&tasks, &WatchFilter::TaskId(9)), None);
    assert_eq!(select_task_by_filter(&tasks, &WatchFilter::Slug("write-docs".to_string())), Some(1));
    assert_eq!(select_task_by_filter(&tasks, &WatchFilter::Slug("fix-the-login".to_string())), Some(0));
    assert_eq!(select_task_by_filter(&tasks, &WatchFilter::Slug("nothing".to_string())), None);
    assert_eq!(select_task_by_filter(&tasks, &WatchFilter::Board), None);

    assert_eq!(ws_scheme("https"), Some("wss"));
    assert_eq!(ws_scheme("http"), Some("ws"));
    assert_eq!(ws_scheme("ftp"), None);
    assert_eq!(ws_scheme("HTTP"), None);
    assert_eq!(tasks_stream_path(), "/api/tasks/stream/ws");
    assert_eq!(
        tasks_stream_query(0x67e55044_10b1_426f_9247_bb680e5fe0c8),
        "project_id=67e55044-10b1-426f-9247-bb680e5fe0c8"
    );
}

#[test]
fn navigation_moves_between_screens_and_entries() {
    let mut app = App::new();
    assert_eq!(app.view, Screen::Projects);
    app.move_down(3);
    app.move_down(3);
    app.move_down(3);
    assert_eq!(app.selected_project_index, 2);
    app.move_up();
    assert_eq!(app.selected_project_index, 1);
    app.move_right();
    assert_eq!(app.selected_column, TaskColumn::Todo);

    app.navigate_to(Screen::Tasks);
    assert_eq!((app.view, app.previous_view), (Screen::Tasks, Some(Screen::Projects)));
    app.move_right();
    app.move_right();
    assert_eq!(app.selected_column, TaskColumn::InReview);
    app.move_down(2);
    app.move_down(2);
    assert_eq!(app.selected_in(TaskColumn::InReview), 1);
    assert_eq!(app.selected_in(TaskColumn::Todo), 0);
    assert_eq!(app.selected_project_index, 1);
    app.move_left();
    assert_eq!(app.selected_column, TaskColumn::InProgress);
    app.move_up();
    assert_eq!(app.selected_in(TaskColumn::InProgress), 0);
    app.move_down(0);
    assert_eq!(app.selected_in(TaskColumn::InProgress), 0);

    app.set_status("Loading".to_string());
    assert_eq!(app.status_message.as_deref(), Some("Loading"));
    app.set_error("Failed".to_string());
    assert_eq!((app.status_message.as_deref(), app.error_message.as_deref()), (None, Some("Failed")));
    app.set_status("Done".to_string());
    assert_eq!(app.error_message, None);
    app.clear_messages();
    assert_eq!((app.status_message.clone(), app.error_message.clone()), (None, None));

    app.go_back();
    assert_eq!((app.view, app.previous_view), (Screen::Projects, None));
    app.go_back();
    assert_eq!(app.view, Screen::Projects);
    app.navigate_to(Screen::Help);
    app.move_down(5);
    app.move_up();
    assert_eq!(app.selected_project_index, 1);
}
