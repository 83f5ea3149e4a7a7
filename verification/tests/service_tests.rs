use telegram_core::config::TelegramConfig;
use telegram_core::errors::TelegramError;
use telegram_core::ids::EntityId;
use telegram_core::repo::{ProjectInfo, RepoQuery, RepoReply, TaskInfo, TaskStatus};
use telegram_core::service::{
    Pending, Step, TelegramService, TelegramStatusResponse, UpdateResult, WebhookMessage,
};

const PROJECT_A: &str = "550e8400-e29b-41d4-a716-446655440000";
const PROJECT_B: &str = "123e4567-e89b-12d3-a456-426614174000";

fn id_of(text: &str) -> EntityId {
    telegram_core::ids::parse_uuid(text).unwrap()
}

fn message(text: &str) -> WebhookMessage {
    WebhookMessage {
        chat_id: 10,
        user_id: 20,
        username: Some("tester".to_string()),
        text: Some(text.to_string()),
    }
}

fn service() -> TelegramService {
    TelegramService::new(Some("credential".to_string()))
}

fn expect_response(step: Step) -> String {
    match step {
        Step::Done(UpdateResult::Response(text)) => text,
        other => panic!("expected a response, got {:?}", other),
    }
}

#[test]
fn test_textless_event_discarded() {
    let mut svc = service();
    let mut tc = TelegramConfig::default();
    let msg = WebhookMessage {
        chat_id: 1,
        user_id: 2,
        username: None,
        text: None,
    };
    assert!(matches!(
        svc.handle_update_at(&mut tc, msg, 0),
        Step::Done(UpdateResult::NoResponse)
    ));
}

#[test]
fn test_plain_text_discarded() {
    let mut svc = service();
    let mut tc = TelegramConfig::default();
    let step = svc.handle_update_at(&mut tc, message("hello there"), 0);
    assert!(matches!(step, Step::Done(UpdateResult::NoResponse)));
}

#[test]
fn test_bare_start_welcomes() {
    let mut svc = service();
    let mut tc = TelegramConfig::default();
    let text = expect_response(svc.handle_update_at(&mut tc, message("/start"), 0));
    assert!(text.starts_with("\u{f8ff}\u{fc}\u{eb}\u{e3} <b>Welcome to VibeKanban Bot!</b>"));
}

#[test]
fn test_start_with_unknown_token_apologises() {
    let mut svc = service();
    let mut tc = TelegramConfig::default();
    let text = expect_response(svc.handle_update_at(&mut tc, message("/start bogus-token"), 0));
    assert_eq!(
        text,
        "\u{201a}\u{f9}\u{e5} Invalid or expired link token. Please generate a new link from the web interface."
    );
    assert!(tc.chat_id.is_none());
}

#[test]
fn test_start_with_expired_token_apologises() {
    let mut svc = service();
    let mut tc = TelegramConfig::default();
    let (token, _) = svc.generate_link_token_at(0).unwrap();
    let text = expect_response(svc.handle_update_at(
        &mut tc,
        message(&format!("/start {}", token)),
        16 * 60_000,
    ));
    assert_eq!(
        text,
        "\u{201a}\u{f9}\u{e5} This link has expired. Please generate a new link from the web interface."
    );
    assert!(tc.chat_id.is_none());
}

#[test]
fn test_start_with_live_token_links() {
    let mut svc = service();
    let mut tc = TelegramConfig::default();
    let (token, _) = svc.generate_link_token_at(0).unwrap();
    let step = svc.handle_update_at(&mut tc, message(&format!("/start {}", token)), 60_000);
    match step {
        Step::Done(UpdateResult::LinkCompleted {
            chat_id,
            user_id,
            username,
        }) => {
            assert_eq!(chat_id, 10);
            assert_eq!(user_id, 20);
            assert_eq!(username, Some("tester".to_string()));
        }
        other => panic!("expected the completed link, got {:?}", other),
    }
    assert_eq!(tc.chat_id, Some(10));
    assert_eq!(tc.user_id, Some(20));
    assert_eq!(tc.username, Some("tester".to_string()));
    assert!(tc.notifications_enabled);
    assert!(tc.notify_on_task_done);
}

#[test]
fn test_help_command() {
    let mut svc = service();
    let mut tc = TelegramConfig::default();
    let text = expect_response(svc.handle_update_at(&mut tc, message("/help"), 0));
    assert!(text.starts_with("<b>VibeKanban Bot Commands</b>"));
}

#[test]
fn test_command_token_is_normalised() {
    let mut svc = service();
    let mut tc = TelegramConfig::default();
    let upper = expect_response(svc.handle_update_at(&mut tc, message("/HELP"), 0));
    assert!(upper.starts_with("<b>VibeKanban Bot Commands</b>"));
    let suffixed = expect_response(svc.handle_update_at(&mut tc, message("/help@somebot"), 0));
    assert!(suffixed.starts_with("<b>VibeKanban Bot Commands</b>"));
}

#[test]
fn test_unknown_command_hint() {
    let mut svc = service();
    let mut tc = TelegramConfig::default();
    let text = expect_response(svc.handle_update_at(&mut tc, message("/frobnicate now"), 0));
    assert_eq!(
        text,
        "Unknown command: /frobnicate. Use /help to see available commands."
    );
}

#[test]
fn test_projects_command_lists() {
    let mut svc = service();
    let mut tc = TelegramConfig::default();
    let step = svc.handle_update_at(&mut tc, message("/projects"), 0);
    let pending = match step {
        Step::Ask(RepoQuery::ListProjects, pending) => pending,
        other => panic!("expected the listing query, got {:?}", other),
    };
    assert!(matches!(pending, Pending::ShowProjects));

    let empty = svc.resume(Pending::ShowProjects, RepoReply::Projects(vec![]));
    assert_eq!(
        expect_response(empty),
        "No projects found. Create a project in the web interface first."
    );

    let one = ProjectInfo {
        id: id_of(PROJECT_A),
        name: "Alpha & Co".to_string(),
    };
    let listed = svc.resume(Pending::ShowProjects, RepoReply::Projects(vec![one]));
    assert_eq!(
        expect_response(listed),
        format!(
            "<b>Your Projects:</b>\n\n\u{201a}\u{c4}\u{a2} <b>Alpha &amp; Co</b>\n  <code>{}</code>\n\nUse /project <id> to set the active project.",
            PROJECT_A
        )
    );
}

#[test]
fn test_project_unknown_id_not_found() {
    let mut svc = service();
    let mut tc = TelegramConfig::default();
    let step = svc.handle_update_at(&mut tc, message(&format!("/project {}", PROJECT_A)), 0);
    let (pid, pending) = match step {
        Step::Ask(RepoQuery::FindProject(pid), pending) => (pid, pending),
        other => panic!("expected the lookup, got {:?}", other),
    };
    assert_eq!(pid, id_of(PROJECT_A));
    match svc.resume(pending, RepoReply::ProjectFound(None)) {
        Step::Fail(TelegramError::ProjectNotFound(reported)) => {
            assert_eq!(reported, id_of(PROJECT_A))
        }
        other => panic!("expected the not-found failure, got {:?}", other),
    }
}

#[test]
fn test_project_without_args_and_session() {
    let mut svc = service();
    let mut tc = TelegramConfig::default();
    let text = expect_response(svc.handle_update_at(&mut tc, message("/project"), 0));
    assert_eq!(text, "No active project set. Use /project <id> to set one.");
}

#[test]
fn test_project_bad_id_is_invalid_command() {
    let mut svc = service();
    let mut tc = TelegramConfig::default();
    match svc.handle_update_at(&mut tc, message("/project not-an-id"), 0) {
        Step::Fail(TelegramError::InvalidCommand(msg)) => {
            assert_eq!(msg, "Invalid ID format: not-an-id. Expected a UUID.")
        }
        other => panic!("expected the invalid-command failure, got {:?}", other),
    }
}

#[test]
fn test_project_found_sets_session() {
    let mut svc = service();
    let mut tc = TelegramConfig::default();
    let step = svc.handle_update_at(&mut tc, message(&format!("/project {}", PROJECT_A)), 0);
    let pending = match step {
        Step::Ask(RepoQuery::FindProject(_), pending) => pending,
        other => panic!("expected the lookup, got {:?}", other),
    };
    let found = ProjectInfo {
        id: id_of(PROJECT_A),
        name: "Alpha".to_string(),
    };
    let confirm = svc.resume(pending, RepoReply::ProjectFound(Some(found)));
    assert_eq!(
        expect_response(confirm),
        "\u{201a}\u{fa}\u{d6} Active project set to: <b>Alpha</b>"
    );
    assert_eq!(svc.get_active_project(10), Some(id_of(PROJECT_A)));
}

#[test]
fn test_session_last_write_wins() {
    let mut svc = service();
    svc.set_active_project(1, id_of(PROJECT_A));
    assert_eq!(svc.get_active_project(1), Some(id_of(PROJECT_A)));
    svc.set_active_project(1, id_of(PROJECT_B));
    assert_eq!(svc.get_active_project(1), Some(id_of(PROJECT_B)));
    assert_eq!(svc.get_active_project(2), None);
}

#[test]
fn test_tasks_without_session_fails() {
    let mut svc = service();
    let mut tc = TelegramConfig::default();
    match svc.handle_update_at(&mut tc, message("/tasks"), 0) {
        Step::Fail(TelegramError::NoActiveProject) => {}
        other => panic!("expected the no-active-project failure, got {:?}", other),
    }
}

#[test]
fn test_tasks_uses_session_project() {
    let mut svc = service();
    let mut tc = TelegramConfig::default();
    svc.set_active_project(10, id_of(PROJECT_B));
    match svc.handle_update_at(&mut tc, message("/tasks"), 0) {
        Step::Ask(RepoQuery::FindProject(pid), Pending::TasksProject { project_id }) => {
            assert_eq!(pid, id_of(PROJECT_B));
            assert_eq!(project_id, id_of(PROJECT_B));
        }
        other => panic!("expected the session-project lookup, got {:?}", other),
    }
}

fn sample_task(n: u128, title: &str, status: TaskStatus) -> TaskInfo {
    TaskInfo {
        id: EntityId { value: n },
        title: title.to_string(),
        status,
        description: None,
    }
}

#[test]
fn test_tasks_listing_truncates_at_twenty() {
    let mut svc = service();
    let mut tasks = Vec::new();
    for n in 0..25u128 {
        tasks.push(sample_task(n, "item", TaskStatus::Todo));
    }
    let step = svc.resume(
        Pending::ListTasks {
            project_name: "Alpha".to_string(),
        },
        RepoReply::Tasks(tasks),
    );
    let text = expect_response(step);
    assert!(text.starts_with("<b>Tasks in Alpha</b>\n\n"));
    assert_eq!(text.matches("<code>").count(), 20);
    assert!(text.ends_with("... and 5 more tasks"));
}

#[test]
fn test_tasks_listing_empty_and_glyphs() {
    let mut svc = service();
    let empty = svc.resume(
        Pending::ListTasks {
            project_name: "Al<pha".to_string(),
        },
        RepoReply::Tasks(vec![]),
    );
    assert_eq!(
        expect_response(empty),
        "No tasks in project <b>Al&lt;pha</b>."
    );

    let listed = svc.resume(
        Pending::ListTasks {
            project_name: "Alpha".to_string(),
        },
        RepoReply::Tasks(vec![sample_task(3, "Fix <it>", TaskStatus::Done)]),
    );
    let text = expect_response(listed);
    let id_text = EntityId { value: 3 }.text();
    assert_eq!(
        text,
        format!(
            "<b>Tasks in Alpha</b>\n\n\u{201a}\u{fa}\u{d6} <b>Fix &lt;it&gt;</b>\n  <code>{}</code>\n\n",
            id_text
        )
    );
}

#[test]
fn test_task_detail_and_usage() {
    let mut svc = service();
    let mut tc = TelegramConfig::default();
    let usage = expect_response(svc.handle_update_at(&mut tc, message("/task"), 0));
    assert_eq!(usage, "Usage: /task <task_id>");

    let step = svc.handle_update_at(&mut tc, message(&format!("/task {}", PROJECT_A)), 0);
    let (tid, pending) = match step {
        Step::Ask(RepoQuery::FindTask(tid), pending) => (tid, pending),
        other => panic!("expected the task lookup, got {:?}", other),
    };
    assert_eq!(tid, id_of(PROJECT_A));

    let mut task = sample_task(5, "Review <code>", TaskStatus::InReview);
    task.description = Some("multi & line".to_string());
    let text = expect_response(svc.resume(pending, RepoReply::TaskFound(Some(task))));
    let id_text = EntityId { value: 5 }.text();
    assert_eq!(
        text,
        format!(
            "<b>Review &lt;code&gt;</b>\n\nStatus: \u{f8ff}\u{fc}\u{eb}\u{c4} In Review\nID: <code>{}</code>\n\n<b>Description:</b>\nmulti &amp; line",
            id_text
        )
    );
}

#[test]
fn test_task_missing_is_not_found() {
    let mut svc = service();
    let step = svc.resume(
        Pending::ShowTask {
            task_id: id_of(PROJECT_A),
        },
        RepoReply::TaskFound(None),
    );
    match step {
        Step::Fail(TelegramError::TaskNotFound(tid)) => assert_eq!(tid, id_of(PROJECT_A)),
        other => panic!("expected the not-found failure, got {:?}", other),
    }
}

#[test]
fn test_newtask_without_session_and_non_id_token() {
    let mut svc = service();
    let mut tc = TelegramConfig::default();
    match svc.handle_update_at(&mut tc, message("/newtask myproj-title"), 0) {
        Step::Fail(TelegramError::NoActiveProject) => {}
        other => panic!("expected the no-active-project failure, got {:?}", other),
    }
}

#[test]
fn test_newtask_explicit_project_overrides_session() {
    let mut svc = service();
    let mut tc = TelegramConfig::default();
    svc.set_active_project(10, id_of(PROJECT_B));
    let step = svc.handle_update_at(
        &mut tc,
        message(&format!("/newtask {} Fix bug", PROJECT_A)),
        0,
    );
    let (pid, pending) = match step {
        Step::Ask(RepoQuery::FindProject(pid), pending) => (pid, pending),
        other => panic!("expected the project lookup, got {:?}", other),
    };
    assert_eq!(pid, id_of(PROJECT_A));
    match &pending {
        Pending::NewTaskProject { project_id, title } => {
            assert_eq!(*project_id, id_of(PROJECT_A));
            assert_eq!(title, "Fix bug");
        }
        other => panic!("expected the creation plan, got {:?}", other),
    }

    let found = ProjectInfo {
        id: id_of(PROJECT_A),
        name: "Alpha".to_string(),
    };
    let step2 = svc.resume(pending, RepoReply::ProjectFound(Some(found)));
    let pending2 = match step2 {
        Step::Ask(
            RepoQuery::CreateTask {
                project_id,
                task_id: _,
                title,
            },
            pending2,
        ) => {
            assert_eq!(project_id, id_of(PROJECT_A));
            assert_eq!(title, "Fix bug");
            pending2
        }
        other => panic!("expected the creation query, got {:?}", other),
    };

    let created = sample_task(9, "Fix bug", TaskStatus::Todo);
    let text = expect_response(svc.resume(pending2, RepoReply::TaskCreated(created)));
    let id_text = EntityId { value: 9 }.text();
    assert_eq!(
        text,
        format!(
            "\u{201a}\u{fa}\u{d6} Created task in <b>Alpha</b>:\n\n<b>Fix bug</b>\n<code>{}</code>",
            id_text
        )
    );
}

#[test]
fn test_newtask_title_from_session_project() {
    let mut svc = service();
    let mut tc = TelegramConfig::default();
    svc.set_active_project(10, id_of(PROJECT_B));
    let step = svc.handle_update_at(&mut tc, message("/newtask my new task"), 0);
    match step {
        Step::Ask(RepoQuery::FindProject(pid), Pending::NewTaskProject { project_id, title }) => {
            assert_eq!(pid, id_of(PROJECT_B));
            assert_eq!(project_id, id_of(PROJECT_B));
            assert_eq!(title, "my new task");
        }
        other => panic!("expected the session-project plan, got {:?}", other),
    }
}

#[test]
fn test_newtask_usage() {
    let mut svc = service();
    let mut tc = TelegramConfig::default();
    let usage = expect_response(svc.handle_update_at(&mut tc, message("/newtask"), 0));
    assert_eq!(usage, "Usage: /newtask <title> or /newtask <project_id> <title>");
}

#[test]
fn test_message_command() {
    let mut svc = service();
    let mut tc = TelegramConfig::default();
    let usage = expect_response(svc.handle_update_at(&mut tc, message("/message"), 0));
    assert_eq!(usage, "Usage: /message <task_id> <text>");
    let usage2 = expect_response(svc.handle_update_at(&mut tc, message("/message abc"), 0));
    assert_eq!(usage2, "Usage: /message <task_id> <text>");

    match svc.handle_update_at(&mut tc, message("/message not-an-id hello"), 0) {
        Step::Fail(TelegramError::InvalidCommand(_)) => {}
        other => panic!("expected the invalid-command failure, got {:?}", other),
    }

    let step = svc.handle_update_at(
        &mut tc,
        message(&format!("/message {} hello <world>", PROJECT_A)),
        0,
    );
    let pending = match step {
        Step::Ask(RepoQuery::FindTask(tid), pending) => {
            assert_eq!(tid, id_of(PROJECT_A));
            pending
        }
        other => panic!("expected the task lookup, got {:?}", other),
    };
    let task = sample_task(4, "The <task>", TaskStatus::InProgress);
    let text = expect_response(svc.resume(pending, RepoReply::TaskFound(Some(task))));
    assert_eq!(
        text,
        "\u{f8ff}\u{fc}\u{ec}\u{ae} Message queued for task <b>The &lt;task&gt;</b>:\n\nhello &lt;world&gt;"
    );
}

#[test]
fn test_repository_failure_passes_through() {
    let mut svc = service();
    let step = svc.resume(
        Pending::ShowProjects,
        RepoReply::RepoFailed("connection lost".to_string()),
    );
    match step {
        Step::Fail(TelegramError::Database(msg)) => assert_eq!(msg, "connection lost"),
        other => panic!("expected the database failure, got {:?}", other),
    }
}

#[test]
fn test_status_response_from_config() {
    let mut tc = TelegramConfig::default();
    tc.chat_id = Some(4);
    tc.username = Some("someone".to_string());
    tc.notifications_enabled = true;
    let status = TelegramStatusResponse::from(tc);
    assert!(status.linked);
    assert_eq!(status.username, Some("someone".to_string()));
    assert!(status.notifications_enabled);
    assert!(!status.notify_on_task_done);
    assert!(!status.include_llm_summary);
    assert!(!status.bot_configured);
}
