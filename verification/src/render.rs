//! The texts of the dispatcher's replies.
//!
//! Each reply has a spec function giving its exact text, and a builder
//! proved to produce it. Variable content, names, titles, descriptions,
//! message bodies, passes through the escaping of [`crate::html`]; an
//! identifier is rendered in its hyphenated form.

use vstd::prelude::*;
use vstd::string::StringExecFns;
use crate::html::{escape_html, escape_seq};
use crate::ids::spec_uuid_text;
use crate::repo::{ProjectInfo, TaskInfo, TaskStatus};
use crate::text::{chars_to_string, dec_seq, push_dec};

verus! {

/// The welcome text of the bare start command.
pub open spec fn spec_welcome_text() -> Seq<char> {
    "\u{f8ff}\u{fc}\u{eb}\u{e3} <b>Welcome to VibeKanban Bot!</b>\n\nI can help you manage your tasks and receive notifications.\n\n<b>Available commands:</b>\n/help - Show all commands\n/projects - List your projects\n/project &lt;id&gt; - Set active project\n/tasks - List tasks in active project\n/task &lt;id&gt; - Get task details\n/newtask &lt;title&gt; - Create a new task\n/message &lt;task_id&gt; &lt;text&gt; - Send message to a task\n\nTo link your account, use the link from the web interface."@
}

/// The welcome text of the bare start command.
pub fn welcome_text() -> (r: String)
    ensures
        r@ == spec_welcome_text(),
{
    String::from_str(
        "\u{f8ff}\u{fc}\u{eb}\u{e3} <b>Welcome to VibeKanban Bot!</b>\n\nI can help you manage your tasks and receive notifications.\n\n<b>Available commands:</b>\n/help - Show all commands\n/projects - List your projects\n/project &lt;id&gt; - Set active project\n/tasks - List tasks in active project\n/task &lt;id&gt; - Get task details\n/newtask &lt;title&gt; - Create a new task\n/message &lt;task_id&gt; &lt;text&gt; - Send message to a task\n\nTo link your account, use the link from the web interface.",
    )
}

/// The command reference text.
pub open spec fn spec_help_text() -> Seq<char> {
    "<b>VibeKanban Bot Commands</b>\n\n<b>Account:</b>\n/start - Welcome message & account linking\n\n<b>Projects:</b>\n/projects - List all projects\n/project &lt;id&gt; - Set active project for subsequent commands\n\n<b>Tasks:</b>\n/tasks - List tasks in active project\n/tasks &lt;project_id&gt; - List tasks in specific project\n/task &lt;id&gt; - Get task details\n/newtask &lt;title&gt; - Create task in active project\n/newtask &lt;project_id&gt; &lt;title&gt; - Create task in specific project\n\n<b>Messages:</b>\n/message &lt;task_id&gt; &lt;text&gt; - Send/queue a message for a task\n\n<b>Notes:</b>\n- Task and project IDs are UUIDs (can use short prefix)\n- Set an active project with /project to avoid typing IDs"@
}

/// The command reference text.
pub fn help_text() -> (r: String)
    ensures
        r@ == spec_help_text(),
{
    String::from_str(
        "<b>VibeKanban Bot Commands</b>\n\n<b>Account:</b>\n/start - Welcome message & account linking\n\n<b>Projects:</b>\n/projects - List all projects\n/project &lt;id&gt; - Set active project for subsequent commands\n\n<b>Tasks:</b>\n/tasks - List tasks in active project\n/tasks &lt;project_id&gt; - List tasks in specific project\n/task &lt;id&gt; - Get task details\n/newtask &lt;title&gt; - Create task in active project\n/newtask &lt;project_id&gt; &lt;title&gt; - Create task in specific project\n\n<b>Messages:</b>\n/message &lt;task_id&gt; &lt;text&gt; - Send/queue a message for a task\n\n<b>Notes:</b>\n- Task and project IDs are UUIDs (can use short prefix)\n- Set an active project with /project to avoid typing IDs",
    )
}

/// The apology for a link token that is unknown.
pub open spec fn spec_invalid_link_text() -> Seq<char> {
    "\u{201a}\u{f9}\u{e5} Invalid or expired link token. Please generate a new link from the web interface."@
}

/// The apology for a link token that is unknown.
pub fn invalid_link_text() -> (r: String)
    ensures
        r@ == spec_invalid_link_text(),
{
    String::from_str(
        "\u{201a}\u{f9}\u{e5} Invalid or expired link token. Please generate a new link from the web interface.",
    )
}

/// The apology for a link token past its lifetime.
pub open spec fn spec_expired_link_text() -> Seq<char> {
    "\u{201a}\u{f9}\u{e5} This link has expired. Please generate a new link from the web interface."@
}

/// The apology for a link token past its lifetime.
pub fn expired_link_text() -> (r: String)
    ensures
        r@ == spec_expired_link_text(),
{
    String::from_str(
        "\u{201a}\u{f9}\u{e5} This link has expired. Please generate a new link from the web interface.",
    )
}

/// The fallback for a command the dispatcher does not know.
pub open spec fn spec_unknown_command_text(command: Seq<char>) -> Seq<char> {
    "Unknown command: /"@ + command + ". Use /help to see available commands."@
}

/// The fallback for a command the dispatcher does not know.
pub fn unknown_command_text(command: &str) -> (r: String)
    ensures
        r@ == spec_unknown_command_text(command@),
{
    let mut s = String::from_str("Unknown command: /");
    s.append(command);
    s.append(". Use /help to see available commands.");
    s
}

/// The hint shown when no chat has an active project to fall back on.
pub open spec fn spec_no_active_project_text() -> Seq<char> {
    "No active project set. Use /project <id> to set one."@
}

/// The hint shown when no chat has an active project to fall back on.
pub fn no_active_project_text() -> (r: String)
    ensures
        r@ == spec_no_active_project_text(),
{
    String::from_str("No active project set. Use /project <id> to set one.")
}

/// The answer to a project listing that found nothing.
pub open spec fn spec_no_projects_text() -> Seq<char> {
    "No projects found. Create a project in the web interface first."@
}

/// The answer to a project listing that found nothing.
pub fn no_projects_text() -> (r: String)
    ensures
        r@ == spec_no_projects_text(),
{
    String::from_str("No projects found. Create a project in the web interface first.")
}

/// One line of the project listing: the escaped name, then the identifier.
pub open spec fn spec_project_line(p: ProjectInfo) -> Seq<char> {
    "\u{201a}\u{c4}\u{a2} <b>"@ + escape_seq(p.name@) + "</b>\n  <code>"@ + spec_uuid_text(
        p.id.value,
    ) + "</code>\n\n"@
}

/// The lines of the project listing, in order.
pub open spec fn spec_project_lines(ps: Seq<ProjectInfo>) -> Seq<char>
    decreases ps.len(),
{
    if ps.len() == 0 {
        Seq::empty()
    } else {
        spec_project_lines(ps.drop_last()) + spec_project_line(ps.last())
    }
}

/// The full project listing.
pub open spec fn spec_projects_text(ps: Seq<ProjectInfo>) -> Seq<char> {
    "<b>Your Projects:</b>\n\n"@ + spec_project_lines(ps)
        + "Use /project <id> to set the active project."@
}

/// The full project listing.
pub fn projects_text(ps: &Vec<ProjectInfo>) -> (r: String)
    ensures
        r@ == spec_projects_text(ps@),
{
    let mut s = String::from_str("<b>Your Projects:</b>\n\n");
    let mut i: usize = 0;
    while i < ps.len()
        invariant
            i <= ps@.len(),
            s@ == "<b>Your Projects:</b>\n\n"@ + spec_project_lines(ps@.take(i as int)),
        decreases ps@.len() - i,
    {
        s.append("\u{201a}\u{c4}\u{a2} <b>");
        s.append(escape_html(ps[i].name.as_str()).as_str());
        s.append("</b>\n  <code>");
        s.append(ps[i].id.text().as_str());
        s.append("</code>\n\n");
        proof {
            assert(ps@.take(i as int + 1).drop_last() =~= ps@.take(i as int));
            assert(ps@.take(i as int + 1).last() == ps@[i as int]);
            assert(s@ =~= "<b>Your Projects:</b>\n\n"@ + spec_project_lines(
                ps@.take(i as int + 1),
            ));
        }
        i = i + 1;
    }
    proof {
        assert(ps@.take(ps@.len() as int) =~= ps@);
    }
    s.append("Use /project <id> to set the active project.");
    s
}

/// The answer showing the chat's active project.
pub open spec fn spec_active_project_text(p: ProjectInfo) -> Seq<char> {
    "Active project: <b>"@ + escape_seq(p.name@) + "</b>\n<code>"@ + spec_uuid_text(p.id.value)
        + "</code>"@
}

/// The answer showing the chat's active project.
pub fn active_project_text(p: &ProjectInfo) -> (r: String)
    ensures
        r@ == spec_active_project_text(*p),
{
    let mut s = String::from_str("Active project: <b>");
    s.append(escape_html(p.name.as_str()).as_str());
    s.append("</b>\n<code>");
    s.append(p.id.text().as_str());
    s.append("</code>");
    s
}

/// The confirmation after the chat's active project was set.
pub open spec fn spec_project_set_text(p: ProjectInfo) -> Seq<char> {
    "\u{201a}\u{fa}\u{d6} Active project set to: <b>"@ + escape_seq(p.name@) + "</b>"@
}

/// The confirmation after the chat's active project was set.
pub fn project_set_text(p: &ProjectInfo) -> (r: String)
    ensures
        r@ == spec_project_set_text(*p),
{
    let mut s = String::from_str("\u{201a}\u{fa}\u{d6} Active project set to: <b>");
    s.append(escape_html(p.name.as_str()).as_str());
    s.append("</b>");
    s
}

/// The answer to a task listing that found nothing.
pub open spec fn spec_no_tasks_text(project_name: Seq<char>) -> Seq<char> {
    "No tasks in project <b>"@ + escape_seq(project_name) + "</b>."@
}

/// The answer to a task listing that found nothing.
pub fn no_tasks_text(project_name: &str) -> (r: String)
    ensures
        r@ == spec_no_tasks_text(project_name@),
{
    let mut s = String::from_str("No tasks in project <b>");
    s.append(escape_html(project_name).as_str());
    s.append("</b>.");
    s
}

/// The glyph of a task's workflow state, as the listing shows it.
pub open spec fn spec_status_glyph(st: TaskStatus) -> Seq<char> {
    match st {
        TaskStatus::Todo => "\u{f8ff}\u{fc}\u{ec}\u{e3}"@,
        TaskStatus::InProgress => "\u{f8ff}\u{fc}\u{ee}\u{d1}"@,
        TaskStatus::InReview => "\u{f8ff}\u{fc}\u{eb}\u{c4}"@,
        TaskStatus::Done => "\u{201a}\u{fa}\u{d6}"@,
        TaskStatus::Cancelled => "\u{201a}\u{f9}\u{e5}"@,
    }
}

/// The glyph of a task's workflow state.
pub fn status_glyph(st: TaskStatus) -> (r: String)
    ensures
        r@ == spec_status_glyph(st),
{
    match st {
        TaskStatus::Todo => String::from_str("\u{f8ff}\u{fc}\u{ec}\u{e3}"),
        TaskStatus::InProgress => String::from_str("\u{f8ff}\u{fc}\u{ee}\u{d1}"),
        TaskStatus::InReview => String::from_str("\u{f8ff}\u{fc}\u{eb}\u{c4}"),
        TaskStatus::Done => String::from_str("\u{201a}\u{fa}\u{d6}"),
        TaskStatus::Cancelled => String::from_str("\u{201a}\u{f9}\u{e5}"),
    }
}

/// The glyph-and-word form of a task's workflow state, as the detail view
/// shows it.
pub open spec fn spec_status_label(st: TaskStatus) -> Seq<char> {
    match st {
        TaskStatus::Todo => "\u{f8ff}\u{fc}\u{ec}\u{e3} Todo"@,
        TaskStatus::InProgress => "\u{f8ff}\u{fc}\u{ee}\u{d1} In Progress"@,
        TaskStatus::InReview => "\u{f8ff}\u{fc}\u{eb}\u{c4} In Review"@,
        TaskStatus::Done => "\u{201a}\u{fa}\u{d6} Done"@,
        TaskStatus::Cancelled => "\u{201a}\u{f9}\u{e5} Cancelled"@,
    }
}

/// The glyph-and-word form of a task's workflow state.
pub fn status_label(st: TaskStatus) -> (r: String)
    ensures
        r@ == spec_status_label(st),
{
    match st {
        TaskStatus::Todo => String::from_str("\u{f8ff}\u{fc}\u{ec}\u{e3} Todo"),
        TaskStatus::InProgress => String::from_str("\u{f8ff}\u{fc}\u{ee}\u{d1} In Progress"),
        TaskStatus::InReview => String::from_str("\u{f8ff}\u{fc}\u{eb}\u{c4} In Review"),
        TaskStatus::Done => String::from_str("\u{201a}\u{fa}\u{d6} Done"),
        TaskStatus::Cancelled => String::from_str("\u{201a}\u{f9}\u{e5} Cancelled"),
    }
}

/// One line of the task listing: the state's glyph, the escaped title, the
/// identifier.
pub open spec fn spec_task_line(t: TaskInfo) -> Seq<char> {
    spec_status_glyph(t.status) + " <b>"@ + escape_seq(t.title@) + "</b>\n  <code>"@
        + spec_uuid_text(t.id.value) + "</code>\n\n"@
}

/// The lines of the task listing, in order.
pub open spec fn spec_task_lines(ts: Seq<TaskInfo>) -> Seq<char>
    decreases ts.len(),
{
    if ts.len() == 0 {
        Seq::empty()
    } else {
        spec_task_lines(ts.drop_last()) + spec_task_line(ts.last())
    }
}

/// The full task listing: at most the first twenty tasks, then a note
/// counting the rest where the listing was cut.
pub open spec fn spec_tasks_text(project_name: Seq<char>, ts: Seq<TaskInfo>) -> Seq<char> {
    let shown = if ts.len() <= 20 {
        ts
    } else {
        ts.take(20)
    };
    let body = "<b>Tasks in "@ + escape_seq(project_name) + "</b>\n\n"@ + spec_task_lines(shown);
    if ts.len() > 20 {
        body + "... and "@ + dec_seq((ts.len() - 20) as nat) + " more tasks"@
    } else {
        body
    }
}

/// The full task listing.
pub fn tasks_text(project_name: &str, ts: &Vec<TaskInfo>) -> (r: String)
    ensures
        r@ == spec_tasks_text(project_name@, ts@),
{
    let mut s = String::from_str("<b>Tasks in ");
    s.append(escape_html(project_name).as_str());
    s.append("</b>\n\n");
    let shown: usize = if ts.len() <= 20 {
        ts.len()
    } else {
        20
    };
    let ghost prefix = s@;
    let mut i: usize = 0;
    while i < shown
        invariant
            i <= shown,
            shown <= ts@.len(),
            s@ == prefix + spec_task_lines(ts@.take(i as int)),
        decreases shown - i,
    {
        s.append(status_glyph(ts[i].status).as_str());
        s.append(" <b>");
        s.append(escape_html(ts[i].title.as_str()).as_str());
        s.append("</b>\n  <code>");
        s.append(ts[i].id.text().as_str());
        s.append("</code>\n\n");
        proof {
            assert(ts@.take(i as int + 1).drop_last() =~= ts@.take(i as int));
            assert(ts@.take(i as int + 1).last() == ts@[i as int]);
            assert(s@ =~= prefix + spec_task_lines(ts@.take(i as int + 1)));
        }
        i = i + 1;
    }
    if ts.len() > 20 {
        s.append("... and ");
        let mut digits: Vec<char> = Vec::new();
        push_dec(&mut digits, ts.len() - 20);
        s.append(chars_to_string(&digits).as_str());
        s.append(" more tasks");
        proof {
            assert(ts@.take(20) =~= ts@.take(shown as int));
            assert(s@ =~= spec_tasks_text(project_name@, ts@));
        }
    } else {
        proof {
            assert(ts@.take(ts@.len() as int) =~= ts@);
            assert(s@ =~= spec_tasks_text(project_name@, ts@));
        }
    }
    s
}

/// The usage hint of the task detail command.
pub open spec fn spec_task_usage_text() -> Seq<char> {
    "Usage: /task <task_id>"@
}

/// The usage hint of the task detail command.
pub fn task_usage_text() -> (r: String)
    ensures
        r@ == spec_task_usage_text(),
{
    String::from_str("Usage: /task <task_id>")
}

/// The task detail view: title, state, identifier, and the description
/// where the task has a non-empty one.
pub open spec fn spec_task_detail_text(t: TaskInfo) -> Seq<char> {
    let base = "<b>"@ + escape_seq(t.title@) + "</b>\n\nStatus: "@ + spec_status_label(t.status)
        + "\nID: <code>"@ + spec_uuid_text(t.id.value) + "</code>"@;
    if t.description matches Some(d) && d@.len() > 0 {
        base + "\n\n<b>Description:</b>\n"@ + escape_seq(t.description->0@)
    } else {
        base
    }
}

/// The task detail view.
pub fn task_detail_text(t: &TaskInfo) -> (r: String)
    ensures
        r@ == spec_task_detail_text(*t),
{
    let mut s = String::from_str("<b>");
    s.append(escape_html(t.title.as_str()).as_str());
    s.append("</b>\n\nStatus: ");
    s.append(status_label(t.status).as_str());
    s.append("\nID: <code>");
    s.append(t.id.text().as_str());
    s.append("</code>");
    match &t.description {
        Some(d) => {
            if !d.as_str().is_empty() {
                s.append("\n\n<b>Description:</b>\n");
                s.append(escape_html(d.as_str()).as_str());
            }
        },
        None => {},
    }
    s
}

/// The usage hint of the task creation command.
pub open spec fn spec_newtask_usage_text() -> Seq<char> {
    "Usage: /newtask <title> or /newtask <project_id> <title>"@
}

/// The usage hint of the task creation command.
pub fn newtask_usage_text() -> (r: String)
    ensures
        r@ == spec_newtask_usage_text(),
{
    String::from_str("Usage: /newtask <title> or /newtask <project_id> <title>")
}

/// The confirmation after a task was created.
pub open spec fn spec_task_created_text(project_name: Seq<char>, t: TaskInfo) -> Seq<char> {
    "\u{201a}\u{fa}\u{d6} Created task in <b>"@ + escape_seq(project_name) + "</b>:\n\n<b>"@
        + escape_seq(t.title@) + "</b>\n<code>"@ + spec_uuid_text(t.id.value) + "</code>"@
}

/// The confirmation after a task was created.
pub fn task_created_text(project_name: &str, t: &TaskInfo) -> (r: String)
    ensures
        r@ == spec_task_created_text(project_name@, *t),
{
    let mut s = String::from_str("\u{201a}\u{fa}\u{d6} Created task in <b>");
    s.append(escape_html(project_name).as_str());
    s.append("</b>:\n\n<b>");
    s.append(escape_html(t.title.as_str()).as_str());
    s.append("</b>\n<code>");
    s.append(t.id.text().as_str());
    s.append("</code>");
    s
}

/// The usage hint of the message command.
pub open spec fn spec_message_usage_text() -> Seq<char> {
    "Usage: /message <task_id> <text>"@
}

/// The usage hint of the message command.
pub fn message_usage_text() -> (r: String)
    ensures
        r@ == spec_message_usage_text(),
{
    String::from_str("Usage: /message <task_id> <text>")
}

/// The acknowledgement after a message was queued for a task.
pub open spec fn spec_message_queued_text(title: Seq<char>, body: Seq<char>) -> Seq<char> {
    "\u{f8ff}\u{fc}\u{ec}\u{ae} Message queued for task <b>"@ + escape_seq(title)
        + "</b>:\n\n"@ + escape_seq(body)
}

/// The acknowledgement after a message was queued for a task.
pub fn message_queued_text(title: &str, body: &str) -> (r: String)
    ensures
        r@ == spec_message_queued_text(title@, body@),
{
    let mut s = String::from_str("\u{f8ff}\u{fc}\u{ec}\u{ae} Message queued for task <b>");
    s.append(escape_html(title).as_str());
    s.append("</b>:\n\n");
    s.append(escape_html(body).as_str());
    s
}

} // verus!
