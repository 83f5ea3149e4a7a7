//! The service: link management and the command dispatcher.
//!
//! The dispatcher is a step machine. Handling a webhook message yields a
//! [`Step`]: a finished outcome, a typed failure, or a repository query
//! paired with what to do with its answer. The surrounding program performs
//! the query and hands the answer to [`TelegramService::resume`], which
//! yields the next step. Everything the dispatcher decides, parsing,
//! routing, validation, session and token changes, reply texts, is stated
//! in the step relations below.

use vstd::prelude::*;
use vstd::string::StringExecFns;
use vstd::pervasive::unreached;
use crate::commands::{parse_command, spec_args, spec_command_token, spec_prefix_until, find_char, vec_subrange};
use crate::config::{spec_default_telegram_config, TelegramConfig};
use crate::errors::TelegramError;
use crate::ids::{parse_uuid, spec_invalid_id_message, spec_trimmed, spec_uuid_parse, uuid_from_str, fresh_entity_id, EntityId};
use crate::render::{
    active_project_text, expired_link_text, help_text, invalid_link_text, message_queued_text,
    message_usage_text, newtask_usage_text, no_active_project_text, no_projects_text,
    no_tasks_text, project_set_text, projects_text, spec_active_project_text,
    spec_expired_link_text, spec_help_text, spec_invalid_link_text, spec_message_queued_text,
    spec_message_usage_text, spec_newtask_usage_text, spec_no_active_project_text,
    spec_no_projects_text, spec_no_tasks_text, spec_project_set_text, spec_projects_text,
    spec_task_created_text, spec_task_detail_text, spec_task_usage_text,
    spec_tasks_text, spec_unknown_command_text, spec_welcome_text, task_created_text,
    task_detail_text, task_usage_text, tasks_text, unknown_command_text, welcome_text,
};
use crate::repo::{ProjectInfo, RepoQuery, RepoReply, TaskInfo};
use crate::session::SessionStore;
use crate::text::{chars_to_string, str_to_chars};
use crate::tokens::{now_millis, spec_live_entries, spec_validate, spec_validate_rest, TokenStore};

verus! {

/// The outcome of processing one webhook update.
#[derive(Debug)]
pub enum UpdateResult {
    /// The command was processed; this is the reply text.
    Response(String),
    /// The event asks for no reply.
    NoResponse,
    /// A link token was honoured: the chat is now linked.
    LinkCompleted { chat_id: i64, user_id: i64, username: Option<String> },
}

/// One inbound message event, reduced to plain values: who wrote, where,
/// and what, if the event carried text at all.
#[derive(Debug)]
pub struct WebhookMessage {
    pub chat_id: i64,
    pub user_id: i64,
    pub username: Option<String>,
    pub text: Option<String>,
}

/// What the dispatcher waits for after handing out a repository query.
#[derive(Debug)]
pub enum Pending {
    /// The project listing, to be rendered.
    ShowProjects,
    /// The chat's active project, to be shown.
    ShowActiveProject,
    /// A project to become the chat's active one.
    SetActiveProject { chat_id: i64, project_id: EntityId },
    /// The project whose tasks are to be listed.
    TasksProject { project_id: EntityId },
    /// The tasks of the named project, to be rendered.
    ListTasks { project_name: String },
    /// A task, to be shown in detail.
    ShowTask { task_id: EntityId },
    /// The project under which a task is to be created.
    NewTaskProject { project_id: EntityId, title: String },
    /// The freshly created task, to be confirmed.
    NewTaskCreated { project_name: String },
    /// The task a message is queued for.
    MessageTask { task_id: EntityId, body: String },
}

/// One step of the dispatcher.
#[derive(Debug)]
pub enum Step {
    /// The update is fully handled.
    Done(UpdateResult),
    /// The update failed with a typed error; the caller logs it or renders
    /// its text, and acknowledges the delivery either way.
    Fail(TelegramError),
    /// The repository must answer the query before the dispatcher can go
    /// on with the pending step.
    Ask(RepoQuery, Pending),
}

/// Whether the bot-link record `post` is `pre` after a completed link for
/// `chat_id`: the chat is recorded, notifications are opted in, and the
/// remaining flags stand as they were.
pub open spec fn spec_linked_config(
    pre: TelegramConfig,
    post: TelegramConfig,
    chat_id: i64,
    user_id: i64,
    username: Option<String>,
) -> bool {
    &&& post.chat_id == Some(chat_id)
    &&& post.user_id == Some(user_id)
    &&& post.username == username
    &&& post.notifications_enabled
    &&& post.notify_on_task_done
    &&& post.include_llm_summary == pre.include_llm_summary
    &&& post.stream_enabled == pre.stream_enabled
}

/// What completing a link does, for every outcome of validation: an
/// accepted token is consumed and the record linked; a rejected one leaves
/// the record alone, the rejection passed through.
pub open spec fn spec_complete_link(
    pre_tokens: Map<Seq<char>, i64>,
    post_tokens: Map<Seq<char>, i64>,
    tc_pre: TelegramConfig,
    tc_post: TelegramConfig,
    token: Seq<char>,
    now: i64,
    chat_id: i64,
    user_id: i64,
    username: Option<String>,
    r: Result<TelegramConfig, TelegramError>,
) -> bool {
    &&& (spec_validate(pre_tokens, token, now) is Ok ==> {
        &&& (r matches Ok(c) && c == tc_post)
        &&& spec_linked_config(tc_pre, tc_post, chat_id, user_id, username)
        &&& post_tokens == pre_tokens.remove(token)
    })
    &&& (spec_validate(pre_tokens, token, now) matches Err(e) ==> {
        &&& r == Err::<TelegramConfig, TelegramError>(e)
        &&& tc_post == tc_pre
        &&& post_tokens == spec_validate_rest(pre_tokens, token, now)
    })
}

/// What the start command does: without arguments, the welcome text; with
/// an argument, a link completion whose two rejections become apologies in
/// the chat rather than failures.
pub open spec fn spec_start_step(
    pre_tokens: Map<Seq<char>, i64>,
    post_tokens: Map<Seq<char>, i64>,
    tc_pre: TelegramConfig,
    tc_post: TelegramConfig,
    args: Seq<char>,
    chat_id: i64,
    user_id: i64,
    username: Option<String>,
    now: i64,
    r: Step,
) -> bool {
    if args.len() == 0 {
        &&& (r matches Step::Done(UpdateResult::Response(s)) && s@ == spec_welcome_text())
        &&& post_tokens == pre_tokens
        &&& tc_post == tc_pre
    } else {
        match spec_validate(pre_tokens, args, now) {
            Ok(()) => {
                &&& (r matches Step::Done(
                    UpdateResult::LinkCompleted { chat_id: c, user_id: u, username: n },
                ) && c == chat_id && u == user_id && n == username)
                &&& post_tokens == pre_tokens.remove(args)
                &&& spec_linked_config(tc_pre, tc_post, chat_id, user_id, username)
            },
            Err(TelegramError::InvalidLinkToken) => {
                &&& (r matches Step::Done(UpdateResult::Response(s)) && s@
                    == spec_invalid_link_text())
                &&& post_tokens == spec_validate_rest(pre_tokens, args, now)
                &&& tc_post == tc_pre
            },
            Err(TelegramError::LinkTokenExpired) => {
                &&& (r matches Step::Done(UpdateResult::Response(s)) && s@
                    == spec_expired_link_text())
                &&& post_tokens == spec_validate_rest(pre_tokens, args, now)
                &&& tc_post == tc_pre
            },
            Err(_) => true,
        }
    }
}

/// What the project command does: bare, it shows the active project (or
/// the hint that none is set); with an argument, it asks for that project
/// so that it can become the active one.
pub open spec fn spec_project_step(
    sessions: Map<i64, u128>,
    args: Seq<char>,
    chat_id: i64,
    r: Step,
) -> bool {
    if args.len() == 0 {
        if sessions.dom().contains(chat_id) {
            r matches Step::Ask(RepoQuery::FindProject(pid), Pending::ShowActiveProject) && pid
                == (EntityId { value: sessions[chat_id] })
        } else {
            r matches Step::Done(UpdateResult::Response(s)) && s@
                == spec_no_active_project_text()
        }
    } else {
        match spec_uuid_parse(spec_trimmed(args)) {
            Some(v) => r matches Step::Ask(
                RepoQuery::FindProject(pid),
                Pending::SetActiveProject { chat_id: c, project_id },
            ) && pid == (EntityId { value: v }) && project_id == (EntityId { value: v }) && c
                == chat_id,
            None => r matches Step::Fail(TelegramError::InvalidCommand(m)) && m@
                == spec_invalid_id_message(spec_trimmed(args)),
        }
    }
}

/// What the tasks command does: the target project comes from the argument
/// or, bare, from the chat's session, which must then have one.
pub open spec fn spec_tasks_step(
    sessions: Map<i64, u128>,
    args: Seq<char>,
    chat_id: i64,
    r: Step,
) -> bool {
    if args.len() == 0 {
        if sessions.dom().contains(chat_id) {
            r matches Step::Ask(
                RepoQuery::FindProject(pid),
                Pending::TasksProject { project_id },
            ) && pid == (EntityId { value: sessions[chat_id] }) && project_id == (EntityId {
                value: sessions[chat_id],
            })
        } else {
            r matches Step::Fail(TelegramError::NoActiveProject)
        }
    } else {
        match spec_uuid_parse(spec_trimmed(args)) {
            Some(v) => r matches Step::Ask(
                RepoQuery::FindProject(pid),
                Pending::TasksProject { project_id },
            ) && pid == (EntityId { value: v }) && project_id == (EntityId { value: v }),
            None => r matches Step::Fail(TelegramError::InvalidCommand(m)) && m@
                == spec_invalid_id_message(spec_trimmed(args)),
        }
    }
}

/// What the task detail command does.
pub open spec fn spec_task_step(args: Seq<char>, r: Step) -> bool {
    if args.len() == 0 {
        r matches Step::Done(UpdateResult::Response(s)) && s@ == spec_task_usage_text()
    } else {
        match spec_uuid_parse(spec_trimmed(args)) {
            Some(v) => r matches Step::Ask(
                RepoQuery::FindTask(tid),
                Pending::ShowTask { task_id },
            ) && tid == (EntityId { value: v }) && task_id == (EntityId { value: v }),
            None => r matches Step::Fail(TelegramError::InvalidCommand(m)) && m@
                == spec_invalid_id_message(spec_trimmed(args)),
        }
    }
}

/// Whether `r` asks for `pid` so that a task titled `title` can be created
/// under it.
pub open spec fn spec_newtask_plan(pid: u128, title: Seq<char>, r: Step) -> bool {
    r matches Step::Ask(
        RepoQuery::FindProject(p),
        Pending::NewTaskProject { project_id, title: t },
    ) && p == (EntityId { value: pid }) && project_id == (EntityId { value: pid }) && t@ == title
}

/// What the task creation command does: where the first token is an
/// identifier, it names the project and the rest is the title; otherwise
/// the whole argument is the title and the chat's active project, which
/// must then exist, is the target.
pub open spec fn spec_newtask_step(
    sessions: Map<i64, u128>,
    args: Seq<char>,
    chat_id: i64,
    r: Step,
) -> bool {
    if args.len() == 0 {
        r matches Step::Done(UpdateResult::Response(s)) && s@ == spec_newtask_usage_text()
    } else {
        let sp = spec_prefix_until(args, ' ');
        if sp < args.len() {
            match spec_uuid_parse(args.take(sp)) {
                Some(v) => spec_newtask_plan(v, args.skip(sp + 1), r),
                None => if sessions.dom().contains(chat_id) {
                    spec_newtask_plan(sessions[chat_id], args, r)
                } else {
                    r matches Step::Fail(TelegramError::NoActiveProject)
                },
            }
        } else {
            if sessions.dom().contains(chat_id) {
                spec_newtask_plan(sessions[chat_id], args, r)
            } else {
                r matches Step::Fail(TelegramError::NoActiveProject)
            }
        }
    }
}

/// What the message command does: it needs an identifier and a non-empty
/// body, and asks for the task so that the queuing can be acknowledged.
pub open spec fn spec_message_step(args: Seq<char>, r: Step) -> bool {
    let usage = (r matches Step::Done(UpdateResult::Response(s)) && s@
        == spec_message_usage_text());
    if args.len() == 0 {
        usage
    } else {
        let sp = spec_prefix_until(args, ' ');
        if sp == args.len() {
            usage
        } else {
            let head = args.take(sp);
            let body = args.skip(sp + 1);
            if body.len() == 0 {
                usage
            } else {
                match spec_uuid_parse(spec_trimmed(head)) {
                    Some(v) => r matches Step::Ask(
                        RepoQuery::FindTask(tid),
                        Pending::MessageTask { task_id, body: b },
                    ) && tid == (EntityId { value: v }) && task_id == (EntityId { value: v })
                        && b@ == body,
                    None => r matches Step::Fail(TelegramError::InvalidCommand(m)) && m@
                        == spec_invalid_id_message(spec_trimmed(head)),
                }
            }
        }
    }
}

/// What one of the commands without side effects does, routed by the
/// command token; a token that names no command falls through to a hint,
/// never to an error.
pub open spec fn spec_plain_command_step(
    sessions: Map<i64, u128>,
    cmd: Seq<char>,
    args: Seq<char>,
    chat_id: i64,
    r: Step,
) -> bool {
    if cmd == "help"@ {
        r matches Step::Done(UpdateResult::Response(s)) && s@ == spec_help_text()
    } else if cmd == "projects"@ {
        r matches Step::Ask(RepoQuery::ListProjects, Pending::ShowProjects)
    } else if cmd == "project"@ {
        spec_project_step(sessions, args, chat_id, r)
    } else if cmd == "tasks"@ {
        spec_tasks_step(sessions, args, chat_id, r)
    } else if cmd == "task"@ {
        spec_task_step(args, r)
    } else if cmd == "newtask"@ {
        spec_newtask_step(sessions, args, chat_id, r)
    } else if cmd == "message"@ {
        spec_message_step(args, r)
    } else {
        r matches Step::Done(UpdateResult::Response(s)) && s@ == spec_unknown_command_text(cmd)
    }
}

/// What handling one webhook message does: an event without text, or whose
/// text does not open with the command prefix, is discarded without reply;
/// a start command may move the token store and the bot-link record; every
/// other command leaves both alone.
pub open spec fn spec_handle_update(
    pre_tokens: Map<Seq<char>, i64>,
    sessions: Map<i64, u128>,
    tc_pre: TelegramConfig,
    msg: WebhookMessage,
    now: i64,
    r: Step,
    post_tokens: Map<Seq<char>, i64>,
    tc_post: TelegramConfig,
) -> bool {
    if msg.text is None {
        &&& r matches Step::Done(UpdateResult::NoResponse)
        &&& post_tokens == pre_tokens
        &&& tc_post == tc_pre
    } else {
        let text = msg.text->0@;
        if text.len() == 0 || text[0] != '/' {
            &&& r matches Step::Done(UpdateResult::NoResponse)
            &&& post_tokens == pre_tokens
            &&& tc_post == tc_pre
        } else {
            let cmd = spec_command_token(text);
            let args = spec_args(text);
            if cmd == "start"@ {
                spec_start_step(
                    pre_tokens,
                    post_tokens,
                    tc_pre,
                    tc_post,
                    args,
                    msg.chat_id,
                    msg.user_id,
                    msg.username,
                    now,
                    r,
                )
            } else {
                &&& post_tokens == pre_tokens
                &&& tc_post == tc_pre
                &&& spec_plain_command_step(sessions, cmd, args, msg.chat_id, r)
            }
        }
    }
}

/// Whether `reply` answers the query that `pending` waits on; a failure
/// answers anything.
pub open spec fn spec_reply_fits(pending: Pending, reply: RepoReply) -> bool {
    ||| reply is RepoFailed
    ||| match pending {
        Pending::ShowProjects => reply is Projects,
        Pending::ShowActiveProject => reply is ProjectFound,
        Pending::SetActiveProject { .. } => reply is ProjectFound,
        Pending::TasksProject { .. } => reply is ProjectFound,
        Pending::ListTasks { .. } => reply is Tasks,
        Pending::ShowTask { .. } => reply is TaskFound,
        Pending::NewTaskProject { .. } => reply is ProjectFound,
        Pending::NewTaskCreated { .. } => reply is TaskCreated,
        Pending::MessageTask { .. } => reply is TaskFound,
    }
}

/// What resuming a pending step with the repository's answer does. Only a
/// found project becoming the active one changes the sessions; a
/// repository failure passes through as a database error.
pub open spec fn spec_resume(
    sessions_pre: Map<i64, u128>,
    pending: Pending,
    reply: RepoReply,
    r: Step,
    sessions_post: Map<i64, u128>,
) -> bool {
    match reply {
        RepoReply::RepoFailed(failure) => {
            &&& (r matches Step::Fail(TelegramError::Database(m)) && m == failure)
            &&& sessions_post == sessions_pre
        },
        _ => match pending {
            Pending::ShowProjects => {
                &&& sessions_post == sessions_pre
                &&& (reply matches RepoReply::Projects(ps) ==> if ps@.len() == 0 {
                    r matches Step::Done(UpdateResult::Response(s)) && s@
                        == spec_no_projects_text()
                } else {
                    r matches Step::Done(UpdateResult::Response(s)) && s@
                        == spec_projects_text(ps@)
                })
            },
            Pending::ShowActiveProject => {
                &&& sessions_post == sessions_pre
                &&& (reply matches RepoReply::ProjectFound(op) ==> match op {
                    Some(p) => r matches Step::Done(UpdateResult::Response(s)) && s@
                        == spec_active_project_text(p),
                    None => r matches Step::Done(UpdateResult::Response(s)) && s@
                        == spec_no_active_project_text(),
                })
            },
            Pending::SetActiveProject { chat_id, project_id } => {
                reply matches RepoReply::ProjectFound(op) ==> match op {
                    Some(p) => {
                        &&& sessions_post == sessions_pre.insert(chat_id, project_id.value)
                        &&& (r matches Step::Done(UpdateResult::Response(s)) && s@
                            == spec_project_set_text(p))
                    },
                    None => {
                        &&& sessions_post == sessions_pre
                        &&& r matches Step::Fail(TelegramError::ProjectNotFound(pid)) && pid
                            == project_id
                    },
                }
            },
            Pending::TasksProject { project_id } => {
                &&& sessions_post == sessions_pre
                &&& (reply matches RepoReply::ProjectFound(op) ==> match op {
                    Some(p) => r matches Step::Ask(
                        RepoQuery::FindTasks(pid),
                        Pending::ListTasks { project_name },
                    ) && pid == project_id && project_name@ == p.name@,
                    None => r matches Step::Fail(TelegramError::ProjectNotFound(pid)) && pid
                        == project_id,
                })
            },
            Pending::ListTasks { project_name } => {
                &&& sessions_post == sessions_pre
                &&& (reply matches RepoReply::Tasks(ts) ==> if ts@.len() == 0 {
                    r matches Step::Done(UpdateResult::Response(s)) && s@
                        == spec_no_tasks_text(project_name@)
                } else {
                    r matches Step::Done(UpdateResult::Response(s)) && s@
                        == spec_tasks_text(project_name@, ts@)
                })
            },
            Pending::ShowTask { task_id } => {
                &&& sessions_post == sessions_pre
                &&& (reply matches RepoReply::TaskFound(ot) ==> match ot {
                    Some(t) => r matches Step::Done(UpdateResult::Response(s)) && s@
                        == spec_task_detail_text(t),
                    None => r matches Step::Fail(TelegramError::TaskNotFound(tid)) && tid
                        == task_id,
                })
            },
            Pending::NewTaskProject { project_id, title } => {
                &&& sessions_post == sessions_pre
                &&& (reply matches RepoReply::ProjectFound(op) ==> match op {
                    Some(p) => r matches Step::Ask(
                        RepoQuery::CreateTask { project_id: pid, task_id: _tid, title: t },
                        Pending::NewTaskCreated { project_name },
                    ) && pid == project_id && t@ == title@ && project_name@ == p.name@,
                    None => r matches Step::Fail(TelegramError::ProjectNotFound(pid)) && pid
                        == project_id,
                })
            },
            Pending::NewTaskCreated { project_name } => {
                &&& sessions_post == sessions_pre
                &&& (reply matches RepoReply::TaskCreated(t) ==> r matches Step::Done(
                    UpdateResult::Response(s),
                ) && s@ == spec_task_created_text(project_name@, t))
            },
            Pending::MessageTask { task_id, body } => {
                &&& sessions_post == sessions_pre
                &&& (reply matches RepoReply::TaskFound(ot) ==> match ot {
                    Some(t) => r matches Step::Done(UpdateResult::Response(s)) && s@
                        == spec_message_queued_text(t.title@, body@),
                    None => r matches Step::Fail(TelegramError::TaskNotFound(tid)) && tid
                        == task_id,
                })
            },
        },
    }
}

/// The deep link that carries a token into the chat: through the bot's
/// handle where it is known, a bare fallback otherwise.
pub open spec fn spec_deep_link(bot: Option<Seq<char>>, token: Seq<char>) -> Seq<char> {
    match bot {
        Some(u) => "https://t.me/"@ + u + "?start="@ + token,
        None => "start="@ + token,
    }
}

/// The response of the link-status query consumed by the API layer.
#[derive(Debug)]
pub struct TelegramStatusResponse {
    pub linked: bool,
    pub username: Option<String>,
    pub notifications_enabled: bool,
    pub notify_on_task_done: bool,
    pub include_llm_summary: bool,
    pub bot_configured: bool,
}

impl From<TelegramConfig> for TelegramStatusResponse {
    /// The status as the bot-link record shows it; whether the bot is
    /// configured is no part of the record, so the caller sets it.
    fn from(config: TelegramConfig) -> (r: Self) {
        TelegramStatusResponse {
            linked: config.chat_id.is_some(),
            username: config.username,
            notifications_enabled: config.notifications_enabled,
            notify_on_task_done: config.notify_on_task_done,
            include_llm_summary: config.include_llm_summary,
            bot_configured: false,
        }
    }
}

impl vstd::std_specs::convert::FromSpecImpl<TelegramConfig> for TelegramStatusResponse {
    open spec fn obeys_from_spec() -> bool {
        true
    }

    open spec fn from_spec(config: TelegramConfig) -> Self {
        TelegramStatusResponse {
            linked: config.chat_id is Some,
            username: config.username,
            notifications_enabled: config.notifications_enabled,
            notify_on_task_done: config.notify_on_task_done,
            include_llm_summary: config.include_llm_summary,
            bot_configured: false,
        }
    }
}

/// What the link endpoint hands out: the token, the deep link carrying it,
/// and whether the bot is configured at all.
#[derive(Debug)]
pub struct TelegramLinkInfo {
    pub token: String,
    pub deep_link: String,
    pub bot_configured: bool,
}

/// A copy of an optional text, equal to it.
fn clone_opt_string(o: &Option<String>) -> (r: Option<String>)
    ensures
        r == *o,
{
    match o {
        Some(s) => Some(s.clone()),
        None => None,
    }
}

/// The service: whether a bot credential is present, the bot's handle for
/// deep links, and the two in-memory stores.
pub struct TelegramService {
    configured: bool,
    bot_username: Option<String>,
    pending_links: TokenStore,
    active_projects: SessionStore,
}

impl TelegramService {
    /// Whether a bot credential was present at construction.
    pub closed spec fn spec_configured(&self) -> bool {
        self.configured
    }

    /// The bot's handle, where known.
    pub closed spec fn bot_name(&self) -> Option<Seq<char>> {
        match self.bot_username {
            Some(u) => Some(u@),
            None => None,
        }
    }

    /// The pending link tokens, each mapped to its issuance time.
    pub closed spec fn tokens(&self) -> Map<Seq<char>, i64> {
        self.pending_links.entries()
    }

    /// Each chat's active project.
    pub closed spec fn sessions(&self) -> Map<i64, u128> {
        self.active_projects.sessions()
    }

    /// Whether nothing but the token store changed between `pre` and
    /// `post`.
    pub open spec fn same_but_tokens(pre: Self, post: Self) -> bool {
        &&& post.spec_configured() == pre.spec_configured()
        &&& post.bot_name() == pre.bot_name()
        &&& post.sessions() == pre.sessions()
    }

    /// A fresh service. Without a bot credential it reports itself
    /// unconfigured, and the surrounding program returns
    /// [`TelegramError::NotConfigured`] where the platform would be needed.
    pub fn new(bot_token: Option<String>) -> (s: Self)
        ensures
            s.spec_configured() == (bot_token is Some),
            s.bot_name() is None,
            s.tokens() == Map::<Seq<char>, i64>::empty(),
            s.sessions() == Map::<i64, u128>::empty(),
    {
        TelegramService {
            configured: bot_token.is_some(),
            bot_username: None,
            pending_links: TokenStore::new(),
            active_projects: SessionStore::new(),
        }
    }

    /// The same service, with the bot's handle set for deep links.
    pub fn with_bot_username(self, username: String) -> (s: Self)
        ensures
            s.spec_configured() == self.spec_configured(),
            s.bot_name() == Some(username@),
            s.tokens() == self.tokens(),
            s.sessions() == self.sessions(),
    {
        TelegramService {
            configured: self.configured,
            bot_username: Some(username),
            pending_links: self.pending_links,
            active_projects: self.active_projects,
        }
    }

    /// Whether a bot credential is present.
    pub fn is_configured(&self) -> (r: bool)
        ensures
            r == self.spec_configured(),
    {
        self.configured
    }

    /// The chat's active project, if it has set one.
    pub fn get_active_project(&self, chat_id: i64) -> (r: Option<EntityId>)
        ensures
            r == if self.sessions().dom().contains(chat_id) {
                Some(EntityId { value: self.sessions()[chat_id] })
            } else {
                None::<EntityId>
            },
    {
        self.active_projects.get_active_project(chat_id)
    }

    /// Set the chat's active project, overwriting any earlier choice.
    pub fn set_active_project(&mut self, chat_id: i64, project_id: EntityId)
        ensures
            final(self).sessions() == old(self).sessions().insert(chat_id, project_id.value),
            final(self).tokens() == old(self).tokens(),
            final(self).spec_configured() == old(self).spec_configured(),
            final(self).bot_name() == old(self).bot_name(),
    {
        self.active_projects.set_active_project(chat_id, project_id);
    }

    /// Issue a link token at `now`: expired entries are evicted, the fresh
    /// token is recorded at `now`, and the deep link carrying it is built
    /// from the bot's handle.
    pub fn generate_link_token_at(&mut self, now: i64) -> (r: Result<
        (String, String),
        TelegramError,
    >)
        ensures
            (r matches Ok(p) && final(self).tokens() == spec_live_entries(
                old(self).tokens(),
                now,
            ).insert(p.0@, now) && p.1@ == spec_deep_link(old(self).bot_name(), p.0@)),
            Self::same_but_tokens(*old(self), *final(self)),
    {
        let token = self.pending_links.issue_at(now);
        let deep_link = match &self.bot_username {
            Some(u) => {
                let mut s = String::from_str("https://t.me/");
                s.append(u.as_str());
                s.append("?start=");
                s.append(token.as_str());
                s
            },
            None => {
                let mut s = String::from_str("start=");
                s.append(token.as_str());
                s
            },
        };
        Ok((token, deep_link))
    }

    /// Issue a link token by the wall clock.
    pub fn generate_link_token(&mut self) -> (r: Result<(String, String), TelegramError>)
        ensures
            Self::same_but_tokens(*old(self), *final(self)),
            r is Ok,
            (r->Ok_0).1@ == spec_deep_link(old(self).bot_name(), (r->Ok_0).0@),
            exists|now: i64|
                final(self).tokens() == (#[trigger] spec_live_entries(
                    old(self).tokens(),
                    now,
                )).insert((r->Ok_0).0@, now),
    {
        let now = now_millis();
        let r = self.generate_link_token_at(now);
        proof {
            assert(final(self).tokens() == spec_live_entries(old(self).tokens(), now).insert(
                (r->Ok_0).0@,
                now,
            ));
        }
        r
    }

    /// Validate a link token at `now`, removing it where it was found
    /// expired; see [`spec_validate`].
    pub fn validate_link_token_at(&mut self, token: &str, now: i64) -> (r: Result<
        (),
        TelegramError,
    >)
        ensures
            r == spec_validate(old(self).tokens(), token@, now),
            final(self).tokens() == spec_validate_rest(old(self).tokens(), token@, now),
            Self::same_but_tokens(*old(self), *final(self)),
    {
        self.pending_links.validate_at(token, now)
    }

    /// Validate a link token by the wall clock.
    pub fn validate_link_token(&mut self, token: &str) -> (r: Result<(), TelegramError>)
        ensures
            Self::same_but_tokens(*old(self), *final(self)),
            exists|now: i64|
                r == #[trigger] spec_validate(old(self).tokens(), token@, now)
                    && final(self).tokens() == spec_validate_rest(old(self).tokens(), token@, now),
    {
        let now = now_millis();
        let r = self.validate_link_token_at(token, now);
        proof {
            assert(r == spec_validate(old(self).tokens(), token@, now) && final(self).tokens()
                == spec_validate_rest(old(self).tokens(), token@, now));
        }
        r
    }

    /// Complete a link at `now`: validate the token, consume it, and write
    /// the chat into the bot-link record with notifications opted in; the
    /// updated record is returned for persisting. See
    /// [`spec_complete_link`].
    pub fn complete_link_at(
        &mut self,
        tc: &mut TelegramConfig,
        token: &str,
        now: i64,
        chat_id: i64,
        user_id: i64,
        username: Option<String>,
    ) -> (r: Result<TelegramConfig, TelegramError>)
        ensures
            spec_complete_link(
                old(self).tokens(),
                final(self).tokens(),
                *old(tc),
                *final(tc),
                token@,
                now,
                chat_id,
                user_id,
                username,
                r,
            ),
            Self::same_but_tokens(*old(self), *final(self)),
    {
        match self.pending_links.validate_at(token, now) {
            Ok(()) => {
                self.pending_links.consume(token);
                tc.chat_id = Some(chat_id);
                tc.user_id = Some(user_id);
                tc.username = username;
                tc.notifications_enabled = true;
                tc.notify_on_task_done = true;
                Ok(tc.snapshot())
            },
            Err(e) => Err(e),
        }
    }

    /// Complete a link by the wall clock.
    pub fn complete_link(
        &mut self,
        tc: &mut TelegramConfig,
        token: &str,
        chat_id: i64,
        user_id: i64,
        username: Option<String>,
    ) -> (r: Result<TelegramConfig, TelegramError>)
        ensures
            Self::same_but_tokens(*old(self), *final(self)),
            exists|now: i64|
                #[trigger] spec_complete_link(
                    old(self).tokens(),
                    final(self).tokens(),
                    *old(tc),
                    *final(tc),
                    token@,
                    now,
                    chat_id,
                    user_id,
                    username,
                    r,
                ),
    {
        let now = now_millis();
        let ghost u = username;
        let r = self.complete_link_at(tc, token, now, chat_id, user_id, username);
        proof {
            assert(spec_complete_link(
                old(self).tokens(),
                final(self).tokens(),
                *old(tc),
                *final(tc),
                token@,
                now,
                chat_id,
                user_id,
                u,
                r,
            ));
        }
        r
    }

    /// Unlink: the bot-link record goes back to its default value. Never
    /// fails.
    pub fn unlink(&self, tc: &mut TelegramConfig) -> (r: Result<(), TelegramError>)
        ensures
            r is Ok,
            spec_default_telegram_config(*final(tc)),
    {
        *tc = TelegramConfig::default();
        Ok(())
    }

    /// Whether the bot-link record has a chat.
    pub fn is_linked(&self, tc: &TelegramConfig) -> (r: bool)
        ensures
            r == (tc.chat_id is Some),
    {
        tc.chat_id.is_some()
    }

    /// The bot-link record as it stands, for the status endpoint.
    pub fn get_link_status(&self, tc: &TelegramConfig) -> (r: TelegramConfig)
        ensures
            r == *tc,
    {
        tc.snapshot()
    }

    /// Handle one webhook message at `now`; see [`spec_handle_update`].
    /// The bot-link record is handed in mutably because a start command
    /// carrying a valid token links the chat.
    pub fn handle_update_at(&mut self, tc: &mut TelegramConfig, msg: WebhookMessage, now: i64) -> (r:
        Step)
        ensures
            spec_handle_update(
                old(self).tokens(),
                old(self).sessions(),
                *old(tc),
                msg,
                now,
                r,
                final(self).tokens(),
                *final(tc),
            ),
            final(self).sessions() == old(self).sessions(),
            final(self).spec_configured() == old(self).spec_configured(),
            final(self).bot_name() == old(self).bot_name(),
    {
        let WebhookMessage { chat_id, user_id, username, text } = msg;
        let text = match text {
            Some(t) => t,
            None => {
                return Step::Done(UpdateResult::NoResponse);
            },
        };
        let parsed = match parse_command(text.as_str()) {
            Some(p) => p,
            None => {
                return Step::Done(UpdateResult::NoResponse);
            },
        };
        let cmd = parsed.command;
        let args = parsed.args;
        if cmd == String::from_str("start") {
            self.start_step(tc, &args, chat_id, user_id, username, now)
        } else if cmd == String::from_str("help") {
            Step::Done(UpdateResult::Response(help_text()))
        } else if cmd == String::from_str("projects") {
            Step::Ask(RepoQuery::ListProjects, Pending::ShowProjects)
        } else if cmd == String::from_str("project") {
            project_step(&self.active_projects, &args, chat_id)
        } else if cmd == String::from_str("tasks") {
            tasks_step(&self.active_projects, &args, chat_id)
        } else if cmd == String::from_str("task") {
            task_step(&args)
        } else if cmd == String::from_str("newtask") {
            newtask_step(&self.active_projects, &args, chat_id)
        } else if cmd == String::from_str("message") {
            message_step(&args)
        } else {
            Step::Done(UpdateResult::Response(unknown_command_text(cmd.as_str())))
        }
    }

    /// Handle one webhook message by the wall clock.
    pub fn handle_update(&mut self, tc: &mut TelegramConfig, msg: WebhookMessage) -> (r: Step)
        ensures
            final(self).sessions() == old(self).sessions(),
            final(self).spec_configured() == old(self).spec_configured(),
            final(self).bot_name() == old(self).bot_name(),
            exists|now: i64|
                #[trigger] spec_handle_update(
                    old(self).tokens(),
                    old(self).sessions(),
                    *old(tc),
                    msg,
                    now,
                    r,
                    final(self).tokens(),
                    *final(tc),
                ),
    {
        let now = now_millis();
        let ghost msg0 = msg;
        let r = self.handle_update_at(tc, msg, now);
        proof {
            assert(spec_handle_update(
                old(self).tokens(),
                old(self).sessions(),
                *old(tc),
                msg0,
                now,
                r,
                final(self).tokens(),
                *final(tc),
            ));
        }
        r
    }

    /// The start command: a bare one is welcomed; one carrying a token
    /// attempts the link completion, whose two rejections become apologies
    /// in the chat.
    fn start_step(
        &mut self,
        tc: &mut TelegramConfig,
        args: &String,
        chat_id: i64,
        user_id: i64,
        username: Option<String>,
        now: i64,
    ) -> (r: Step)
        ensures
            spec_start_step(
                old(self).tokens(),
                final(self).tokens(),
                *old(tc),
                *final(tc),
                args@,
                chat_id,
                user_id,
                username,
                now,
                r,
            ),
            Self::same_but_tokens(*old(self), *final(self)),
    {
        if args.as_str().is_empty() {
            return Step::Done(UpdateResult::Response(welcome_text()));
        }
        let kept = clone_opt_string(&username);
        match self.complete_link_at(tc, args.as_str(), now, chat_id, user_id, username) {
            Ok(_updated) => Step::Done(
                UpdateResult::LinkCompleted { chat_id, user_id, username: kept },
            ),
            Err(TelegramError::InvalidLinkToken) => Step::Done(
                UpdateResult::Response(invalid_link_text()),
            ),
            Err(TelegramError::LinkTokenExpired) => Step::Done(
                UpdateResult::Response(expired_link_text()),
            ),
            Err(e) => Step::Fail(e),
        }
    }

    /// Resume a pending step with the repository's answer; see
    /// [`spec_resume`]. The caller answers the query it was asked, or
    /// reports its failure.
    pub fn resume(&mut self, pending: Pending, reply: RepoReply) -> (r: Step)
        requires
            spec_reply_fits(pending, reply),
        ensures
            spec_resume(old(self).sessions(), pending, reply, r, final(self).sessions()),
            final(self).tokens() == old(self).tokens(),
            final(self).spec_configured() == old(self).spec_configured(),
            final(self).bot_name() == old(self).bot_name(),
    {
        if let RepoReply::RepoFailed(m) = reply {
            return Step::Fail(TelegramError::Database(m));
        }
        match pending {
            Pending::ShowProjects => {
                match reply {
                    RepoReply::Projects(ps) => {
                        if ps.len() == 0 {
                            Step::Done(UpdateResult::Response(no_projects_text()))
                        } else {
                            Step::Done(UpdateResult::Response(projects_text(&ps)))
                        }
                    },
                    _ => unreached(),
                }
            },
            Pending::ShowActiveProject => {
                match reply {
                    RepoReply::ProjectFound(op) => {
                        match op {
                            Some(p) => Step::Done(
                                UpdateResult::Response(active_project_text(&p)),
                            ),
                            None => Step::Done(
                                UpdateResult::Response(no_active_project_text()),
                            ),
                        }
                    },
                    _ => unreached(),
                }
            },
            Pending::SetActiveProject { chat_id, project_id } => {
                match reply {
                    RepoReply::ProjectFound(op) => {
                        match op {
                            Some(p) => {
                                self.active_projects.set_active_project(chat_id, project_id);
                                Step::Done(UpdateResult::Response(project_set_text(&p)))
                            },
                            None => Step::Fail(TelegramError::ProjectNotFound(project_id)),
                        }
                    },
                    _ => unreached(),
                }
            },
            Pending::TasksProject { project_id } => {
                match reply {
                    RepoReply::ProjectFound(op) => {
                        match op {
                            Some(p) => Step::Ask(
                                RepoQuery::FindTasks(project_id),
                                Pending::ListTasks { project_name: p.name },
                            ),
                            None => Step::Fail(TelegramError::ProjectNotFound(project_id)),
                        }
                    },
                    _ => unreached(),
                }
            },
            Pending::ListTasks { project_name } => {
                match reply {
                    RepoReply::Tasks(ts) => {
                        if ts.len() == 0 {
                            Step::Done(
                                UpdateResult::Response(no_tasks_text(project_name.as_str())),
                            )
                        } else {
                            Step::Done(
                                UpdateResult::Response(tasks_text(project_name.as_str(), &ts)),
                            )
                        }
                    },
                    _ => unreached(),
                }
            },
            Pending::ShowTask { task_id } => {
                match reply {
                    RepoReply::TaskFound(ot) => {
                        match ot {
                            Some(t) => Step::Done(UpdateResult::Response(task_detail_text(&t))),
                            None => Step::Fail(TelegramError::TaskNotFound(task_id)),
                        }
                    },
                    _ => unreached(),
                }
            },
            Pending::NewTaskProject { project_id, title } => {
                match reply {
                    RepoReply::ProjectFound(op) => {
                        match op {
                            Some(p) => {
                                let task_id = fresh_entity_id();
                                Step::Ask(
                                    RepoQuery::CreateTask { project_id, task_id, title },
                                    Pending::NewTaskCreated { project_name: p.name },
                                )
                            },
                            None => Step::Fail(TelegramError::ProjectNotFound(project_id)),
                        }
                    },
                    _ => unreached(),
                }
            },
            Pending::NewTaskCreated { project_name } => {
                match reply {
                    RepoReply::TaskCreated(t) => Step::Done(
                        UpdateResult::Response(task_created_text(project_name.as_str(), &t)),
                    ),
                    _ => unreached(),
                }
            },
            Pending::MessageTask { task_id, body } => {
                match reply {
                    RepoReply::TaskFound(ot) => {
                        match ot {
                            Some(t) => Step::Done(
                                UpdateResult::Response(
                                    message_queued_text(t.title.as_str(), body.as_str()),
                                ),
                            ),
                            None => Step::Fail(TelegramError::TaskNotFound(task_id)),
                        }
                    },
                    _ => unreached(),
                }
            },
        }
    }
}

/// The project command; see [`spec_project_step`].
fn project_step(sessions: &SessionStore, args: &String, chat_id: i64) -> (r: Step)
    ensures
        spec_project_step(sessions.sessions(), args@, chat_id, r),
{
    if args.as_str().is_empty() {
        match sessions.get_active_project(chat_id) {
            Some(pid) => Step::Ask(RepoQuery::FindProject(pid), Pending::ShowActiveProject),
            None => Step::Done(UpdateResult::Response(no_active_project_text())),
        }
    } else {
        match parse_uuid(args.as_str()) {
            Ok(pid) => Step::Ask(
                RepoQuery::FindProject(pid),
                Pending::SetActiveProject { chat_id, project_id: pid },
            ),
            Err(e) => Step::Fail(e),
        }
    }
}

/// The tasks command; see [`spec_tasks_step`].
fn tasks_step(sessions: &SessionStore, args: &String, chat_id: i64) -> (r: Step)
    ensures
        spec_tasks_step(sessions.sessions(), args@, chat_id, r),
{
    if args.as_str().is_empty() {
        match sessions.get_active_project(chat_id) {
            Some(pid) => Step::Ask(
                RepoQuery::FindProject(pid),
                Pending::TasksProject { project_id: pid },
            ),
            None => Step::Fail(TelegramError::NoActiveProject),
        }
    } else {
        match parse_uuid(args.as_str()) {
            Ok(pid) => Step::Ask(
                RepoQuery::FindProject(pid),
                Pending::TasksProject { project_id: pid },
            ),
            Err(e) => Step::Fail(e),
        }
    }
}

/// The task detail command; see [`spec_task_step`].
fn task_step(args: &String) -> (r: Step)
    ensures
        spec_task_step(args@, r),
{
    if args.as_str().is_empty() {
        Step::Done(UpdateResult::Response(task_usage_text()))
    } else {
        match parse_uuid(args.as_str()) {
            Ok(tid) => Step::Ask(RepoQuery::FindTask(tid), Pending::ShowTask { task_id: tid }),
            Err(e) => Step::Fail(e),
        }
    }
}

/// The task creation command; see [`spec_newtask_step`].
fn newtask_step(sessions: &SessionStore, args: &String, chat_id: i64) -> (r: Step)
    ensures
        spec_newtask_step(sessions.sessions(), args@, chat_id, r),
{
    if args.as_str().is_empty() {
        return Step::Done(UpdateResult::Response(newtask_usage_text()));
    }
    let achars = str_to_chars(args.as_str());
    let sp = find_char(&achars, ' ');
    if sp < achars.len() {
        let head = vec_subrange(&achars, 0, sp);
        let tail = vec_subrange(&achars, sp + 1, achars.len());
        let head_text = chars_to_string(&head);
        match uuid_from_str(head_text.as_str()) {
            Some(v) => {
                let pid = EntityId { value: v };
                let title = chars_to_string(&tail);
                Step::Ask(
                    RepoQuery::FindProject(pid),
                    Pending::NewTaskProject { project_id: pid, title },
                )
            },
            None => {
                match sessions.get_active_project(chat_id) {
                    Some(pid) => {
                        let title = args.clone();
                        Step::Ask(
                            RepoQuery::FindProject(pid),
                            Pending::NewTaskProject { project_id: pid, title },
                        )
                    },
                    None => Step::Fail(TelegramError::NoActiveProject),
                }
            },
        }
    } else {
        match sessions.get_active_project(chat_id) {
            Some(pid) => {
                let title = args.clone();
                Step::Ask(
                    RepoQuery::FindProject(pid),
                    Pending::NewTaskProject { project_id: pid, title },
                )
            },
            None => Step::Fail(TelegramError::NoActiveProject),
        }
    }
}

/// The message command; see [`spec_message_step`].
fn message_step(args: &String) -> (r: Step)
    ensures
        spec_message_step(args@, r),
{
    if args.as_str().is_empty() {
        return Step::Done(UpdateResult::Response(message_usage_text()));
    }
    let achars = str_to_chars(args.as_str());
    let sp = find_char(&achars, ' ');
    if sp == achars.len() {
        return Step::Done(UpdateResult::Response(message_usage_text()));
    }
    let head = vec_subrange(&achars, 0, sp);
    let body = vec_subrange(&achars, sp + 1, achars.len());
    if body.len() == 0 {
        return Step::Done(UpdateResult::Response(message_usage_text()));
    }
    let head_text = chars_to_string(&head);
    match parse_uuid(head_text.as_str()) {
        Ok(tid) => {
            let body_text = chars_to_string(&body);
            Step::Ask(
                RepoQuery::FindTask(tid),
                Pending::MessageTask { task_id: tid, body: body_text },
            )
        },
        Err(e) => Step::Fail(e),
    }
}

} // verus!
