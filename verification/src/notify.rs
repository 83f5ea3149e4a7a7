//! The notification gate: whether and what to send when a task completes.

use vstd::prelude::*;
use vstd::string::StringExecFns;
use crate::config::TelegramConfig;
use crate::errors::TelegramError;
use crate::html::{escape_html, escape_seq};

verus! {

/// The text of a completion notification: the escaped title, and, only
/// when summaries are switched on and one was supplied, the escaped
/// summary after it.
pub open spec fn spec_notification_text(
    title: Seq<char>,
    summary: Option<Seq<char>>,
    include_summary: bool,
) -> Seq<char> {
    let base = "\u{201a}\u{fa}\u{d6} <b>Task Completed</b>\n\n<b>"@ + escape_seq(title) + "</b>"@;
    if include_summary && summary is Some {
        base + "\n\n<b>Summary:</b>\n"@ + escape_seq(summary->0)
    } else {
        base
    }
}

/// The decision: nothing to send, or one message for the linked chat.
#[derive(Debug)]
pub enum NotificationPlan {
    Skip,
    Send { chat_id: i64, text: String },
}

/// Decide, from the bot-link record, whether a completion notification goes
/// out and what it says. Nothing is sent unless both `notifications_enabled`
/// and `notify_on_task_done` are set; with both set, a missing chat link is
/// an inconsistency surfaced as [`TelegramError::NotLinked`], not skipped
/// over.
pub fn task_notification(tc: &TelegramConfig, title: &str, llm_summary: Option<&str>) -> (r:
    Result<NotificationPlan, TelegramError>)
    ensures
        !(tc.notifications_enabled && tc.notify_on_task_done) ==> r == Ok::<
            NotificationPlan,
            TelegramError,
        >(NotificationPlan::Skip),
        tc.notifications_enabled && tc.notify_on_task_done && tc.chat_id is None ==> r == Err::<
            NotificationPlan,
            TelegramError,
        >(TelegramError::NotLinked),
        (tc.notifications_enabled && tc.notify_on_task_done && tc.chat_id is Some) ==> (
        r matches Ok(NotificationPlan::Send { chat_id, text }) && chat_id == tc.chat_id->0 && text@
            == spec_notification_text(
            title@,
            match llm_summary {
                Some(s) => Some(s@),
                None => None,
            },
            tc.include_llm_summary,
        )),
{
    if !tc.notifications_enabled || !tc.notify_on_task_done {
        return Ok(NotificationPlan::Skip);
    }
    let chat_id = match tc.chat_id {
        Some(c) => c,
        None => {
            return Err(TelegramError::NotLinked);
        },
    };
    let mut text = String::from_str("\u{201a}\u{fa}\u{d6} <b>Task Completed</b>\n\n<b>");
    text.append(escape_html(title).as_str());
    text.append("</b>");
    if tc.include_llm_summary {
        match llm_summary {
            Some(s) => {
                text.append("\n\n<b>Summary:</b>\n");
                text.append(escape_html(s).as_str());
            },
            None => {},
        }
    }
    Ok(NotificationPlan::Send { chat_id, text })
}

} // verus!
