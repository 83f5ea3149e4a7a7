use telegram_core::config::TelegramConfig;
use telegram_core::errors::TelegramError;
use telegram_core::notify::{task_notification, NotificationPlan};

fn linked_record() -> TelegramConfig {
    let mut tc = TelegramConfig::default();
    tc.chat_id = Some(99);
    tc.user_id = Some(1);
    tc.notifications_enabled = true;
    tc.notify_on_task_done = true;
    tc
}

#[test]
fn test_gate_silent_when_notifications_disabled() {
    let mut tc = linked_record();
    tc.notifications_enabled = false;
    tc.include_llm_summary = true;
    tc.stream_enabled = true;
    let plan = task_notification(&tc, "Title", Some("summary"));
    assert!(matches!(plan, Ok(NotificationPlan::Skip)));
}

#[test]
fn test_gate_silent_when_task_done_notification_off() {
    let mut tc = linked_record();
    tc.notify_on_task_done = false;
    let plan = task_notification(&tc, "Title", Some("summary"));
    assert!(matches!(plan, Ok(NotificationPlan::Skip)));
}

#[test]
fn test_gate_unlinked_is_an_error() {
    let mut tc = linked_record();
    tc.chat_id = None;
    let plan = task_notification(&tc, "Title", None);
    assert!(matches!(plan, Err(TelegramError::NotLinked)));
}

#[test]
fn test_gate_message_escapes_title() {
    let tc = linked_record();
    let plan = task_notification(&tc, "Fix <the> & bug", Some("ignored"));
    match plan {
        Ok(NotificationPlan::Send { chat_id, text }) => {
            assert_eq!(chat_id, 99);
            assert_eq!(
                text,
                "\u{201a}\u{fa}\u{d6} <b>Task Completed</b>\n\n<b>Fix &lt;the&gt; &amp; bug</b>"
            );
        }
        other => panic!("expected a send plan, got {:?}", other),
    }
}

#[test]
fn test_gate_appends_summary_only_when_included() {
    let mut tc = linked_record();
    tc.include_llm_summary = true;
    let plan = task_notification(&tc, "T", Some("all <done>"));
    match plan {
        Ok(NotificationPlan::Send { text, .. }) => {
            assert_eq!(
                text,
                "\u{201a}\u{fa}\u{d6} <b>Task Completed</b>\n\n<b>T</b>\n\n<b>Summary:</b>\nall &lt;done&gt;"
            );
        }
        other => panic!("expected a send plan, got {:?}", other),
    }

    // Summaries switched on but none supplied: the base message alone.
    let plan2 = task_notification(&tc, "T", None);
    match plan2 {
        Ok(NotificationPlan::Send { text, .. }) => {
            assert_eq!(text, "\u{201a}\u{fa}\u{d6} <b>Task Completed</b>\n\n<b>T</b>");
        }
        other => panic!("expected a send plan, got {:?}", other),
    }
}
