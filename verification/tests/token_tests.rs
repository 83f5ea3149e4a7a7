use telegram_core::config::TelegramConfig;
use telegram_core::errors::TelegramError;
use telegram_core::service::TelegramService;
use telegram_core::tokens::LinkToken;

const MINUTE_MILLIS: i64 = 60_000;

#[test]
fn test_link_token_expiry() {
    let now = chrono::Utc::now().timestamp_millis();
    let fresh_token = LinkToken {
        token: "test".to_string(),
        created_at: now,
    };
    assert!(!fresh_token.is_expired());

    let expired_token = LinkToken {
        token: "test".to_string(),
        created_at: now - 20 * MINUTE_MILLIS,
    };
    assert!(expired_token.is_expired());
}

#[test]
fn test_link_token_exactly_at_expiry_boundary() {
    let now = chrono::Utc::now().timestamp_millis();
    // At exactly fifteen minutes the token is not past its lifetime yet.
    let token_at_boundary = LinkToken {
        token: "test".to_string(),
        created_at: now - 15 * MINUTE_MILLIS,
    };
    assert!(!token_at_boundary.is_expired_at(now));

    // One second past the boundary it is.
    let token_past_boundary = LinkToken {
        token: "test".to_string(),
        created_at: now - 15 * MINUTE_MILLIS - 1_000,
    };
    assert!(token_past_boundary.is_expired_at(now));
}

#[test]
fn test_link_token_just_created() {
    let token = LinkToken {
        token: "fresh".to_string(),
        created_at: chrono::Utc::now().timestamp_millis(),
    };
    assert!(!token.is_expired());
}

#[test]
fn test_link_token_14_minutes_old() {
    let token = LinkToken {
        token: "test".to_string(),
        created_at: chrono::Utc::now().timestamp_millis() - 14 * MINUTE_MILLIS,
    };
    assert!(!token.is_expired());
}

#[test]
fn test_issue_validate_expire_scenario() {
    let mut service = TelegramService::new(Some("credential".to_string()));
    let now = 1_000_000_000i64;
    let (token, _deep_link) = service.generate_link_token_at(now).unwrap();

    // Fresh: accepted, and still accepted at the boundary itself.
    assert!(service.validate_link_token_at(&token, now).is_ok());
    assert!(service
        .validate_link_token_at(&token, now + 15 * MINUTE_MILLIS)
        .is_ok());

    // Past the boundary: reported expired, and removed by that validation.
    match service.validate_link_token_at(&token, now + 15 * MINUTE_MILLIS + 1) {
        Err(TelegramError::LinkTokenExpired) => {}
        other => panic!("expected the expiry report, got {:?}", other),
    }
    match service.validate_link_token_at(&token, now) {
        Err(TelegramError::InvalidLinkToken) => {}
        other => panic!("the expired token must be gone, got {:?}", other),
    }
}

#[test]
fn test_issue_evicts_expired_tokens() {
    let mut service = TelegramService::new(Some("credential".to_string()));
    let now = 5_000_000_000i64;
    let (stale, _) = service.generate_link_token_at(now).unwrap();

    // Issuing sixteen minutes later evicts the stale entry first.
    let (fresh, _) = service
        .generate_link_token_at(now + 16 * MINUTE_MILLIS)
        .unwrap();
    match service.validate_link_token_at(&stale, now + 16 * MINUTE_MILLIS) {
        Err(TelegramError::InvalidLinkToken) => {}
        other => panic!("the stale token must be gone, got {:?}", other),
    }
    assert!(service
        .validate_link_token_at(&fresh, now + 16 * MINUTE_MILLIS)
        .is_ok());
}

#[test]
fn test_complete_link_consumes_token_exactly_once() {
    let mut service = TelegramService::new(Some("credential".to_string()));
    let now = 42i64;
    let (token, _) = service.generate_link_token_at(now).unwrap();
    let mut tc = TelegramConfig::default();
    tc.include_llm_summary = true;

    let first = service.complete_link_at(&mut tc, &token, now + 1, 7, 8, Some("sam".to_string()));
    let updated = first.expect("a live token completes the link");
    assert_eq!(updated.chat_id, Some(7));
    assert_eq!(updated.user_id, Some(8));
    assert_eq!(updated.username, Some("sam".to_string()));
    assert!(updated.notifications_enabled);
    assert!(updated.notify_on_task_done);
    // Flags outside the link are kept.
    assert!(updated.include_llm_summary);
    assert_eq!(tc, updated);

    // The same token a second time: invalid, and the record untouched.
    let second = service.complete_link_at(&mut tc, &token, now + 2, 9, 10, None);
    match second {
        Err(TelegramError::InvalidLinkToken) => {}
        other => panic!("a consumed token must not be honoured again, got {:?}", other),
    }
    assert_eq!(tc.chat_id, Some(7));
    assert_eq!(tc.username, Some("sam".to_string()));
}

#[test]
fn test_unlink_resets_record() {
    let mut service = TelegramService::new(Some("credential".to_string()));
    let now = 42i64;
    let (token, _) = service.generate_link_token_at(now).unwrap();
    let mut tc = TelegramConfig::default();
    service
        .complete_link_at(&mut tc, &token, now, 7, 8, Some("sam".to_string()))
        .unwrap();
    assert!(service.is_linked(&tc));

    let mut tc2 = tc.clone();
    assert!(service.unlink(&mut tc2).is_ok());
    assert_eq!(tc2, TelegramConfig::default());
    assert!(!service.is_linked(&tc2));
}

#[test]
fn test_deep_link_forms() {
    let mut with_handle =
        TelegramService::new(Some("credential".to_string())).with_bot_username("mybot".to_string());
    let (token, link) = with_handle.generate_link_token_at(0).unwrap();
    assert_eq!(link, format!("https://t.me/{}?start={}", "mybot", token));

    let mut bare = TelegramService::new(Some("credential".to_string()));
    let (token2, link2) = bare.generate_link_token_at(0).unwrap();
    assert_eq!(link2, format!("start={}", token2));
}

#[test]
fn test_get_link_status_copies_record() {
    let service = TelegramService::new(None);
    assert!(!service.is_configured());
    let mut tc = TelegramConfig::default();
    tc.chat_id = Some(3);
    tc.username = Some("someone".to_string());
    let status = service.get_link_status(&tc);
    assert_eq!(status, tc);
}
