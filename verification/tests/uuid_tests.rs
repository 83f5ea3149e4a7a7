use telegram_core::errors::TelegramError;
use telegram_core::ids::parse_uuid;

#[test]
fn test_parse_uuid_valid() {
    let uuid_str = "550e8400-e29b-41d4-a716-446655440000";
    let result = parse_uuid(uuid_str);
    assert!(result.is_ok());
    assert_eq!(result.unwrap().text(), uuid_str);
}

#[test]
fn test_parse_uuid_with_whitespace() {
    let uuid_str = "  550e8400-e29b-41d4-a716-446655440000  ";
    let result = parse_uuid(uuid_str);
    assert!(result.is_ok());
}

#[test]
fn test_parse_uuid_invalid() {
    let invalid = "not-a-uuid";
    let result = parse_uuid(invalid);
    assert!(result.is_err());
    match result {
        Err(TelegramError::InvalidCommand(msg)) => {
            assert!(msg.contains("Invalid ID format"));
        }
        _ => panic!("Expected InvalidCommand error"),
    }
}

#[test]
fn test_parse_uuid_empty() {
    let result = parse_uuid("");
    assert!(result.is_err());
}

#[test]
fn test_parse_uuid_partial() {
    let result = parse_uuid("550e8400-e29b");
    assert!(result.is_err());
}
