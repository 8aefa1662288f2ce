use remote_commander::config::{parse_allowed_chat_ids, Config, ConfigError};

#[test]
fn config_from_documented_example() {
    let c = Config::from_vars(
        Some("1234567890:AAFxxxxxxxxxxxxxxxxxxxx".to_string()),
        Some("123456789,987654321".to_string()),
    )
    .unwrap();
    assert_eq!(c.bot_token, "1234567890:AAFxxxxxxxxxxxxxxxxxxxx");
    assert_eq!(c.allowed_chat_ids, vec![123456789, 987654321]);
}

#[test]
fn config_missing_token_comes_first() {
    let e = Config::from_vars(None, None).err().unwrap();
    assert_eq!(e, ConfigError::MissingToken);
    assert_eq!(e.message(), "Переменная TELEGRAM_BOT_TOKEN не задана в .env");
}

#[test]
fn config_missing_chat_ids() {
    let e = Config::from_vars(Some("t".to_string()), None).err().unwrap();
    assert_eq!(e, ConfigError::MissingChatIds);
    assert_eq!(e.message(), "Переменная ALLOWED_CHAT_IDS не задана в .env");
}

#[test]
fn config_invalid_chat_ids() {
    let e = Config::from_vars(Some("t".to_string()), Some("12,abc".to_string())).err().unwrap();
    assert_eq!(e, ConfigError::InvalidChatIds);
    assert_eq!(
        e.message(),
        "Неверный формат ALLOWED_CHAT_IDS (ожидаются числа через запятую)"
    );
}

#[test]
fn chat_ids_skip_blank_entries_and_trim() {
    assert_eq!(parse_allowed_chat_ids(" 1 , ,-2,\t3\t,").unwrap(), vec![1, -2, 3]);
    assert_eq!(parse_allowed_chat_ids("").unwrap(), Vec::<i64>::new());
    assert_eq!(parse_allowed_chat_ids(" , ").unwrap(), Vec::<i64>::new());
}

#[test]
fn chat_ids_refuse_non_numbers_and_overflow() {
    assert_eq!(parse_allowed_chat_ids("1 2"), Err(ConfigError::InvalidChatIds));
    assert_eq!(parse_allowed_chat_ids("9223372036854775808"), Err(ConfigError::InvalidChatIds));
    assert_eq!(parse_allowed_chat_ids("-9223372036854775808").unwrap(), vec![i64::MIN]);
    assert_eq!(parse_allowed_chat_ids("1;2"), Err(ConfigError::InvalidChatIds));
}

#[test]
fn chat_ids_round_trip_example() {
    let ids = vec![0, -1, 42, i64::MAX, i64::MIN];
    let text = ids.iter().map(|i| i.to_string()).collect::<Vec<_>>().join(",");
    assert_eq!(parse_allowed_chat_ids(&text).unwrap(), ids);
}
