use syncplay::chat::{ChatCommand, ChatManager, ChatMessageType};

#[test]
fn test_chat_command_parse_room() {
    let cmd = ChatCommand::parse("/room test");
    assert_eq!(cmd, Some(ChatCommand::Room("test".to_string())));

    let cmd = ChatCommand::parse("/r test room");
    assert_eq!(cmd, Some(ChatCommand::Room("test room".to_string())));
}

#[test]
fn test_chat_command_parse_list() {
    let cmd = ChatCommand::parse("/list");
    assert_eq!(cmd, Some(ChatCommand::List));

    let cmd = ChatCommand::parse("/l");
    assert_eq!(cmd, Some(ChatCommand::List));
}

#[test]
fn test_chat_command_parse_help() {
    let cmd = ChatCommand::parse("/help");
    assert_eq!(cmd, Some(ChatCommand::Help));

    let cmd = ChatCommand::parse("/h");
    assert_eq!(cmd, Some(ChatCommand::Help));

    let cmd = ChatCommand::parse("/?");
    assert_eq!(cmd, Some(ChatCommand::Help));
}

#[test]
fn test_chat_command_parse_ready() {
    let cmd = ChatCommand::parse("/ready");
    assert_eq!(cmd, Some(ChatCommand::Ready));

    let cmd = ChatCommand::parse("/unready");
    assert_eq!(cmd, Some(ChatCommand::Unready));
}

#[test]
fn test_chat_command_parse_unknown() {
    let cmd = ChatCommand::parse("/unknown");
    assert!(matches!(cmd, Some(ChatCommand::Unknown(_))));
}

#[test]
fn test_chat_command_parse_not_command() {
    let cmd = ChatCommand::parse("hello world");
    assert_eq!(cmd, None);
}

#[test]
fn test_chat_manager_add_messages() {
    let mut manager = ChatManager::new();
    manager.add_user_message("user1".to_string(), "Hello".to_string());
    manager.add_system_message("System message".to_string());

    assert_eq!(manager.len(), 2);
}

#[test]
fn test_chat_manager_max_messages() {
    let mut manager = ChatManager::with_max_messages(5);

    for i in 0..10 {
        manager.add_user_message("user".to_string(), format!("Message {}", i));
    }

    assert_eq!(manager.len(), 5);
    let messages = manager.get_messages();
    assert_eq!(messages[0].message, "Message 5");
}

#[test]
fn test_chat_manager_recent_messages() {
    let mut manager = ChatManager::new();

    for i in 0..10 {
        manager.add_user_message("user".to_string(), format!("Message {}", i));
    }

    let recent = manager.get_recent_messages(3);
    assert_eq!(recent.len(), 3);
    assert_eq!(recent[0].message, "Message 7");
    assert_eq!(recent[2].message, "Message 9");
}

#[test]
fn test_chat_manager_clear() {
    let mut manager = ChatManager::new();
    manager.add_user_message("user".to_string(), "Hello".to_string());

    manager.clear();
    assert!(manager.is_empty());
}

#[test]
fn command_word_is_lowered_and_unknown_text_names_it() {
    assert_eq!(ChatCommand::parse("/LIST"), Some(ChatCommand::List));
    assert_eq!(ChatCommand::parse("/ROOM Movie  Night"), Some(ChatCommand::Room("Movie Night".to_string())));
    assert_eq!(
        ChatCommand::parse("/Foo bar"),
        Some(ChatCommand::Unknown("Unknown command: /foo".to_string()))
    );
    assert_eq!(
        ChatCommand::parse("/room"),
        Some(ChatCommand::Unknown("Usage: /room <name>".to_string()))
    );
    assert_eq!(ChatCommand::parse(""), None);
}

#[test]
fn help_text_lists_commands() {
    let text = ChatCommand::help_text();
    assert!(text.starts_with("Available commands:\n/room <name>"));
    assert!(text.ends_with("/help or /h or /? - Show this help message"));
}

#[test]
fn ring_keeps_last_capacity_messages_in_order() {
    let mut manager = ChatManager::with_max_messages(3);
    for i in 0..7 {
        manager.add_system_message(format!("m{}", i));
    }
    let messages = manager.get_messages();
    let texts: Vec<&str> = messages.iter().map(|m| m.message.as_str()).collect();
    assert_eq!(texts, vec!["m4", "m5", "m6"]);
    assert!(messages.iter().all(|m| m.message_type == ChatMessageType::System && m.username.is_none()));

    let mut small = ChatManager::with_max_messages(3);
    small.add_error_message("e".to_string());
    small.add_server_message("s".to_string());
    assert_eq!(small.len(), 2);
    assert_eq!(small.get_recent_messages(10).len(), 2);
    assert_eq!(small.get_messages()[1].message_type, ChatMessageType::Server);
}

#[test]
fn zero_capacity_ring_stays_empty() {
    let mut manager = ChatManager::with_max_messages(0);
    manager.add_user_message("u".to_string(), "x".to_string());
    assert!(manager.is_empty());
}
