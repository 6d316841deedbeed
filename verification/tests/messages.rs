use linked_chat_bot::linkedin::{Conversation, Message, MessageDirection};
use linked_chat_bot::time::UtcDateTime;

#[test]
fn test_conversation_new() {
    let conv = Conversation::new("conv-123".to_string(), vec!["John Doe".to_string()]);
    assert_eq!(conv.id, "conv-123");
    assert_eq!(conv.participants.len(), 1);
    assert!(conv.messages.is_empty());
    assert!(!conv.has_unread);
}

#[test]
fn test_last_message() {
    let mut conv = Conversation::new("conv-123".to_string(), vec!["Jane Recruiter".to_string()]);
    assert!(conv.last_message().is_none());

    conv.messages.push(Message {
        id: "msg-1".to_string(),
        content: "Hello!".to_string(),
        sender_name: "Jane Recruiter".to_string(),
        sender_id: "jane-123".to_string(),
        direction: MessageDirection::Received,
        timestamp: UtcDateTime::now(),
        is_read: false,
    });

    assert!(conv.last_message().is_some());
    assert_eq!(conv.last_message().unwrap().content, "Hello!");
}
