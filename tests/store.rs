use coworker::model::Conversation;
use coworker::store::{
    create_conversation, create_conversation_at, delete_conversation, get_conversations,
    send_message, send_message_at, AppState,
};

fn count_id(list: &[Conversation], id: &str) -> usize {
    list.iter().filter(|c| c.id == id).count()
}

#[test]
fn new_store_is_empty() {
    let state = AppState::new();
    assert!(get_conversations(&state).is_empty());
    let state = AppState::default();
    assert!(get_conversations(&state).is_empty());
}

#[test]
fn create_then_list_includes_it_once() {
    let mut state = AppState::new();
    create_conversation_at(&mut state, "first", "a".to_string(), 10);
    let c = create_conversation_at(&mut state, "second", "b".to_string(), 20);
    assert_eq!(c.id, "b");
    assert_eq!(c.title, "second");
    assert!(c.messages.is_empty());
    assert_eq!(c.created_at, 20);
    assert_eq!(c.updated_at, 20);
    let list = get_conversations(&state);
    assert_eq!(list.len(), 2);
    assert_eq!(count_id(&list, "a"), 1);
    assert_eq!(count_id(&list, "b"), 1);
}

#[test]
fn create_with_existing_id_replaces_entry() {
    let mut state = AppState::new();
    create_conversation_at(&mut state, "old", "same".to_string(), 1);
    send_message_at(&mut state, "same", "x", "m1".to_string(), 2);
    create_conversation_at(&mut state, "new", "same".to_string(), 3);
    let list = get_conversations(&state);
    assert_eq!(list.len(), 1);
    assert_eq!(list[0].title, "new");
    assert!(list[0].messages.is_empty());
    assert_eq!(list[0].created_at, 3);
}

#[test]
fn send_to_existing_appends_one_message() {
    let mut state = AppState::new();
    create_conversation_at(&mut state, "chat", "c1".to_string(), 100);
    create_conversation_at(&mut state, "other", "c2".to_string(), 100);
    let m = send_message_at(&mut state, "c1", "hello", "m1".to_string(), 150);
    assert_eq!(m.id, "m1");
    assert_eq!(m.role, "user");
    assert_eq!(m.content, "hello");
    assert_eq!(m.timestamp, 150);
    let m2 = send_message_at(&mut state, "c1", "again", "m2".to_string(), 160);
    let list = get_conversations(&state);
    let c1 = list.iter().find(|c| c.id == "c1").unwrap();
    assert_eq!(c1.messages.len(), 2);
    assert_eq!(c1.messages[0].id, m.id);
    assert_eq!(c1.messages[1].id, m2.id);
    assert_eq!(c1.messages[1].content, "again");
    assert_eq!(c1.updated_at, 160);
    assert_eq!(c1.created_at, 100);
    let c2 = list.iter().find(|c| c.id == "c2").unwrap();
    assert!(c2.messages.is_empty());
    assert_eq!(c2.updated_at, 100);
}

#[test]
fn send_to_missing_leaves_store_unchanged() {
    let mut state = AppState::new();
    create_conversation_at(&mut state, "chat", "c1".to_string(), 100);
    let m = send_message_at(&mut state, "nope", "lost", "m1".to_string(), 200);
    assert_eq!(m.content, "lost");
    assert_eq!(m.role, "user");
    let list = get_conversations(&state);
    assert_eq!(list.len(), 1);
    assert!(list[0].messages.is_empty());
    assert_eq!(list[0].updated_at, 100);
}

#[test]
fn delete_existing_and_missing() {
    let mut state = AppState::new();
    create_conversation_at(&mut state, "one", "a".to_string(), 1);
    create_conversation_at(&mut state, "two", "b".to_string(), 2);
    assert_eq!(delete_conversation(&mut state, "a"), Ok(true));
    let list = get_conversations(&state);
    assert_eq!(list.len(), 1);
    assert_eq!(list[0].id, "b");
    assert_eq!(delete_conversation(&mut state, "a"), Ok(false));
    assert_eq!(delete_conversation(&mut state, "zzz"), Ok(false));
    let list = get_conversations(&state);
    assert_eq!(list.len(), 1);
    assert_eq!(list[0].id, "b");
    assert_eq!(delete_conversation(&mut state, "b"), Ok(true));
    assert!(get_conversations(&state).is_empty());
}

#[test]
fn create_send_list_scenario() {
    let mut state = AppState::new();
    let c = create_conversation(&mut state, "Test").unwrap();
    assert_eq!(c.title, "Test");
    assert!(c.messages.is_empty());
    assert_eq!(c.created_at, c.updated_at);
    let m = send_message(&mut state, &c.id, "hi").unwrap();
    assert_eq!(m.role, "user");
    assert_eq!(m.content, "hi");
    let list = get_conversations(&state);
    assert_eq!(list.len(), 1);
    assert_eq!(list[0].id, c.id);
    assert_eq!(list[0].messages.len(), 1);
    assert_eq!(list[0].messages[0].id, m.id);
    assert_eq!(list[0].updated_at, m.timestamp);
}

#[test]
fn generated_ids_are_hyphenated_and_distinct() {
    let mut state = AppState::new();
    let a = create_conversation(&mut state, "a").unwrap();
    let b = create_conversation(&mut state, "b").unwrap();
    assert_eq!(a.id.len(), 36);
    assert_eq!(a.id.matches('-').count(), 4);
    assert_ne!(a.id, b.id);
    let m = send_message(&mut state, &a.id, "x").unwrap();
    assert_eq!(m.id.len(), 36);
    assert_ne!(m.id, a.id);
}

#[test]
fn timestamps_come_from_the_clock() {
    let mut state = AppState::new();
    let c = create_conversation(&mut state, "t").unwrap();
    // 2020-09-13, well before any run of this test
    assert!(c.created_at > 1_600_000_000);
    let m = send_message(&mut state, "missing", "x").unwrap();
    assert!(m.timestamp >= c.created_at);
    assert_eq!(get_conversations(&state).len(), 1);
}
