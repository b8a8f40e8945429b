use rtwo::store::{
    delete_conversations, list_conversations, restore_conversation, save_conversation,
    save_conversation_at, Chat, Store,
};
use rtwo::{ClientError, Config};

fn conf() -> Config {
    Config {
        host: "localhost".to_string(),
        port: 11434,
        model: "llama3".to_string(),
        verbose: false,
        color: false,
        save: false,
    }
}

fn turn(role: &str, content: &str) -> Chat {
    Chat { role: role.to_string(), content: content.to_string() }
}

fn one_conversation() -> Vec<Chat> {
    vec![turn("user", "hello"), turn("assistant", "hi there")]
}

#[test]
fn save_then_list_surfaces_one_new_summary() {
    let mut store = Store::new();
    save_conversation_at(&mut store, 0, one_conversation(), Some("[1,2,3]".to_string()), &conf());
    let lines = list_conversations(&store).unwrap();
    assert_eq!(lines.len(), 1);
    assert_eq!(lines[0], "1970-01-01 0000: llama3@localhost:11434 -> hello [3 context len]");
}

#[test]
fn second_save_adds_exactly_one_summary_and_keeps_the_rest() {
    let mut store = Store::new();
    save_conversation_at(&mut store, 0, one_conversation(), None, &conf());
    let before = list_conversations(&store).unwrap();
    save_conversation_at(&mut store, 60_000, vec![turn("user", "again")], None, &conf());
    let after = list_conversations(&store).unwrap();
    assert_eq!(after.len(), before.len() + 1);
    assert_eq!(after[0], before[0]);
    assert_eq!(after[1], "1970-01-01 0001: llama3@localhost:11434 -> again [1 context len]");
}

#[test]
fn save_empty_conversation_is_a_no_op() {
    let mut store = Store::new();
    save_conversation(&mut store, vec![], Some("[1]".to_string()), &conf());
    assert_eq!(store.record_count(), 0);
    save_conversation_at(&mut store, 5, one_conversation(), None, &conf());
    save_conversation(&mut store, vec![], None, &conf());
    assert_eq!(store.record_count(), 1);
}

#[test]
fn empty_store_reads_all_fail_with_no_records() {
    let mut store = Store::new();
    let listed = list_conversations(&store).err().unwrap();
    let restored = restore_conversation(&store, 0).err().unwrap();
    let deleted = delete_conversations(&mut store, &vec![]).err().unwrap();
    assert_eq!(listed, ClientError::NoRecords);
    assert_eq!(restored, ClientError::NoRecords);
    assert_eq!(deleted, ClientError::NoRecords);
}

#[test]
fn restore_returns_turns_and_context_without_quotes() {
    let mut store = Store::new();
    save_conversation_at(
        &mut store,
        0,
        one_conversation(),
        Some("\"[4,5]\"".to_string()),
        &conf(),
    );
    let (ctx, turns) = restore_conversation(&store, 0).unwrap();
    assert_eq!(ctx.as_deref(), Some("[4,5]"));
    assert_eq!(turns.len(), 2);
    assert_eq!(turns[0].role, "user");
    assert_eq!(turns[0].content, "hello");
    assert_eq!(turns[1].role, "assistant");
    assert_eq!(turns[1].content, "hi there");
}

#[test]
fn missing_context_is_stored_as_empty_token() {
    let mut store = Store::new();
    save_conversation_at(&mut store, 0, one_conversation(), None, &conf());
    let (ctx, _) = restore_conversation(&store, 0).unwrap();
    assert_eq!(ctx.as_deref(), Some("[]"));
    let lines = list_conversations(&store).unwrap();
    assert!(lines[0].ends_with("[1 context len]"));
}

#[test]
fn delete_removes_selected_records_and_keeps_order() {
    let mut store = Store::new();
    save_conversation_at(&mut store, 0, vec![turn("user", "first")], None, &conf());
    save_conversation_at(&mut store, 60_000, vec![turn("user", "second")], None, &conf());
    save_conversation_at(&mut store, 120_000, vec![turn("user", "third")], None, &conf());
    delete_conversations(&mut store, &vec![1]).unwrap();
    let lines = list_conversations(&store).unwrap();
    assert_eq!(lines.len(), 2);
    assert!(lines[0].contains("first"));
    assert!(lines[1].contains("third"));
}

#[test]
fn delete_with_empty_selection_changes_nothing() {
    let mut store = Store::new();
    save_conversation_at(&mut store, 0, one_conversation(), None, &conf());
    delete_conversations(&mut store, &vec![]).unwrap();
    assert_eq!(store.record_count(), 1);
}

#[test]
fn summary_preview_is_bounded_to_32_characters() {
    let mut store = Store::new();
    let long = "abcdefghijklmnopqrstuvwxyz0123456789";
    save_conversation_at(&mut store, 0, vec![turn("user", long)], None, &conf());
    let lines = list_conversations(&store).unwrap();
    assert!(lines[0].contains("abcdefghijklmnopqrstuvwxyz012345"));
    assert!(!lines[0].contains("abcdefghijklmnopqrstuvwxyz0123456"));
}

#[test]
fn summary_timestamp_renders_the_calendar_instant() {
    let mut store = Store::new();
    save_conversation_at(&mut store, 947_638_923_004, one_conversation(), None, &conf());
    let lines = list_conversations(&store).unwrap();
    assert!(lines[0].starts_with("2000-01-12 0102: "));
}
