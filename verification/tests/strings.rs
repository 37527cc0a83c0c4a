use powers_dict::structs::{IntoMessage, MessageStore, StringPool, TextMessage};

fn pool() -> StringPool {
    // offsets: 0 NUL, 1 "abc", 5 "de", 8 "" (NUL), 9 bad bytes, 12 "tail" without NUL... then NUL
    let mut bytes = vec![0u8];
    bytes.extend_from_slice(b"abc\0");
    bytes.extend_from_slice(b"de\0");
    bytes.extend_from_slice(&[0u8]);
    bytes.extend_from_slice(&[0xff, 0xfe, 0]);
    bytes.extend_from_slice("é!".as_bytes());
    bytes.push(0);
    StringPool::new(bytes)
}

#[test]
fn offset_zero_is_absent() {
    assert_eq!(pool().get_string(0), None);
    assert_eq!(StringPool::new(Vec::new()).get_string(0), None);
}

#[test]
fn valid_offset_gives_the_text_up_to_the_next_nul() {
    let strings = pool();
    assert_eq!(strings.get_string(1), Some("abc"));
    assert_eq!(strings.get_string(2), Some("bc"));
    assert_eq!(strings.get_string(5), Some("de"));
    assert_eq!(strings.get_string(4), Some(""));
    assert_eq!(strings.get_string(8), Some(""));
    assert_eq!(strings.get_string(12), Some("é!"));
}

#[test]
fn offset_past_the_end_is_absent() {
    let strings = pool();
    assert_eq!(strings.get_string(16), None);
    assert_eq!(strings.get_string(17), None);
    assert_eq!(strings.get_string(usize::MAX), None);
    assert_eq!(StringPool::new(Vec::new()).get_string(3), None);
}

#[test]
fn bytes_that_are_no_text_are_absent() {
    let strings = pool();
    assert_eq!(strings.get_string(9), None);
    // in the middle of a character
    assert_eq!(strings.get_string(13), None);
}

#[test]
fn checked_pool_must_be_framed_by_nul() {
    assert!(StringPool::checked(Vec::new()).is_some());
    assert!(StringPool::checked(vec![0]).is_some());
    assert!(StringPool::checked(vec![0, b'a', 0]).is_some());
    assert!(StringPool::checked(vec![b'a', 0]).is_none());
    assert!(StringPool::checked(vec![0, b'a']).is_none());
    assert_eq!(StringPool::checked(vec![0, b'a', 0]).unwrap().get_string(1), Some("a"));
}

fn store() -> MessageStore {
    let mut messages = MessageStore::new();
    messages.messages = vec![String::from("Hello"), String::from("Help text")];
    messages.message_ids.insert(String::from("P100"), TextMessage::new(0, 1, None));
    messages.message_ids.insert(String::from("P200"), TextMessage::new(1, 0, Some(vec![1, 2])));
    messages.message_ids.insert(String::from("P300"), TextMessage::new(2, 0, None));
    messages
}

#[test]
fn message_store_finds_messages_by_key() {
    let messages = store();
    assert_eq!(messages.len_ids(), 3);
    assert_eq!(messages.get_message("P100"), Some(&String::from("Hello")));
    assert_eq!(messages.get_message("P200"), Some(&String::from("Help text")));
    // the index lies outside the table of messages
    assert_eq!(messages.get_message("P300"), None);
    assert_eq!(messages.get_message("p100"), None);
    assert_eq!(MessageStore::new().len_ids(), 0);
}

#[test]
fn into_message_keeps_texts_that_are_no_keys() {
    let messages = store();
    assert_eq!(Some("P100").into_message(&messages), Some(String::from("Hello")));
    assert_eq!(Some("Plain").into_message(&messages), Some(String::from("Plain")));
    assert_eq!(Some("P300").into_message(&messages), Some(String::from("P300")));
    let nothing: Option<&str> = None;
    assert_eq!(nothing.into_message(&messages), None);
}

#[test]
fn text_message_holds_what_it_is_given() {
    let entry = TextMessage::new(3, 4, Some(vec![7]));
    assert_eq!(entry.message_index, 3);
    assert_eq!(entry.help_index, 4);
    assert_eq!(entry.vars, Some(vec![7]));
}
