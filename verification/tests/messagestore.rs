use powers_dict::bin_parse::messagestore::{
    open_message_store, read_message_ids, read_string_table, split_string_table, unescape,
};
use powers_dict::bin_parse::{BinReader, ParseError, ParseErrorKind};
use powers_dict::load::read_client_messages;
use powers_dict::structs::MessageStore;

fn u32_le(out: &mut Vec<u8>, value: u32) {
    out.extend_from_slice(&value.to_le_bytes());
}

fn table(count: u32, bytes: &[u8]) -> Vec<u8> {
    let mut out = Vec::new();
    u32_le(&mut out, count);
    u32_le(&mut out, bytes.len() as u32);
    out.extend_from_slice(bytes);
    out
}

fn id(key: &str, message: u32, help: u32, vars: &[u32]) -> Vec<u8> {
    let mut out = Vec::new();
    u32_le(&mut out, key.len() as u32);
    out.extend_from_slice(key.as_bytes());
    u32_le(&mut out, message);
    u32_le(&mut out, help);
    u32_le(&mut out, vars.len() as u32);
    for v in vars {
        u32_le(&mut out, *v);
    }
    out
}

fn kind<T>(result: Result<T, ParseError>) -> ParseErrorKind {
    match result {
        Ok(_) => panic!("decoding was to fail"),
        Err(e) => e.kind(),
    }
}

#[test]
fn the_signature_is_checked() {
    let mut data = Vec::new();
    u32_le(&mut data, 20090521);
    u32_le(&mut data, 5);
    let mut reader = open_message_store(data).ok().unwrap();
    assert_eq!(reader.position(), 4);
    assert_eq!(reader.read_u32(), 5);
    let mut data = Vec::new();
    u32_le(&mut data, 20090522);
    assert_eq!(kind(open_message_store(data)), ParseErrorKind::MissingCrypticSig);
    assert_eq!(kind(open_message_store(vec![1, 2, 3])), ParseErrorKind::ReadError);
}

#[test]
fn strings_are_split_at_nul_and_filtered() {
    // the no-break space of Latin-1 becomes a space; the other high bytes
    // and the control characters are dropped
    let bytes = [b'a', 0xa0, b'b', 0, 0xe9, b'c', 0x01, 0x1f, 0x80, 0xff, b'd', 0x7f, 0x20, 0, 0, b'x'];
    let texts = split_string_table(&bytes.to_vec()).unwrap();
    assert_eq!(texts, vec!["a b", "cd\u{7f} ", ""]);
    assert_eq!(split_string_table(&Vec::new()).unwrap(), Vec::<String>::new());
    assert_eq!(split_string_table(&b"no end".to_vec()).unwrap(), Vec::<String>::new());
}

#[test]
fn nbsp_entities_become_spaces() {
    assert_eq!(unescape(&b"a&nbsp;b".to_vec()), b"a b".to_vec());
    assert_eq!(unescape(&b"&nbsp;&nbsp;".to_vec()), b"  ".to_vec());
    assert_eq!(unescape(&b"&nbsp".to_vec()), b"&nbsp".to_vec());
    assert_eq!(unescape(&b"&&nbsp;;".to_vec()), b"& ;".to_vec());
    assert_eq!(unescape(&b"&nbs&nbsp;p;".to_vec()), b"&nbs p;".to_vec());
    assert_eq!(unescape(&Vec::new()), Vec::<u8>::new());
    assert_eq!(split_string_table(&b"10&nbsp;ft\0".to_vec()).unwrap(), vec!["10 ft"]);
}

#[test]
fn a_string_table_takes_its_announced_bytes() {
    let mut data = table(99, b"one\0two\0");
    u32_le(&mut data, 7);
    let mut reader = BinReader::new(data);
    assert_eq!(read_string_table(&mut reader).ok().unwrap(), vec!["one", "two"]);
    assert_eq!(reader.position(), 16);
    assert_eq!(reader.read_u32(), 7);
    let mut short = table(1, b"one\0");
    short.pop();
    let mut reader = BinReader::new(short);
    assert_eq!(kind(read_string_table(&mut reader)), ParseErrorKind::ReadError);
}

#[test]
fn message_ids_are_put_into_the_store() {
    let mut data = Vec::new();
    u32_le(&mut data, 3);
    data.extend_from_slice(&id("M1", 0, 1, &[]));
    data.extend_from_slice(&id("M2", 1, 0, &[3, 4]));
    data.extend_from_slice(&id("M1", 1, 1, &[]));
    let mut reader = BinReader::new(data);
    let mut store = MessageStore::new();
    store.messages = vec![String::from("zero"), String::from("one")];
    assert!(read_message_ids(&mut reader, &mut store).is_ok());
    assert_eq!(store.len_ids(), 2);
    // the later entry of a key counts
    assert_eq!(store.get_message("M1"), Some(&String::from("one")));
    assert_eq!(store.get_message("M2"), Some(&String::from("one")));
    assert_eq!(store.message_ids.get("M2").unwrap().vars, Some(vec![3, 4]));
    assert_eq!(store.message_ids.get("M1").unwrap().vars, None);
    assert_eq!(store.message_ids.get("M1").unwrap().help_index, 1);
    assert_eq!(store.messages.len(), 2);
}

#[test]
fn message_id_faults() {
    let mut data = Vec::new();
    u32_le(&mut data, 1);
    u32_le(&mut data, 2);
    data.extend_from_slice(&[0xc3, 0x28]);
    u32_le(&mut data, 0);
    u32_le(&mut data, 0);
    u32_le(&mut data, 0);
    let mut reader = BinReader::new(data);
    let mut store = MessageStore::new();
    assert_eq!(kind(read_message_ids(&mut reader, &mut store)), ParseErrorKind::StringConversion);
    let mut data = Vec::new();
    u32_le(&mut data, 2);
    data.extend_from_slice(&id("M1", 0, 0, &[]));
    let mut reader = BinReader::new(data);
    let mut store = MessageStore::new();
    assert_eq!(kind(read_message_ids(&mut reader, &mut store)), ParseErrorKind::ReadError);
    assert_eq!(store.len_ids(), 1);
}

fn messages_file() -> Vec<u8> {
    let mut data = Vec::new();
    u32_le(&mut data, 20090521);
    data.extend_from_slice(&table(2, b"Hello\0World\0"));
    data.extend_from_slice(&table(1, b"var\0"));
    u32_le(&mut data, 1);
    data.extend_from_slice(&id("M5", 1, 0, &[2]));
    data
}

#[test]
fn client_messages_file() {
    let store = read_client_messages(messages_file()).ok().unwrap();
    assert_eq!(store.messages, vec!["Hello", "World"]);
    assert_eq!(store.variables, vec!["var"]);
    assert_eq!(store.get_message("M5"), Some(&String::from("World")));
}

#[test]
fn client_messages_faults_tell_what_was_being_done() {
    let file = messages_file();
    let cases = [
        (2usize, "Unable to open client messages!"),
        (10, "Unable to read message string table!"),
        (23, "Unable to read message string table!"),
        (24, "Unable to read variable string table!"),
        (30, "Unable to read variable string table!"),
        (38, "Unable to read message IDs!"),
        (file.len() - 1, "Unable to read message IDs!"),
    ];
    for (len, message) in cases.iter() {
        let mut data = file.clone();
        data.truncate(*len);
        match read_client_messages(data) {
            Ok(_) => panic!("reading was to fail"),
            Err(e) => {
                assert_eq!(e.message, *message);
                assert_eq!(e.error.kind(), ParseErrorKind::ReadError);
            },
        }
    }
    let mut data = file.clone();
    data[0] = 0;
    match read_client_messages(data) {
        Ok(_) => panic!("reading was to fail"),
        Err(e) => {
            assert_eq!(e.message, "Unable to open client messages!");
            assert_eq!(e.error.kind(), ParseErrorKind::MissingCrypticSig);
        },
    }
}

#[test]
fn a_file_too_short_for_its_signature_is_a_read_error_with_its_cause() {
    let error = open_message_store(vec![1, 2, 3]).unwrap_err();
    assert_eq!(error.kind(), ParseErrorKind::ReadError);
    assert_eq!(
        error.get_io_error_ref().map(|e| e.kind()),
        Some(std::io::ErrorKind::UnexpectedEof)
    );
    let error = open_message_store(vec![1, 2, 3, 4]).unwrap_err();
    assert_eq!(error.kind(), ParseErrorKind::MissingCrypticSig);
    assert!(error.get_io_error_ref().is_none());
}
