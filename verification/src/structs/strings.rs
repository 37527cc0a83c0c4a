//! String pools and the store of localized messages.

use vstd::hash_map::StringHashMap;
use vstd::prelude::*;
use vstd::slice::slice_subrange;
use vstd::utf8::{decode_utf8, valid_utf8};

verus! {

/// One entry of a message store: where the text of a message and of its
/// help are found in the table of messages, and the typed slots of the
/// message's arguments.
#[derive(Debug)]
pub struct TextMessage {
    /// The index of the message in `MessageStore::messages`.
    pub message_index: usize,
    /// The index of the help text in `MessageStore::messages`.
    pub help_index: usize,
    /// The variables used in the message, if it has any.
    pub vars: Option<Vec<u32>>,
}

impl TextMessage {
    /// Creates a new `TextMessage`.
    pub fn new(message_index: usize, help_index: usize, vars: Option<Vec<u32>>) -> (entry: Self)
        ensures
            entry.message_index == message_index,
            entry.help_index == help_index,
            entry.vars == vars,
    {
        TextMessage { message_index, help_index, vars }
    }
}

/// A store of client messages: maps the keys found in the data files to
/// readable text.
pub struct MessageStore {
    /// The table of message texts.
    pub messages: Vec<String>,
    /// The table of variable names and types.
    pub variables: Vec<String>,
    /// The message keys, each with the place of its text.
    pub message_ids: StringHashMap<TextMessage>,
}

impl MessageStore {
    /// The text that the store holds for `key`, if it holds one: the key is
    /// known and its message index lies within the table of messages.
    pub open spec fn message(&self, key: Seq<char>) -> Option<Seq<char>> {
        if self.message_ids@.contains_key(key) && self.message_ids@[key].message_index
            < self.messages@.len() {
            Some(self.messages@[self.message_ids@[key].message_index as int]@)
        } else {
            None
        }
    }

    /// What a text read from a data file stands for: the message it is the
    /// key of, or else the text itself.
    pub open spec fn resolve(&self, text: Option<Seq<char>>) -> Option<Seq<char>> {
        match text {
            Some(t) => match self.message(t) {
                Some(m) => Some(m),
                None => Some(t),
            },
            None => None,
        }
    }

    /// Creates an empty `MessageStore`.
    pub fn new() -> (store: Self)
        ensures
            store.messages@.len() == 0,
            store.variables@.len() == 0,
            store.message_ids@ == Map::<Seq<char>, TextMessage>::empty(),
    {
        MessageStore {
            messages: Vec::new(),
            variables: Vec::new(),
            message_ids: StringHashMap::new(),
        }
    }

    /// Gets the message identified by `key`, such as "P1260685325".
    pub fn get_message(&self, key: &str) -> (text: Option<&String>)
        ensures
            text.deep_view() == self.message(key@),
    {
        match self.message_ids.get(key) {
            Some(entry) => {
                if entry.message_index < self.messages.len() {
                    Some(&self.messages[entry.message_index])
                } else {
                    None
                }
            },
            None => None,
        }
    }

    /// Gets the number of message keys in the store.
    pub fn len_ids(&self) -> (count: usize)
        ensures
            count == self.message_ids@.len(),
    {
        self.message_ids.len()
    }
}

/// Describes a value that can be turned into a message from a `MessageStore`.
pub trait IntoMessage {
    /// The text that the value stands for, if any.
    spec fn as_text(&self) -> Option<Seq<char>>;

    /// Convert the value into a message from `message_store`: the message
    /// that the value is the key of, or else the value's own text.
    fn into_message(&self, message_store: &MessageStore) -> (text: Option<String>)
        ensures
            text.deep_view() == message_store.resolve(self.as_text()),
    ;
}

impl IntoMessage for Option<&str> {
    open spec fn as_text(&self) -> Option<Seq<char>> {
        match self {
            Some(s) => Some(s@),
            None => None,
        }
    }

    fn into_message(&self, message_store: &MessageStore) -> (text: Option<String>) {
        match self {
            Some(s) => {
                let found = message_store.get_message(s);
                assert(self.as_text() == Some(s@));
                match found {
                    Some(m) => Some(m.clone()),
                    None => Some((*s).to_owned()),
                }
            },
            None => None,
        }
    }
}

/// The index of the first NUL byte of `bytes` at or after `from`, or the
/// length of `bytes` where there is none.
pub open spec fn next_nul(bytes: Seq<u8>, from: int) -> int
    decreases bytes.len() - from,
{
    if from < 0 || from >= bytes.len() {
        bytes.len() as int
    } else if bytes[from] == 0 {
        from
    } else {
        next_nul(bytes, from + 1)
    }
}

/// The text that a pool of NUL-terminated strings holds at `offset`.
/// Offset zero and offsets outside the pool hold nothing; so does an offset
/// after which no NUL follows, or whose bytes up to the NUL are not UTF-8.
pub open spec fn pool_text(pool: Seq<u8>, offset: int) -> Option<Seq<char>> {
    if 0 < offset < pool.len() {
        let end = next_nul(pool, offset);
        if end < pool.len() && valid_utf8(pool.subrange(offset, end)) {
            Some(decode_utf8(pool.subrange(offset, end)))
        } else {
            None
        }
    } else {
        None
    }
}

/// Whether a pool is empty or begins and ends with a NUL byte.
pub open spec fn nul_framed(pool: Seq<u8>) -> bool {
    pool.len() == 0 || (pool[0] == 0 && pool[pool.len() - 1] == 0)
}

/// `core::str::from_utf8` of std: the text that `bytes` encode, where they
/// are valid UTF-8, and nothing where they are not.
#[verifier::external_body]
pub(crate) fn utf8_text(bytes: &[u8]) -> (text: Option<&str>)
    ensures
        match text {
            Some(t) => valid_utf8(bytes@) && t@ == decode_utf8(bytes@),
            None => !valid_utf8(bytes@),
        },
{
    core::str::from_utf8(bytes).ok()
}

/// A pool of strings from a data file: a series of NUL-terminated strings
/// that record fields refer to by byte offset.
#[derive(Debug)]
pub struct StringPool(Vec<u8>);

impl View for StringPool {
    type V = Seq<u8>;

    closed spec fn view(&self) -> Seq<u8> {
        self.0@
    }
}

impl StringPool {
    /// Creates a string pool from the bytes in `pool`, which is empty or
    /// begins and ends with a NUL byte.
    pub fn new(pool: Vec<u8>) -> (strings: Self)
        requires
            nul_framed(pool@),
        ensures
            strings@ == pool@,
    {
        StringPool(pool)
    }

    /// Creates a string pool from the bytes in `pool` where they are empty
    /// or begin and end with a NUL byte.
    pub fn checked(pool: Vec<u8>) -> (strings: Option<Self>)
        ensures
            match strings {
                Some(s) => nul_framed(pool@) && s@ == pool@,
                None => !nul_framed(pool@),
            },
    {
        let n = pool.len();
        if n == 0 || (pool[0] == 0u8 && pool[n - 1] == 0u8) {
            Some(StringPool(pool))
        } else {
            None
        }
    }

    /// The text that the pool holds at `offset`.
    pub open spec fn text_at(&self, offset: int) -> Option<Seq<char>> {
        pool_text(self@, offset)
    }

    /// Gets the string at `offset` in the pool, by reading until the next
    /// NUL terminator. Returns `None` for offset zero, for an offset outside
    /// the pool, and where the bytes are not valid UTF-8.
    pub fn get_string(&self, offset: usize) -> (text: Option<&str>)
        ensures
            text.deep_view() == self.text_at(offset as int),
            offset == 0 || offset >= self@.len() ==> text is None,
    {
        let n = self.0.len();
        if offset > 0 && offset < n {
            let mut end = offset;
            while end < n && self.0[end] != 0u8
                invariant
                    offset <= end <= n,
                    n == self.0@.len(),
                    next_nul(self.0@, offset as int) == next_nul(self.0@, end as int),
                decreases n - end,
            {
                end = end + 1;
            }
            if end < n {
                utf8_text(slice_subrange(self.0.as_slice(), offset, end))
            } else {
                None
            }
        } else {
            None
        }
    }
}

} // verus!
