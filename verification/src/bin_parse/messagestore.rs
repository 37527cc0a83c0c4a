//! The decoder of the file of client messages: a signature, the table of
//! messages, the table of variables, and the table of message keys.

use super::cursor::Cursor;
use super::reader::{words_n, BinReader};
use super::{ParseError, ParseErrorKind, ParseResult};
use crate::structs::strings::{utf8_text, MessageStore, TextMessage};
use vstd::prelude::*;
use vstd::utf8::{decode_utf8, valid_utf8};

verus! {

/// The number with which the file of client messages begins.
pub const MS_BIN_VER: u32 = 20090521;

/// Opens the bytes of a file of client messages and checks its signature.
/// The reader that is returned stands behind the signature.
pub fn open_message_store(data: Vec<u8>) -> (result: ParseResult<BinReader>)
    ensures
        match result {
            Ok(reader) => Cursor::start(data@).has(4) && Cursor::start(data@).word() == MS_BIN_VER
                && reader@ == Cursor::start(data@).advance(4),
            Err(e) => if Cursor::start(data@).has(4) {
                Cursor::start(data@).word() != MS_BIN_VER && e.kind()
                    == ParseErrorKind::MissingCrypticSig && e.io_error() is None
            } else {
                e.kind() == ParseErrorKind::ReadError && e.io_error() is Some
            },
        },
{
    let mut reader = BinReader::new(data);
    let sig = reader.read_u32();
    if reader.is_ok() && sig != MS_BIN_VER {
        reader.fail(ParseErrorKind::MissingCrypticSig);
    }
    match reader.fault() {
        None => Ok(reader),
        Some(kind) => Err(ParseError::of_fault(kind)),
    }
}

/// The bytes of `&nbsp;`, which a table of strings may hold for a space.
pub open spec fn nbsp() -> Seq<u8> {
    seq![0x26u8, 0x6eu8, 0x62u8, 0x73u8, 0x70u8, 0x3bu8]
}

/// Whether `text` holds `&nbsp;` at index `at`.
pub open spec fn nbsp_at(text: Seq<u8>, at: int) -> bool {
    0 <= at && at + 6 <= text.len() && text.subrange(at, at + 6) == nbsp()
}

/// The text with every `&nbsp;` replaced by a space, from the left.
pub open spec fn unescaped(text: Seq<u8>) -> Seq<u8>
    decreases text.len(),
{
    if text.len() == 0 {
        text
    } else if nbsp_at(text, 0) {
        seq![0x20u8] + unescaped(text.skip(6))
    } else {
        seq![text[0]] + unescaped(text.skip(1))
    }
}

/// What becomes of a byte of a table of strings that is not NUL: the
/// no-break space of Latin-1 becomes a space, the other bytes from 0x80 up
/// and the control characters below 0x20 are dropped, and the rest stay.
pub open spec fn kept_byte(b: u8) -> Option<u8> {
    if b == 0xa0 {
        Some(0x20u8)
    } else if b >= 0x80 || b < 0x20 {
        None
    } else {
        Some(b)
    }
}

/// The strings that the first `n` bytes of a table complete, and the
/// bytes of the string that is begun after them. A NUL byte ends a string.
pub open spec fn split_table(bytes: Seq<u8>, n: nat) -> (Seq<Seq<u8>>, Seq<u8>)
    decreases n,
{
    if n == 0 || n > bytes.len() {
        (Seq::empty(), Seq::empty())
    } else {
        let (done, begun) = split_table(bytes, (n - 1) as nat);
        if bytes[n - 1] == 0 {
            (done.push(begun), Seq::empty())
        } else {
            match kept_byte(bytes[n - 1]) {
                Some(b) => (done, begun.push(b)),
                None => (done, begun),
            }
        }
    }
}

/// Whether each of `strings`, with `&nbsp;` replaced, is valid UTF-8.
pub open spec fn all_text(strings: Seq<Seq<u8>>) -> bool {
    forall|i: int| 0 <= i < strings.len() ==> valid_utf8(unescaped(#[trigger] strings[i]))
}

/// The texts of `strings`, with `&nbsp;` replaced.
pub open spec fn texts_of(strings: Seq<Seq<u8>>) -> Seq<Seq<char>> {
    Seq::new(strings.len(), |i: int| decode_utf8(unescaped(strings[i])))
}

/// The strings of a table of `bytes`: what is begun after the last NUL is
/// not a string.
pub open spec fn table_strings(bytes: Seq<u8>) -> Seq<Seq<u8>> {
    split_table(bytes, bytes.len()).0
}

/// Replaces every `&nbsp;` in `text` by a space.
pub fn unescape(text: &Vec<u8>) -> (plain: Vec<u8>)
    ensures
        plain@ == unescaped(text@),
{
    let n = text.len();
    let mut plain: Vec<u8> = Vec::new();
    let mut i: usize = 0;
    assert(text@.skip(0) =~= text@);
    while i < n
        invariant
            i <= n,
            n == text@.len(),
            unescaped(text@) == plain@ + unescaped(text@.skip(i as int)),
        decreases n - i,
    {
        let ghost rest = text@.skip(i as int);
        let found = n - i >= 6 && text[i] == 0x26u8 && text[i + 1] == 0x6eu8 && text[i + 2]
            == 0x62u8 && text[i + 3] == 0x73u8 && text[i + 4] == 0x70u8 && text[i + 5] == 0x3bu8;
        proof {
            if found {
                assert(rest.subrange(0, 6) =~= nbsp());
            }
        }
        if found {
            plain.push(0x20u8);
            i = i + 6;
            proof {
                assert(rest.skip(6) =~= text@.skip(i as int));
            }
        } else {
            plain.push(text[i]);
            i = i + 1;
            proof {
                assert(rest.skip(1) =~= text@.skip(i as int));
            }
        }
    }
    plain
}

/// Splits the bytes of a table of strings into its texts. Returns nothing
/// where one of the strings is not valid UTF-8.
pub fn split_string_table(bytes: &Vec<u8>) -> (texts: Option<Vec<String>>)
    ensures
        match texts {
            Some(t) => all_text(table_strings(bytes@)) && t.deep_view() == texts_of(
                table_strings(bytes@),
            ),
            None => !all_text(table_strings(bytes@)),
        },
{
    let n = bytes.len();
    let mut texts: Vec<String> = Vec::new();
    let mut begun: Vec<u8> = Vec::new();
    let mut i: usize = 0;
    while i < n
        invariant
            i <= n,
            n == bytes@.len(),
            begun@ == split_table(bytes@, i as nat).1,
            all_text(split_table(bytes@, i as nat).0),
            texts.deep_view() == texts_of(split_table(bytes@, i as nat).0),
        decreases n - i,
    {
        let b = bytes[i];
        let ghost done = split_table(bytes@, i as nat).0;
        let ghost before = texts.deep_view();
        if b == 0 {
            let plain = unescape(&begun);
            match utf8_text(plain.as_slice()) {
                Some(text) => {
                    let ghost decoded = text@;
                    texts.push(text.to_owned());
                    proof {
                        assert(texts.deep_view() =~= before.push(decoded));
                    }
                },
                None => {
                    proof {
                        let bad = done.push(begun@);
                        assert(bad[done.len() as int] == begun@);
                        lemma_split_table_grows(bytes@, (i + 1) as nat, n as nat);
                    }
                    return None;
                },
            }
            begun = Vec::new();
        } else if b == 0xa0 {
            begun.push(0x20u8);
        } else if 0x20 <= b && b < 0x80 {
            begun.push(b);
        }
        i = i + 1;
    }
    Some(texts)
}

/// The strings that the first `i` bytes of a table complete are the first
/// of the strings that more of its bytes complete.
pub proof fn lemma_split_table_grows(bytes: Seq<u8>, i: nat, n: nat)
    requires
        i <= n <= bytes.len(),
    ensures
        split_table(bytes, i).0.len() <= split_table(bytes, n).0.len(),
        forall|k: int|
            0 <= k < split_table(bytes, i).0.len() ==> split_table(bytes, n).0[k] == split_table(
                bytes,
                i,
            ).0[k],
    decreases n,
{
    if i < n {
        lemma_split_table_grows(bytes, i, (n - 1) as nat);
    }
}

/// The cursor after a table of strings at `c`: the number of its strings,
/// which is not looked at; then a record of nothing but the bytes of the
/// strings, which takes as many bytes as its length word announces
/// whatever they are. A string that is not valid UTF-8 is a conversion
/// error.
pub open spec fn after_string_table(c: Cursor) -> Cursor {
    let opened = c.advance(4);
    let end = opened.advance(4).advance(opened.word() as int);
    if end.ok() && !all_text(table_strings(opened.advance(4).bytes(opened.word() as int))) {
        end.fail(ParseErrorKind::StringConversion)
    } else {
        end
    }
}

/// Reads a table of strings of the file of client messages.
pub fn read_string_table(reader: &mut BinReader) -> (result: ParseResult<Vec<String>>)
    ensures
        final(reader)@ == after_string_table(old(reader)@),
        match result {
            Ok(texts) => final(reader)@.ok() && texts.deep_view() == texts_of(
                table_strings(
                    old(reader)@.advance(4).advance(4).bytes(
                        old(reader)@.advance(4).word() as int,
                    ),
                ),
            ),
            Err(e) => final(reader)@.fault == Some(e.kind()) && e.wraps_cause(),
        },
{
    reader.read_u32();
    let frame = reader.open_frame();
    let bytes = reader.read_bytes(frame.expected_bytes as usize);
    if !reader.is_ok() {
        return reader.finish(Vec::new());
    }
    match split_string_table(&bytes) {
        Some(texts) => reader.finish(texts),
        None => {
            reader.fail(ParseErrorKind::StringConversion);
            reader.finish(Vec::new())
        },
    }
}

/// One entry of the table of message keys: the key and what it leads to.
pub struct MessageId {
    /// The key of the message.
    pub key: String,
    /// Where the text of the message and of its help are found.
    pub message: TextMessage,
}

/// The cursor after the entry of the table of message keys at `c`: the
/// key, a text with its length before it; the index of the message and
/// that of its help; and the variables, an array of numbers.
pub open spec fn after_message_id(c: Cursor) -> Cursor {
    c.after_long_text().advance(4).advance(4).after_words()
}

/// Whether `value` is the entry encoded at `c`. The variables are absent
/// where their array is empty.
pub open spec fn is_message_id(c: Cursor, value: &MessageId) -> bool {
    let p1 = c.after_long_text();
    let p2 = p1.advance(4);
    let p3 = p2.advance(4);
    &&& value.key@ == c.long_text()
    &&& value.message.message_index == p1.word()
    &&& value.message.help_index == p2.word()
    &&& match value.message.vars {
        Some(vars) => p3.word() > 0 && vars@ == words_n(p3.advance(4), p3.word() as nat),
        None => p3.word() == 0,
    }
}

/// Reads an entry of the table of message keys.
pub fn read_message_id(reader: &mut BinReader) -> (value: MessageId)
    ensures
        final(reader)@ == after_message_id(old(reader)@),
        final(reader)@.ok() ==> is_message_id(old(reader)@, &value),
{
    let key = reader.read_long_text();
    let message_index = reader.read_u32() as usize;
    let help_index = reader.read_u32() as usize;
    let found = reader.read_u32_arr();
    let vars = if found.len() > 0 {
        Some(found)
    } else {
        None
    };
    MessageId { key, message: TextMessage::new(message_index, help_index, vars) }
}

/// The cursor after `n` entries in a row, the first at `c`. It stops at
/// the first fault.
pub open spec fn after_message_ids(c: Cursor, n: nat) -> Cursor
    decreases n,
{
    if n == 0 {
        c
    } else {
        let before = after_message_ids(c, (n - 1) as nat);
        if before.ok() {
            after_message_id(before)
        } else {
            before
        }
    }
}

/// A fault met among the first `i` entries is the outcome for any greater
/// number of entries.
pub proof fn lemma_message_ids_fault(c: Cursor, i: nat, n: nat)
    requires
        i <= n,
        !after_message_ids(c, i).ok(),
    ensures
        after_message_ids(c, n) == after_message_ids(c, i),
    decreases n,
{
    if i < n {
        lemma_message_ids_fault(c, i, (n - 1) as nat);
    }
}

/// Whether `entries` are what is encoded in a row, the first at `c`.
pub open spec fn are_message_ids(c: Cursor, entries: Seq<MessageId>) -> bool {
    forall|i: int|
        0 <= i < entries.len() ==> is_message_id(
            #[trigger] after_message_ids(c, i as nat),
            &entries[i],
        )
}

/// The table of message keys after the first `n` of `entries` were put
/// into `ids`, in their order.
pub open spec fn ids_after(
    ids: Map<Seq<char>, TextMessage>,
    entries: Seq<MessageId>,
    n: nat,
) -> Map<Seq<char>, TextMessage>
    decreases n,
{
    if n == 0 || n > entries.len() {
        ids
    } else {
        ids_after(ids, entries, (n - 1) as nat).insert(entries[n - 1].key@, entries[n - 1].message)
    }
}

/// The table of message keys does not depend on the entries that follow
/// the first `n`.
pub proof fn lemma_ids_prefix(
    ids: Map<Seq<char>, TextMessage>,
    short: Seq<MessageId>,
    long: Seq<MessageId>,
    n: nat,
)
    requires
        n <= short.len() <= long.len(),
        forall|i: int| 0 <= i < short.len() ==> short[i] == long[i],
    ensures
        ids_after(ids, short, n) == ids_after(ids, long, n),
    decreases n,
{
    if n > 0 {
        lemma_ids_prefix(ids, short, long, (n - 1) as nat);
    }
}

/// Reads the table of message keys into `store`: a count, and that many
/// entries. The tables of messages and of variables stay as they are.
/// After a fault the store holds the entries that were read before it.
pub fn read_message_ids(reader: &mut BinReader, store: &mut MessageStore) -> (result: ParseResult<
    (),
>)
    ensures
        final(reader)@ == after_message_ids(old(reader)@.advance(4), old(reader)@.word() as nat),
        final(store).messages == old(store).messages,
        final(store).variables == old(store).variables,
        match result {
            Ok(_) => final(reader)@.ok() && exists|entries: Seq<MessageId>|
                entries.len() == old(reader)@.word() && are_message_ids(
                    old(reader)@.advance(4),
                    entries,
                ) && final(store).message_ids@ == ids_after(
                    old(store).message_ids@,
                    entries,
                    entries.len(),
                ),
            Err(e) => final(reader)@.fault == Some(e.kind()) && e.wraps_cause(),
        },
{
    let count = reader.read_u32();
    let ghost first = reader@;
    let ghost before = *store;
    let ghost mut entries: Seq<MessageId> = Seq::empty();
    let mut i: u32 = 0;
    while i < count && reader.is_ok()
        invariant
            i <= count,
            store.messages == before.messages,
            store.variables == before.variables,
            reader@ == after_message_ids(first, i as nat),
            reader@.ok() ==> entries.len() == i && are_message_ids(first, entries)
                && store.message_ids@ == ids_after(before.message_ids@, entries, i as nat),
        decreases count - i,
    {
        let ghost sofar = entries;
        let entry = read_message_id(reader);
        proof {
            entries = entries.push(entry);
            if reader@.ok() {
                lemma_ids_prefix(before.message_ids@, sofar, entries, i as nat);
            }
        }
        if reader.is_ok() {
            store.message_ids.insert(entry.key, entry.message);
        }
        i = i + 1;
    }
    proof {
        if i < count {
            lemma_message_ids_fault(first, i as nat, count as nat);
        }
    }
    reader.finish(())
}

} // verus!
