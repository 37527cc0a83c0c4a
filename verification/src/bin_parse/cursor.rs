//! The mathematical model of reading: a position in a sequence of bytes,
//! and what each kind of field is worth there.

use super::reader::Frame;
use super::ParseErrorKind;
use crate::structs::strings::{MessageStore, StringPool};
use crate::structs::{Float32, Vec3, RGBA};
use vstd::prelude::*;
use vstd::utf8::{decode_utf8, valid_utf8};

verus! {

/// The unsigned number that four bytes encode, least significant first.
pub open spec fn word_of(b0: u8, b1: u8, b2: u8, b3: u8) -> u32 {
    (b0 as int + 256 * (b1 as int) + 65536 * (b2 as int) + 16777216 * (b3 as int)) as u32
}

/// The signed number with the same 32 bits as `word`.
pub open spec fn signed(word: u32) -> i32 {
    if word < 0x8000_0000 {
        word as i32
    } else {
        (word as int - 0x1_0000_0000) as i32
    }
}

/// The number of bytes that follow a text of `len` bytes with a two-byte
/// length before it, so that the next field starts on a multiple of four.
pub open spec fn padding_after(len: int) -> int {
    (4 - (len + 2) % 4) % 4
}

/// A place in the bytes of a file, and the fault that ended the reading,
/// if one was met. A fault is kept, and so is the place where it was met:
/// every step from a faulted cursor leads to the same cursor.
pub struct Cursor {
    /// All bytes of the file.
    pub data: Seq<u8>,
    /// The index of the next byte to read; after a fault, the place where
    /// the reading stopped.
    pub pos: int,
    /// The first fault met, if any.
    pub fault: Option<ParseErrorKind>,
}

impl Cursor {
    /// The cursor at the start of `data`. Data too long to be addressed
    /// together with a few bytes beyond their end cannot be read.
    pub open spec fn start(data: Seq<u8>) -> Cursor {
        if data.len() + 7 <= usize::MAX {
            Cursor { data, pos: 0, fault: None }
        } else {
            Cursor { data, pos: 0, fault: Some(ParseErrorKind::ReadError) }
        }
    }

    /// No fault has been met.
    pub open spec fn ok(self) -> bool {
        self.fault is None
    }

    /// `n` more bytes can be read. No bytes can be read anywhere.
    pub open spec fn has(self, n: int) -> bool {
        self.ok() && 0 <= n && (n == 0 || (0 <= self.pos && self.pos + n <= self.data.len()))
    }

    /// The cursor after meeting a fault of the given kind, unless one was
    /// met before. The position stays where it is.
    pub open spec fn fail(self, kind: ParseErrorKind) -> Cursor {
        if self.ok() {
            Cursor { fault: Some(kind), ..self }
        } else {
            self
        }
    }

    /// The cursor after reading `n` bytes; a read error where fewer are left.
    pub open spec fn advance(self, n: int) -> Cursor {
        if !self.ok() {
            self
        } else if self.has(n) {
            Cursor { pos: self.pos + n, ..self }
        } else {
            self.fail(ParseErrorKind::ReadError)
        }
    }

    /// The cursor after `n` entries of four bytes each, read one after the
    /// other: the reading stops before the first entry that is not there
    /// whole.
    pub open spec fn after_entries(self, n: nat) -> Cursor
        decreases n,
    {
        if n == 0 {
            self
        } else {
            self.after_entries((n - 1) as nat).advance(4)
        }
    }

    /// The cursor after stepping over `n` bytes of padding, which need not
    /// be there: only a later read finds out that the data ended.
    pub open spec fn pad(self, n: int) -> Cursor {
        if !self.ok() {
            self
        } else if 0 <= self.pos <= self.data.len() && 0 <= n <= 3 {
            Cursor { pos: self.pos + n, ..self }
        } else {
            self.fail(ParseErrorKind::ReadError)
        }
    }

    /// The `n` bytes at the cursor, or none where fewer are left.
    pub open spec fn bytes(self, n: int) -> Seq<u8> {
        if self.has(n) && n > 0 {
            self.data.subrange(self.pos, self.pos + n)
        } else {
            Seq::empty()
        }
    }

    /// The 32-bit unsigned number at the cursor, or zero where fewer than
    /// four bytes are left.
    pub open spec fn word(self) -> u32 {
        if self.has(4) {
            word_of(
                self.data[self.pos],
                self.data[self.pos + 1],
                self.data[self.pos + 2],
                self.data[self.pos + 3],
            )
        } else {
            0
        }
    }

    /// The 16-bit unsigned number at the cursor, or zero where fewer than
    /// two bytes are left.
    pub open spec fn half(self) -> u16 {
        if self.has(2) {
            (self.data[self.pos] as int + 256 * (self.data[self.pos + 1] as int)) as u16
        } else {
            0
        }
    }

    /// The 32-bit signed number at the cursor.
    pub open spec fn int32(self) -> i32 {
        signed(self.word())
    }

    /// The truth value at the cursor: any number but zero is true.
    pub open spec fn flag(self) -> bool {
        self.word() != 0
    }

    /// The 32-bit floating point number at the cursor, as its bits.
    pub open spec fn float32(self) -> Float32 {
        Float32 { bits: self.word() }
    }

    /// The colour at the cursor: four numbers, of each the low eight bits.
    pub open spec fn rgba(self) -> RGBA {
        RGBA {
            r: (self.word() % 256) as u8,
            g: (self.advance(4).word() % 256) as u8,
            b: (self.advance(8).word() % 256) as u8,
            a: (self.advance(12).word() % 256) as u8,
        }
    }

    /// The vector at the cursor: three floating point numbers.
    pub open spec fn vec3(self) -> Vec3 {
        Vec3 { x: self.float32(), y: self.advance(4).float32(), z: self.advance(8).float32() }
    }

    /// The name at the cursor: the text that the string pool holds at the
    /// offset found here.
    pub open spec fn name(self, strings: &StringPool) -> Option<Seq<char>> {
        strings.text_at(self.word() as int)
    }

    /// The display text at the cursor: the text that the string pool holds
    /// at the offset found here, replaced by the message that it is the
    /// key of, where it is one.
    pub open spec fn text(self, strings: &StringPool, messages: &MessageStore) -> Option<
        Seq<char>,
    > {
        messages.resolve(strings.text_at(self.word() as int))
    }

    /// The start of a record at the cursor: what its length word announces,
    /// and where its fields begin.
    pub open spec fn frame(self) -> Frame {
        Frame { expected_bytes: self.word() as u64, begin_pos: (self.pos + 4) as u64 }
    }

    /// The number of bytes read since the first field of `frame`.
    pub open spec fn taken_since(self, frame: Frame) -> int {
        if self.pos >= frame.begin_pos {
            self.pos - frame.begin_pos
        } else {
            0
        }
    }

    /// The cursor after checking, at the end of a record, that decoding it
    /// took as many bytes as its length word announced.
    pub open spec fn close(self, frame: Frame) -> Cursor {
        if !self.ok() {
            self
        } else if self.taken_since(frame) != frame.expected_bytes {
            self.fail(
                ParseErrorKind::SizeMismatch {
                    expected_bytes: frame.expected_bytes,
                    read_bytes: self.taken_since(frame) as u64,
                },
            )
        } else {
            self
        }
    }

    /// The cursor after a text with a two-byte length before it: a read
    /// error where the data end early, a conversion error where the bytes
    /// are not UTF-8.
    pub open spec fn after_pascal(self) -> Cursor {
        let body = self.advance(2);
        let end = body.advance(self.half() as int);
        if end.ok() && !valid_utf8(body.bytes(self.half() as int)) {
            end.fail(ParseErrorKind::StringConversion)
        } else {
            end
        }
    }

    /// The text with a two-byte length before it at the cursor.
    pub open spec fn pascal(self) -> Seq<char> {
        if self.after_pascal().ok() {
            decode_utf8(self.advance(2).bytes(self.half() as int))
        } else {
            Seq::empty()
        }
    }

    /// The cursor after a text with a four-byte length before it: a read
    /// error where the data end early, a conversion error where the bytes
    /// are not UTF-8.
    pub open spec fn after_long_text(self) -> Cursor {
        let body = self.advance(4);
        let end = body.advance(self.word() as int);
        if end.ok() && !valid_utf8(body.bytes(self.word() as int)) {
            end.fail(ParseErrorKind::StringConversion)
        } else {
            end
        }
    }

    /// The text with a four-byte length before it at the cursor.
    pub open spec fn long_text(self) -> Seq<char> {
        if self.after_long_text().ok() {
            decode_utf8(self.advance(4).bytes(self.word() as int))
        } else {
            Seq::empty()
        }
    }

    /// The cursor after a text with a two-byte length before it and the
    /// padding that follows it.
    pub open spec fn after_padded_pascal(self) -> Cursor {
        self.after_pascal().pad(padding_after(self.half() as int))
    }
}

/// Where `n` entries are there, each of the first `n` stands four bytes
/// after the one before it.
pub proof fn lemma_entries(c: Cursor, i: nat, n: nat)
    requires
        i <= n,
        c.after_entries(n).ok(),
    ensures
        c.after_entries(i) == c.advance(4 * (i as int)),
        c.after_entries(i).ok(),
        i < n ==> c.advance(4 * (i as int)).has(4),
    decreases n,
{
    if n > 0 {
        lemma_entries(c, (n - 1) as nat, (n - 1) as nat);
        if i < n {
            lemma_entries(c, i, (n - 1) as nat);
        }
    }
}

/// A fault met among the first `i` entries is the outcome for any greater
/// number of entries.
pub proof fn lemma_entries_fault(c: Cursor, i: nat, n: nat)
    requires
        i <= n,
        !c.after_entries(i).ok(),
    ensures
        c.after_entries(n) == c.after_entries(i),
    decreases n,
{
    if i < n {
        lemma_entries_fault(c, i, (n - 1) as nat);
    }
}

/// A record whose fields take exactly the number of bytes that its length
/// word announces passes the check at its end. One whose fields take any
/// other number of bytes, be it one byte more or one less, fails it with a
/// size mismatch that tells both numbers. Either way the cursor stays
/// where the fields ended.
pub proof fn lemma_frame_check(opened: Cursor, end: Cursor)
    requires
        opened.has(4),
        end.ok(),
        opened.pos + 4 <= end.pos <= u64::MAX,
    ensures
        end.close(opened.frame()).pos == end.pos,
        end.pos - (opened.pos + 4) == opened.word() ==> end.close(opened.frame()) == end,
        end.pos - (opened.pos + 4) != opened.word() ==> end.close(opened.frame()).fault == Some(
            ParseErrorKind::SizeMismatch {
                expected_bytes: opened.word() as u64,
                read_bytes: (end.pos - (opened.pos + 4)) as u64,
            },
        ),
{
}

} // verus!
