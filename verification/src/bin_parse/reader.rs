//! The reader: executable reading that follows the cursor step by step.

use super::cursor::{lemma_entries, lemma_entries_fault, signed, Cursor};
use super::{ParseError, ParseErrorKind};
use crate::structs::namekey::NameKey;
use crate::structs::strings::{utf8_text, IntoMessage, MessageStore, StringPool};
use crate::structs::enums::{ModDuration, SpecialAttrib};
use crate::structs::{Float32, Vec3, RGBA};
use vstd::prelude::*;
use vstd::slice::slice_subrange;

verus! {

/// A reader over the bytes of one file. Once a read fails the reader keeps
/// the fault: every later read returns at once, with a value of no
/// meaning, and the fault is reported when the reading is concluded.
#[derive(Debug)]
pub struct BinReader {
    data: Vec<u8>,
    pos: usize,
    fault: Option<ParseErrorKind>,
}

impl View for BinReader {
    type V = Cursor;

    closed spec fn view(&self) -> Cursor {
        Cursor { data: self.data@, pos: self.pos as int, fault: self.fault }
    }
}

/// The start of a record: what its length word announced, and where its
/// fields begin.
#[derive(Clone, Copy, Debug, PartialEq, Eq, Structural)]
pub struct Frame {
    /// The number of bytes that the record's fields are to take.
    pub expected_bytes: u64,
    /// The position of the first field.
    pub begin_pos: u64,
}

impl BinReader {
    #[verifier::type_invariant]
    spec fn bounded(&self) -> bool {
        &&& self.pos <= self.data@.len() + 3
        &&& self.pos + 4 <= usize::MAX
        &&& self.fault is None ==> self.data@.len() + 7 <= usize::MAX
    }

    /// A reader at the start of `data`.
    pub fn new(data: Vec<u8>) -> (reader: Self)
        ensures
            reader@ == Cursor::start(data@),
    {
        if data.len() <= usize::MAX - 7 {
            BinReader { data, pos: 0, fault: None }
        } else {
            BinReader { data, pos: 0, fault: Some(ParseErrorKind::ReadError) }
        }
    }

    /// Whether no fault has been met.
    pub fn is_ok(&self) -> (ok: bool)
        ensures
            ok == self@.ok(),
    {
        self.fault.is_none()
    }

    /// The first fault met, if any.
    pub fn fault(&self) -> (fault: Option<ParseErrorKind>)
        ensures
            fault == self@.fault,
    {
        self.fault
    }

    /// The number of bytes of the file.
    pub fn data_len(&self) -> (len: usize)
        ensures
            len == self@.data.len(),
    {
        self.data.len()
    }

    /// The position of the next byte to read.
    pub fn position(&self) -> (pos: u64)
        ensures
            pos == self@.pos,
    {
        self.pos as u64
    }

    /// Records a fault, unless one was met before.
    pub fn fail(&mut self, kind: ParseErrorKind)
        ensures
            final(self)@ == old(self)@.fail(kind),
    {
        proof {
            use_type_invariant(&*self);
        }
        if self.fault.is_none() {
            self.fault = Some(kind);
        }
    }

    fn available(&self, n: usize) -> (yes: bool)
        ensures
            yes == self@.has(n as int),
    {
        self.fault.is_none() && (n == 0 || (self.pos <= self.data.len() && n <= self.data.len()
            - self.pos))
    }

    /// Steps over `n` bytes that must be there.
    pub fn skip(&mut self, n: usize)
        ensures
            final(self)@ == old(self)@.advance(n as int),
    {
        proof {
            use_type_invariant(&*self);
        }
        if self.fault.is_some() {
            return ;
        }
        if self.available(n) {
            self.pos = self.pos + n;
        } else {
            self.fail(ParseErrorKind::ReadError);
        }
    }

    /// Steps over `n` bytes of padding, at most three, whether or not the
    /// data hold them.
    pub fn skip_padding(&mut self, n: usize)
        ensures
            final(self)@ == old(self)@.pad(n as int),
    {
        proof {
            use_type_invariant(&*self);
        }
        if self.fault.is_some() {
            return ;
        }
        if self.pos <= self.data.len() && n <= 3 {
            self.pos = self.pos + n;
        } else {
            self.fail(ParseErrorKind::ReadError);
        }
    }

    /// Reads an unsigned 32-bit number.
    pub fn read_u32(&mut self) -> (value: u32)
        ensures
            final(self)@ == old(self)@.advance(4),
            value == old(self)@.word(),
    {
        proof {
            use_type_invariant(&*self);
        }
        if self.available(4) {
            let b0 = self.data[self.pos] as u32;
            let b1 = self.data[self.pos + 1] as u32;
            let b2 = self.data[self.pos + 2] as u32;
            let b3 = self.data[self.pos + 3] as u32;
            self.pos = self.pos + 4;
            b0 + 256 * b1 + 65536 * b2 + 16777216 * b3
        } else {
            self.fail(ParseErrorKind::ReadError);
            0
        }
    }

    /// Reads an unsigned 16-bit number.
    pub fn read_u16(&mut self) -> (value: u16)
        ensures
            final(self)@ == old(self)@.advance(2),
            value == old(self)@.half(),
    {
        proof {
            use_type_invariant(&*self);
        }
        if self.available(2) {
            let b0 = self.data[self.pos] as u16;
            let b1 = self.data[self.pos + 1] as u16;
            self.pos = self.pos + 2;
            b0 + 256 * b1
        } else {
            self.fail(ParseErrorKind::ReadError);
            0
        }
    }

    /// Reads a signed 32-bit number.
    pub fn read_i32(&mut self) -> (value: i32)
        ensures
            final(self)@ == old(self)@.advance(4),
            value == old(self)@.int32(),
    {
        let word = self.read_u32();
        if word < 0x8000_0000 {
            word as i32
        } else {
            ((word - 0x8000_0000) as i32) - 0x7fff_ffff - 1
        }
    }

    /// Reads a truth value, stored as a 32-bit number.
    pub fn read_bool(&mut self) -> (value: bool)
        ensures
            final(self)@ == old(self)@.advance(4),
            value == old(self)@.flag(),
    {
        self.read_u32() != 0
    }

    /// Reads a 32-bit floating point number.
    pub fn read_float(&mut self) -> (value: Float32)
        ensures
            final(self)@ == old(self)@.advance(4),
            value == old(self)@.float32(),
    {
        Float32 { bits: self.read_u32() }
    }

    /// Reads the start of a record: its length word.
    pub fn open_frame(&mut self) -> (frame: Frame)
        ensures
            final(self)@ == old(self)@.advance(4),
            frame == old(self)@.frame(),
    {
        proof {
            use_type_invariant(&*self);
        }
        let begin_pos = self.pos as u64 + 4;
        let expected_bytes = self.read_u32() as u64;
        Frame { expected_bytes, begin_pos }
    }

    /// Checks at the end of a record that decoding it took as many bytes as
    /// its length word announced.
    pub fn close_frame(&mut self, frame: Frame)
        ensures
            final(self)@ == old(self)@.close(frame),
    {
        if self.fault.is_some() {
            return ;
        }
        let pos = self.pos as u64;
        let read_bytes = if pos >= frame.begin_pos {
            pos - frame.begin_pos
        } else {
            0
        };
        if frame.expected_bytes != read_bytes {
            self.fail(
                ParseErrorKind::SizeMismatch { expected_bytes: frame.expected_bytes, read_bytes },
            );
        }
    }

    /// Reads a name: an offset into the string pool, and the text that the
    /// pool holds there.
    pub fn read_name_key(&mut self, strings: &StringPool) -> (name: Option<NameKey>)
        ensures
            final(self)@ == old(self)@.advance(4),
            name.deep_view() == old(self)@.name(strings),
    {
        let offset = self.read_u32() as usize;
        match strings.get_string(offset) {
            Some(text) => Some(NameKey::new(text)),
            None => None,
        }
    }

    /// Reads a display text: an offset into the string pool, and the text
    /// that the pool holds there, replaced by the message that it is the
    /// key of, where it is one.
    pub fn read_pool_string(&mut self, strings: &StringPool, messages: &MessageStore) -> (text:
        Option<String>)
        ensures
            final(self)@ == old(self)@.advance(4),
            text.deep_view() == old(self)@.text(strings, messages),
    {
        let offset = self.read_u32() as usize;
        strings.get_string(offset).into_message(messages)
    }

    /// Reads a text with a two-byte length before it; returns the length
    /// with the text.
    fn read_pascal(&mut self) -> (found: (String, u16))
        ensures
            final(self)@ == old(self)@.after_pascal(),
            found.0@ == old(self)@.pascal(),
            found.1 == old(self)@.half(),
    {
        proof {
            use_type_invariant(&*self);
        }
        let len = self.read_u16();
        if !self.available(len as usize) {
            self.fail(ParseErrorKind::ReadError);
            return (String::new(), len);
        }
        let begin = self.pos;
        self.pos = self.pos + len as usize;
        match utf8_text(slice_subrange(self.data.as_slice(), begin, begin + len as usize)) {
            Some(text) => (text.to_owned(), len),
            None => {
                self.fail(ParseErrorKind::StringConversion);
                (String::new(), len)
            },
        }
    }

    /// Reads a text with a two-byte length before it.
    pub fn read_pascal_string(&mut self) -> (text: String)
        ensures
            final(self)@ == old(self)@.after_pascal(),
            text@ == old(self)@.pascal(),
    {
        self.read_pascal().0
    }

    /// Reads a text with a two-byte length before it, and steps over the
    /// padding that follows it.
    pub fn read_pascal_string_with_padding(&mut self) -> (text: String)
        ensures
            final(self)@ == old(self)@.after_padded_pascal(),
            text@ == old(self)@.pascal(),
    {
        let (text, len) = self.read_pascal();
        let padding: usize = (4 - (len as usize + 2) % 4) % 4;
        self.skip_padding(padding);
        text
    }

    /// Reads `n` bytes.
    pub fn read_bytes(&mut self, n: usize) -> (bytes: Vec<u8>)
        ensures
            final(self)@ == old(self)@.advance(n as int),
            bytes@ == old(self)@.bytes(n as int),
    {
        proof {
            use_type_invariant(&*self);
        }
        if n == 0 || !self.available(n) {
            self.skip(n);
            return Vec::new();
        }
        let begin = self.pos;
        self.pos = self.pos + n;
        vstd::slice::slice_to_vec(slice_subrange(self.data.as_slice(), begin, begin + n))
    }

    /// Reads a text with a four-byte length before it.
    pub fn read_long_text(&mut self) -> (text: String)
        ensures
            final(self)@ == old(self)@.after_long_text(),
            text@ == old(self)@.long_text(),
    {
        let len = self.read_u32() as usize;
        let bytes = self.read_bytes(len);
        if !self.is_ok() {
            return String::new();
        }
        match utf8_text(bytes.as_slice()) {
            Some(text) => text.to_owned(),
            None => {
                self.fail(ParseErrorKind::StringConversion);
                String::new()
            },
        }
    }

    /// Concludes the reading: the value where no fault was met, or else the
    /// first fault.
    pub fn finish<T>(&self, value: T) -> (result: Result<T, ParseError>)
        ensures
            match result {
                Ok(v) => self@.ok() && v == value,
                Err(e) => self@.fault == Some(e.kind()) && e.wraps_cause(),
            },
    {
        match self.fault {
            None => Ok(value),
            Some(kind) => Err(ParseError::of_fault(kind)),
        }
    }
}

/// A value that has an encoding in the record files.
pub trait BinReadable: Sized {
    /// The cursor after the value encoded at `c`.
    spec fn scan(c: Cursor, strings: &StringPool) -> Cursor;

    /// Whether `value` is what is encoded at `c`. It has a meaning only
    /// where scanning from `c` meets no fault.
    spec fn decoded(c: Cursor, strings: &StringPool, messages: &MessageStore, value: &Self) -> bool;

    /// Reads the value at the reader's position.
    fn read_value(reader: &mut BinReader, strings: &StringPool, messages: &MessageStore) -> (value:
        Self)
        ensures
            final(reader)@ == Self::scan(old(reader)@, strings),
            final(reader)@.ok() ==> Self::decoded(old(reader)@, strings, messages, &value),
    ;

    /// A fault is kept: scanning from a faulted cursor changes nothing.
    proof fn lemma_scan(c: Cursor, strings: &StringPool)
        ensures
            !c.ok() ==> Self::scan(c, strings) == c,
    ;
}

impl BinReadable for u32 {
    open spec fn scan(c: Cursor, strings: &StringPool) -> Cursor {
        c.advance(4)
    }

    open spec fn decoded(
        c: Cursor,
        strings: &StringPool,
        messages: &MessageStore,
        value: &u32,
    ) -> bool {
        *value == c.word()
    }

    fn read_value(reader: &mut BinReader, strings: &StringPool, messages: &MessageStore) -> (value:
        u32) {
        reader.read_u32()
    }

    proof fn lemma_scan(c: Cursor, strings: &StringPool) {
    }
}

impl BinReadable for i32 {
    open spec fn scan(c: Cursor, strings: &StringPool) -> Cursor {
        c.advance(4)
    }

    open spec fn decoded(
        c: Cursor,
        strings: &StringPool,
        messages: &MessageStore,
        value: &i32,
    ) -> bool {
        *value == c.int32()
    }

    fn read_value(reader: &mut BinReader, strings: &StringPool, messages: &MessageStore) -> (value:
        i32) {
        reader.read_i32()
    }

    proof fn lemma_scan(c: Cursor, strings: &StringPool) {
    }
}

impl BinReadable for bool {
    open spec fn scan(c: Cursor, strings: &StringPool) -> Cursor {
        c.advance(4)
    }

    open spec fn decoded(
        c: Cursor,
        strings: &StringPool,
        messages: &MessageStore,
        value: &bool,
    ) -> bool {
        *value == c.flag()
    }

    fn read_value(reader: &mut BinReader, strings: &StringPool, messages: &MessageStore) -> (value:
        bool) {
        reader.read_bool()
    }

    proof fn lemma_scan(c: Cursor, strings: &StringPool) {
    }
}

impl BinReadable for Float32 {
    open spec fn scan(c: Cursor, strings: &StringPool) -> Cursor {
        c.advance(4)
    }

    open spec fn decoded(
        c: Cursor,
        strings: &StringPool,
        messages: &MessageStore,
        value: &Float32,
    ) -> bool {
        *value == c.float32()
    }

    fn read_value(reader: &mut BinReader, strings: &StringPool, messages: &MessageStore) -> (value:
        Float32) {
        reader.read_float()
    }

    proof fn lemma_scan(c: Cursor, strings: &StringPool) {
    }
}

impl BinReadable for RGBA {
    open spec fn scan(c: Cursor, strings: &StringPool) -> Cursor {
        c.advance(4).advance(4).advance(4).advance(4)
    }

    open spec fn decoded(
        c: Cursor,
        strings: &StringPool,
        messages: &MessageStore,
        value: &RGBA,
    ) -> bool {
        *value == c.rgba()
    }

    fn read_value(reader: &mut BinReader, strings: &StringPool, messages: &MessageStore) -> (value:
        RGBA) {
        let r = (reader.read_u32() % 256) as u8;
        let g = (reader.read_u32() % 256) as u8;
        let b = (reader.read_u32() % 256) as u8;
        let a = (reader.read_u32() % 256) as u8;
        RGBA::new(r, g, b, a)
    }

    proof fn lemma_scan(c: Cursor, strings: &StringPool) {
    }
}

impl BinReadable for Vec3 {
    open spec fn scan(c: Cursor, strings: &StringPool) -> Cursor {
        c.advance(4).advance(4).advance(4)
    }

    open spec fn decoded(
        c: Cursor,
        strings: &StringPool,
        messages: &MessageStore,
        value: &Vec3,
    ) -> bool {
        *value == c.vec3()
    }

    fn read_value(reader: &mut BinReader, strings: &StringPool, messages: &MessageStore) -> (value:
        Vec3) {
        let x = reader.read_float();
        let y = reader.read_float();
        let z = reader.read_float();
        Vec3 { x, y, z }
    }

    proof fn lemma_scan(c: Cursor, strings: &StringPool) {
    }
}

impl BinReadable for NameKey {
    open spec fn scan(c: Cursor, strings: &StringPool) -> Cursor {
        c.after_padded_pascal()
    }

    open spec fn decoded(
        c: Cursor,
        strings: &StringPool,
        messages: &MessageStore,
        value: &NameKey,
    ) -> bool {
        value@ == c.pascal()
    }

    /// Reads a name written out in place: a text with its length before it
    /// and padding after it.
    fn read_value(reader: &mut BinReader, strings: &StringPool, messages: &MessageStore) -> (value:
        NameKey) {
        let text = reader.read_pascal_string_with_padding();
        NameKey::new(text.as_str())
    }

    proof fn lemma_scan(c: Cursor, strings: &StringPool) {
    }
}

impl BinReadable for SpecialAttrib {
    open spec fn scan(c: Cursor, strings: &StringPool) -> Cursor {
        c.advance(4)
    }

    open spec fn decoded(
        c: Cursor,
        strings: &StringPool,
        messages: &MessageStore,
        value: &SpecialAttrib,
    ) -> bool {
        *value == SpecialAttrib::of_i32(c.int32())
    }

    fn read_value(reader: &mut BinReader, strings: &StringPool, messages: &MessageStore) -> (value:
        SpecialAttrib) {
        SpecialAttrib::from_i32(reader.read_i32())
    }

    proof fn lemma_scan(c: Cursor, strings: &StringPool) {
    }
}

impl BinReadable for ModDuration {
    open spec fn scan(c: Cursor, strings: &StringPool) -> Cursor {
        c.advance(4)
    }

    open spec fn decoded(
        c: Cursor,
        strings: &StringPool,
        messages: &MessageStore,
        value: &ModDuration,
    ) -> bool {
        *value == ModDuration::of_bits(c.word())
    }

    fn read_value(reader: &mut BinReader, strings: &StringPool, messages: &MessageStore) -> (value:
        ModDuration) {
        ModDuration::from_float(reader.read_float())
    }

    proof fn lemma_scan(c: Cursor, strings: &StringPool) {
    }
}

/// An array: a 32-bit count, and that many values.
impl<T: BinReadable> BinReadable for Vec<T> {
    open spec fn scan(c: Cursor, strings: &StringPool) -> Cursor {
        scan_arr::<T>(c, strings)
    }

    open spec fn decoded(
        c: Cursor,
        strings: &StringPool,
        messages: &MessageStore,
        value: &Vec<T>,
    ) -> bool {
        decoded_arr::<T>(c, strings, messages, value@)
    }

    fn read_value(reader: &mut BinReader, strings: &StringPool, messages: &MessageStore) -> (value:
        Vec<T>) {
        bin_read_arr::<T>(reader, strings, messages)
    }

    proof fn lemma_scan(c: Cursor, strings: &StringPool) {
        lemma_scan_n_kept::<T>(c.advance(4), strings, c.word() as nat);
    }
}

/// A value that may be absent: a 32-bit number, and the value where the
/// number is not zero.
impl<T: BinReadable> BinReadable for Option<T> {
    open spec fn scan(c: Cursor, strings: &StringPool) -> Cursor {
        if c.word() > 0 {
            T::scan(c.advance(4), strings)
        } else {
            c.advance(4)
        }
    }

    open spec fn decoded(
        c: Cursor,
        strings: &StringPool,
        messages: &MessageStore,
        value: &Option<T>,
    ) -> bool {
        match value {
            Some(v) => c.word() > 0 && T::decoded(c.advance(4), strings, messages, v),
            None => c.word() == 0,
        }
    }

    fn read_value(reader: &mut BinReader, strings: &StringPool, messages: &MessageStore) -> (value:
        Option<T>) {
        if reader.read_u32() > 0 {
            Some(T::read_value(reader, strings, messages))
        } else {
            None
        }
    }

    proof fn lemma_scan(c: Cursor, strings: &StringPool) {
        T::lemma_scan(c.advance(4), strings);
    }
}

/// `value`, or `fallback` where `value` is zero.
pub open spec fn nonzero_or(value: i32, fallback: i32) -> i32 {
    if value == 0 {
        fallback
    } else {
        value
    }
}

/// A fault is kept through any number of values.
pub proof fn lemma_scan_n_kept<T: BinReadable>(c: Cursor, strings: &StringPool, n: nat)
    ensures
        !c.ok() ==> scan_n::<T>(c, strings, n) == c,
    decreases n,
{
    if n > 0 {
        lemma_scan_n_kept::<T>(c, strings, (n - 1) as nat);
    }
}

/// The cursor after `n` values of type `T` in a row, the first at `c`. It
/// stops at the first fault.
pub open spec fn scan_n<T: BinReadable>(c: Cursor, strings: &StringPool, n: nat) -> Cursor
    decreases n,
{
    if n == 0 {
        c
    } else {
        let before = scan_n::<T>(c, strings, (n - 1) as nat);
        if before.ok() {
            T::scan(before, strings)
        } else {
            before
        }
    }
}

/// Whether `values` are what is encoded in a row, the first at `c`.
pub open spec fn decoded_n<T: BinReadable>(
    c: Cursor,
    strings: &StringPool,
    messages: &MessageStore,
    values: Seq<T>,
) -> bool {
    forall|i: int|
        0 <= i < values.len() ==> T::decoded(
            #[trigger] scan_n::<T>(c, strings, i as nat),
            strings,
            messages,
            &values[i],
        )
}

/// A fault met among the first `i` values is the outcome for any greater
/// number of values.
pub proof fn lemma_scan_n_fault<T: BinReadable>(c: Cursor, strings: &StringPool, i: nat, n: nat)
    requires
        i <= n,
        !scan_n::<T>(c, strings, i).ok(),
    ensures
        scan_n::<T>(c, strings, n) == scan_n::<T>(c, strings, i),
    decreases n,
{
    if i < n {
        lemma_scan_n_fault::<T>(c, strings, i, (n - 1) as nat);
    }
}

/// The cursor after an array at `c`: a 32-bit count, and that many values
/// of type `T`.
pub open spec fn scan_arr<T: BinReadable>(c: Cursor, strings: &StringPool) -> Cursor {
    scan_n::<T>(c.advance(4), strings, c.word() as nat)
}

/// Whether `values` are the array encoded at `c`.
pub open spec fn decoded_arr<T: BinReadable>(
    c: Cursor,
    strings: &StringPool,
    messages: &MessageStore,
    values: Seq<T>,
) -> bool {
    &&& values.len() == c.word()
    &&& decoded_n::<T>(c.advance(4), strings, messages, values)
}

/// Reads `count` values in a row. Stops at the first fault.
pub fn bin_read_n<T: BinReadable>(
    reader: &mut BinReader,
    count: u32,
    strings: &StringPool,
    messages: &MessageStore,
) -> (values: Vec<T>)
    ensures
        final(reader)@ == scan_n::<T>(old(reader)@, strings, count as nat),
        final(reader)@.ok() ==> values@.len() == count && decoded_n::<T>(
            old(reader)@,
            strings,
            messages,
            values@,
        ),
{
    let ghost start = reader@;
    let mut values: Vec<T> = Vec::new();
    let mut i: u32 = 0;
    while i < count && reader.is_ok()
        invariant
            i <= count,
            reader@ == scan_n::<T>(start, strings, i as nat),
            reader@.ok() ==> values@.len() == i && decoded_n::<T>(
                start,
                strings,
                messages,
                values@,
            ),
        decreases count - i,
    {
        let value = T::read_value(reader, strings, messages);
        values.push(value);
        i = i + 1;
    }
    proof {
        if i < count {
            lemma_scan_n_fault::<T>(start, strings, i as nat, count as nat);
        }
    }
    values
}

/// Reads an array: a 32-bit count, and that many values.
pub fn bin_read_arr<T: BinReadable>(
    reader: &mut BinReader,
    strings: &StringPool,
    messages: &MessageStore,
) -> (values: Vec<T>)
    ensures
        final(reader)@ == scan_arr::<T>(old(reader)@, strings),
        final(reader)@.ok() ==> decoded_arr::<T>(old(reader)@, strings, messages, values@),
{
    let count = reader.read_u32();
    bin_read_n::<T>(reader, count, strings, messages)
}

/// Reads one value.
pub fn bin_read<T: BinReadable>(
    reader: &mut BinReader,
    strings: &StringPool,
    messages: &MessageStore,
) -> (result: Result<T, ParseError>)
    ensures
        final(reader)@ == T::scan(old(reader)@, strings),
        match result {
            Ok(value) => final(reader)@.ok() && T::decoded(
                old(reader)@,
                strings,
                messages,
                &value,
            ),
            Err(e) => final(reader)@.fault == Some(e.kind()) && e.wraps_cause(),
        },
{
    let value = T::read_value(reader, strings, messages);
    reader.finish(value)
}

/// An enumeration that the record files store as a 32-bit number. A number
/// that names no variant stands for the enumeration's fallback value:
/// reading an enumeration never fails on the number found.
pub trait WireEnum: Sized {
    /// Whether `value` names a variant.
    spec fn known(value: u32) -> bool;

    /// The value that unknown numbers stand for.
    spec fn fallback() -> Self;

    /// The variant that `value` stands for.
    spec fn of_wire(value: u32) -> Self;

    /// The variant that `value` stands for.
    fn from_wire(value: u32) -> (variant: Self)
        ensures
            variant == Self::of_wire(value),
            !Self::known(value) ==> variant == Self::fallback(),
    ;
}

/// Reads an enumeration, stored as a 32-bit number.
pub fn bin_read_enum<T: WireEnum>(reader: &mut BinReader) -> (variant: T)
    ensures
        final(reader)@ == old(reader)@.advance(4),
        variant == T::of_wire(old(reader)@.word()),
        !T::known(old(reader)@.word()) ==> variant == T::fallback(),
{
    T::from_wire(reader.read_u32())
}

/// The `n` unsigned numbers at `c`.
pub open spec fn words_n(c: Cursor, n: nat) -> Seq<u32> {
    Seq::new(n, |i: int| c.advance(4 * i).word())
}

/// The variants that the `n` numbers at `c` stand for.
pub open spec fn enums_n<T: WireEnum>(c: Cursor, n: nat) -> Seq<T> {
    Seq::new(n, |i: int| T::of_wire(c.advance(4 * i).word()))
}

/// Reads an array of enumerations: a 32-bit count, and that many numbers.
pub fn bin_read_enum_arr<T: WireEnum>(reader: &mut BinReader) -> (variants: Vec<T>)
    ensures
        final(reader)@ == old(reader)@.after_words(),
        final(reader)@.ok() ==> variants@ == enums_n::<T>(
            old(reader)@.advance(4),
            old(reader)@.word() as nat,
        ),
{
    let count = reader.read_u32();
    let ghost start = reader@;
    let mut variants: Vec<T> = Vec::new();
    let mut i: u32 = 0;
    while i < count && reader.is_ok()
        invariant
            i <= count,
            reader@ == start.after_entries(i as nat),
            reader@.ok() ==> variants@ == enums_n::<T>(start, i as nat),
        decreases count - i,
    {
        proof {
            lemma_entries(start, i as nat, i as nat);
        }
        let variant = bin_read_enum::<T>(reader);
        variants.push(variant);
        i = i + 1;
    }
    proof {
        if i < count {
            lemma_entries_fault(start, i as nat, count as nat);
        }
    }
    variants
}

/// The texts among the first `n` display texts at `c`: an entry that holds
/// no text is left out.
pub open spec fn texts_n(c: Cursor, strings: &StringPool, messages: &MessageStore, n: nat) -> Seq<
    Seq<char>,
>
    decreases n,
{
    if n == 0 {
        Seq::empty()
    } else {
        let before = texts_n(c, strings, messages, (n - 1) as nat);
        match c.advance(4 * (n - 1)).text(strings, messages) {
            Some(t) => before.push(t),
            None => before,
        }
    }
}

/// The names among the first `n` names at `c`: an entry that holds no text
/// is left out.
pub open spec fn names_n(c: Cursor, strings: &StringPool, n: nat) -> Seq<Seq<char>>
    decreases n,
{
    if n == 0 {
        Seq::empty()
    } else {
        let before = names_n(c, strings, (n - 1) as nat);
        match c.advance(4 * (n - 1)).name(strings) {
            Some(t) => before.push(t),
            None => before,
        }
    }
}

/// The index of the first of the `n` names at `c` that holds no text, or
/// `n` where each holds one.
pub open spec fn first_missing_name(c: Cursor, strings: &StringPool, n: nat) -> nat
    decreases n,
{
    if n == 0 {
        0
    } else {
        let before = first_missing_name(c, strings, (n - 1) as nat);
        if before < n - 1 {
            before
        } else if c.advance(4 * (n - 1)).name(strings) is None {
            (n - 1) as nat
        } else {
            n
        }
    }
}

impl Cursor {
    /// The cursor after an array of 32-bit entries: a count and that many
    /// entries.
    pub open spec fn after_words(self) -> Cursor {
        self.advance(4).after_entries(self.word() as nat)
    }

    /// The display texts of the array at the cursor.
    pub open spec fn texts(self, strings: &StringPool, messages: &MessageStore) -> Seq<Seq<char>> {
        texts_n(self.advance(4), strings, messages, self.word() as nat)
    }

    /// The names of the array at the cursor.
    pub open spec fn names(self, strings: &StringPool) -> Seq<Seq<char>> {
        names_n(self.advance(4), strings, self.word() as nat)
    }

    /// The cursor after a name that must hold a text: where it holds none,
    /// the name is missing.
    pub open spec fn after_required_name(self, strings: &StringPool) -> Cursor {
        if self.advance(4).ok() && self.name(strings) is None {
            self.advance(4).fail(ParseErrorKind::MissingNameKey)
        } else {
            self.advance(4)
        }
    }

    /// The cursor after an array of names of which each must hold a text.
    /// The names are read one after the other up to the first that holds
    /// no text: a read error where the data end there, or else a missing
    /// name.
    pub open spec fn after_required_names(self, strings: &StringPool) -> Cursor {
        let first = self.advance(4);
        let count = self.word() as nat;
        let missing = first_missing_name(first, strings, count);
        if missing < count {
            first.after_entries(missing + 1).fail(ParseErrorKind::MissingNameKey)
        } else {
            first.after_entries(count)
        }
    }
}

impl BinReader {
    /// Reads `count` display texts in a row; entries that hold no text are
    /// left out.
    pub fn read_pool_string_n(
        &mut self,
        count: u32,
        strings: &StringPool,
        messages: &MessageStore,
    ) -> (texts: Vec<String>)
        ensures
            final(self)@ == old(self)@.after_entries(count as nat),
            final(self)@.ok() ==> texts.deep_view() == texts_n(
                old(self)@,
                strings,
                messages,
                count as nat,
            ),
    {
        let ghost start = self@;
        let mut texts: Vec<String> = Vec::new();
        let mut i: u32 = 0;
        while i < count && self.is_ok()
            invariant
                i <= count,
                self@ == start.after_entries(i as nat),
                self@.ok() ==> texts.deep_view() == texts_n(start, strings, messages, i as nat),
            decreases count - i,
        {
            proof {
                lemma_entries(start, i as nat, i as nat);
            }
            let text = self.read_pool_string(strings, messages);
            match text {
                Some(t) => {
                    texts.push(t);
                },
                None => {},
            }
            i = i + 1;
        }
        proof {
            if i < count {
                lemma_entries_fault(start, i as nat, count as nat);
            }
        }
        texts
    }

    /// Reads an array of display texts; entries that hold no text are left
    /// out.
    pub fn read_pool_string_arr(&mut self, strings: &StringPool, messages: &MessageStore) -> (texts:
        Vec<String>)
        ensures
            final(self)@ == old(self)@.after_words(),
            final(self)@.ok() ==> texts.deep_view() == old(self)@.texts(strings, messages),
    {
        let count = self.read_u32();
        self.read_pool_string_n(count, strings, messages)
    }

    /// Reads an array of unsigned numbers: a 32-bit count, and that many
    /// numbers.
    pub fn read_u32_arr(&mut self) -> (words: Vec<u32>)
        ensures
            final(self)@ == old(self)@.after_words(),
            final(self)@.ok() ==> words@ == words_n(
                old(self)@.advance(4),
                old(self)@.word() as nat,
            ),
    {
        let count = self.read_u32();
        let ghost start = self@;
        let mut words: Vec<u32> = Vec::new();
        let mut i: u32 = 0;
        while i < count && self.is_ok()
            invariant
                i <= count,
                self@ == start.after_entries(i as nat),
                self@.ok() ==> words@ == words_n(start, i as nat),
            decreases count - i,
        {
            proof {
                lemma_entries(start, i as nat, i as nat);
            }
            let word = self.read_u32();
            words.push(word);
            i = i + 1;
        }
        proof {
            if i < count {
                lemma_entries_fault(start, i as nat, count as nat);
            }
        }
        words
    }

    /// Reads a name that must hold a text.
    pub fn read_required_name_key(&mut self, strings: &StringPool) -> (name: Option<NameKey>)
        ensures
            final(self)@ == old(self)@.after_required_name(strings),
            name.deep_view() == old(self)@.name(strings),
    {
        let name = self.read_name_key(strings);
        if name.is_none() {
            self.fail(ParseErrorKind::MissingNameKey);
        }
        name
    }

    /// Reads a signed 32-bit number, and takes `fallback` in place of zero.
    pub fn read_i32_or(&mut self, fallback: i32) -> (value: i32)
        ensures
            final(self)@ == old(self)@.advance(4),
            value == nonzero_or(old(self)@.int32(), fallback),
    {
        let value = self.read_i32();
        if value == 0 {
            fallback
        } else {
            value
        }
    }

    /// Reads an array of names; entries that hold no text are left out.
    pub fn read_name_key_arr(&mut self, strings: &StringPool) -> (names: Vec<NameKey>)
        ensures
            final(self)@ == old(self)@.after_words(),
            final(self)@.ok() ==> names.deep_view() == old(self)@.names(strings),
    {
        let count = self.read_u32();
        let ghost start = self@;
        let mut names: Vec<NameKey> = Vec::new();
        let mut i: u32 = 0;
        while i < count && self.is_ok()
            invariant
                i <= count,
                self@ == start.after_entries(i as nat),
                self@.ok() ==> names.deep_view() == names_n(start, strings, i as nat),
            decreases count - i,
        {
            proof {
                lemma_entries(start, i as nat, i as nat);
            }
            let name = self.read_name_key(strings);
            match name {
                Some(n) => {
                    names.push(n);
                },
                None => {},
            }
            i = i + 1;
        }
        proof {
            if i < count {
                lemma_entries_fault(start, i as nat, count as nat);
            }
        }
        names
    }

    /// Reads an array of names of which each must hold a text.
    pub fn read_required_name_key_arr(&mut self, strings: &StringPool) -> (names: Vec<NameKey>)
        ensures
            final(self)@ == old(self)@.after_required_names(strings),
            final(self)@.ok() ==> names.deep_view() == old(self)@.names(strings),
    {
        let count = self.read_u32();
        let ghost start = self@;
        let mut names: Vec<NameKey> = Vec::new();
        let mut i: u32 = 0;
        while i < count && self.is_ok()
            invariant
                i <= count,
                i == 0 ==> self@ == start,
                self@.ok() ==> {
                    &&& self@ == start.after_entries(i as nat)
                    &&& first_missing_name(start, strings, i as nat) == i
                    &&& names.deep_view() == names_n(start, strings, i as nat)
                },
                !self@.ok() ==> {
                    &&& first_missing_name(start, strings, i as nat) < i || i == 0
                    &&& self@ == start.after_entries(
                        first_missing_name(start, strings, i as nat) + 1,
                    ).fail(ParseErrorKind::MissingNameKey)
                },
            decreases count - i,
        {
            proof {
                lemma_entries(start, i as nat, i as nat);
            }
            let name = self.read_name_key(strings);
            match name {
                Some(n) => {
                    names.push(n);
                },
                None => {
                    self.fail(ParseErrorKind::MissingNameKey);
                },
            }
            i = i + 1;
        }
        proof {
            lemma_first_missing_stays(start, strings, i as nat, count as nat);
            if !start.ok() {
                lemma_entries_fault(start, 0, count as nat);
                lemma_entries_fault(start, 0, first_missing_name(start, strings, count as nat) + 1);
            }
        }
        names
    }
}

/// Once a name is missing among the first `i`, the first missing name is
/// the same for any greater number of names.
pub proof fn lemma_first_missing_stays(c: Cursor, strings: &StringPool, i: nat, n: nat)
    requires
        i <= n,
    ensures
        first_missing_name(c, strings, i) <= i,
        first_missing_name(c, strings, i) < i ==> first_missing_name(c, strings, n)
            == first_missing_name(c, strings, i),
        first_missing_name(c, strings, i) == i ==> first_missing_name(c, strings, n) >= i,
    decreases n,
{
    if n > 0 {
        lemma_first_missing_stays(c, strings, 0, (n - 1) as nat);
        if i < n {
            lemma_first_missing_stays(c, strings, i, (n - 1) as nat);
        } else {
            lemma_first_missing_stays(c, strings, (n - 1) as nat, (n - 1) as nat);
        }
    }
}

} // verus!
