//! The codec of the record files: framing, scalars, strings, and one
//! decoder for each kind of record.

pub mod archetypes;
pub mod attribs;
pub mod boost_sets;
pub mod cursor;
pub mod messagestore;
pub mod params;
pub mod powercats;
pub mod powers;
pub mod powersets;
pub mod reader;
pub mod villains;

pub use cursor::{signed, word_of, Cursor};
pub use reader::{BinReadable, BinReader, Frame, WireEnum};

use crate::structs::keyed::{position_in, Keyed, Listing};
use crate::structs::namekey::{fold, NameKey};
use crate::structs::strings::{MessageStore, StringPool};
use crate::structs::strings::nul_framed;
use reader::decoded_arr;
use vstd::string::StringExecFns;
use vstd::prelude::*;

verus! {

/// The kind of error reported by `ParseError`.
#[derive(Clone, Copy, Debug, PartialEq, Eq, Structural)]
pub enum ParseErrorKind {
    /// The data ended, or could not be read, before a value was complete.
    ReadError,
    /// Bytes that should be a text are not valid UTF-8.
    StringConversion,
    /// The signature at the start of the data is missing: this is not one
    /// of the record files.
    MissingCrypticSig,
    /// The data do not hold the expected file type.
    WrongFileType,
    /// A record announced `expected_bytes` bytes, and decoding its fields
    /// took `read_bytes` bytes.
    SizeMismatch { expected_bytes: u64, read_bytes: u64 },
    /// A record that must have a name has none.
    MissingNameKey,
    /// A parameter block announces a layout that is not known.
    UnknownParameterBlock { struct_id: u32 },
}

/// An error that occurred while decoding a record file.
#[derive(Debug)]
pub struct ParseError {
    /// The kind of error that occured.
    kind: ParseErrorKind,
    /// The error of the operating system that caused a `ReadError`, where
    /// there is one.
    io_error: Option<std::io::Error>,
}

/// `std::io::Error` of std: the error of the operating system, carried
/// through as it came. Nothing is stated of what it holds.
#[verifier::external_type_specification]
#[verifier::external_body]
pub struct ExIoError(std::io::Error);

/// `std::io::Error::from` of std, for `std::io::ErrorKind::UnexpectedEof`:
/// the error of a read that met the end of the data. Nothing is stated of
/// what it holds.
#[verifier::external_body]
fn unexpected_eof() -> (error: std::io::Error) {
    std::io::Error::from(std::io::ErrorKind::UnexpectedEof)
}

impl ParseError {
    /// Whether the error carries an error of the operating system exactly
    /// when it is a read error.
    pub open spec fn wraps_cause(&self) -> bool {
        self.io_error() is Some <==> self.kind() == ParseErrorKind::ReadError
    }

    /// Creates the error for a fault met while decoding. A read error
    /// carries the error of a read that met the end of the data; an error
    /// of any other kind carries none.
    pub fn of_fault(kind: ParseErrorKind) -> (error: Self)
        ensures
            error.kind() == kind,
            error.wraps_cause(),
    {
        match kind {
            ParseErrorKind::ReadError => ParseError::from_io_error(unexpected_eof()),
            _ => ParseError::new(kind),
        }
    }

    /// Creates a new `ParseError` of the given `kind`.
    pub fn new(kind: ParseErrorKind) -> (error: Self)
        ensures
            error.kind() == kind,
            error.io_error() is None,
    {
        ParseError { kind, io_error: None }
    }

    /// Creates a `ParseError` for a failed read from the error that caused it.
    pub fn from_io_error(error: std::io::Error) -> (parse_error: Self)
        ensures
            parse_error.kind() == ParseErrorKind::ReadError,
            parse_error.io_error() == Some(error),
    {
        ParseError { kind: ParseErrorKind::ReadError, io_error: Some(error) }
    }

    /// The error of the operating system that this error was made from.
    pub closed spec fn io_error(&self) -> Option<std::io::Error> {
        self.io_error
    }

    /// If this error was made from an error of the operating system,
    /// returns that error.
    pub fn get_io_error_ref(&self) -> (error: Option<&std::io::Error>)
        ensures
            match error {
                Some(e) => self.io_error() == Some(*e),
                None => self.io_error() is None,
            },
    {
        self.io_error.as_ref()
    }

    /// Gets the kind of error that occurred.
    #[verifier::when_used_as_spec(spec_kind)]
    pub fn kind(&self) -> (kind: ParseErrorKind)
        ensures
            kind == self.spec_kind(),
    {
        self.kind
    }

    /// The kind of error that occurred.
    pub closed spec fn spec_kind(&self) -> ParseErrorKind {
        self.kind
    }
}

/// Turns an error of the operating system into a `ParseError`.
pub fn to_pe(err: std::io::Error) -> (error: ParseError)
    ensures
        error.kind() == ParseErrorKind::ReadError,
        error.io_error() == Some(err),
{
    ParseError::from_io_error(err)
}

/// The result of decoding.
pub type ParseResult<T> = Result<T, ParseError>;

/// The eight bytes with which every record file begins: `CrypticS`.
pub open spec fn cryptic_signature() -> Seq<u8> {
    seq![0x43u8, 0x72u8, 0x79u8, 0x70u8, 0x74u8, 0x69u8, 0x63u8, 0x53u8]
}

/// Whether two lists hold the same bytes.
pub fn same_bytes(a: &Vec<u8>, b: &Vec<u8>) -> (same: bool)
    ensures
        same == (a@ == b@),
{
    if a.len() != b.len() {
        return false;
    }
    let mut i: usize = 0;
    while i < a.len()
        invariant
            i <= a.len(),
            a.len() == b.len(),
            a@.take(i as int) == b@.take(i as int),
        decreases a.len() - i,
    {
        if a[i] != b[i] {
            return false;
        }
        i = i + 1;
    }
    assert(a@ =~= a@.take(a.len() as int));
    assert(b@ =~= b@.take(b.len() as int));
    true
}

/// The cursor after the header of a record file at `c`: the signature, a
/// number that tells the build and is not looked at, and the file type, a
/// text with its length before it that must be `Parse7`.
pub open spec fn after_header(c: Cursor) -> Cursor {
    let signed = if c.advance(8).ok() && c.bytes(8) != cryptic_signature() {
        c.advance(8).fail(ParseErrorKind::MissingCrypticSig)
    } else {
        c.advance(8)
    };
    let build = signed.advance(4);
    if build.after_pascal().ok() && build.pascal() != "Parse7"@ {
        build.after_pascal().fail(ParseErrorKind::WrongFileType)
    } else {
        build.after_pascal()
    }
}

/// Opens the bytes of a record file and checks its header. The reader that
/// is returned stands behind the header.
pub fn open_serialized(data: Vec<u8>) -> (result: ParseResult<BinReader>)
    ensures
        match result {
            Ok(reader) => reader@.ok() && reader@ == after_header(Cursor::start(data@)),
            Err(e) => after_header(Cursor::start(data@)).fault == Some(e.kind()) && e.wraps_cause(),
        },
{
    let mut reader = BinReader::new(data);
    let found = reader.read_bytes(8);
    let wanted: Vec<u8> = vec![0x43u8, 0x72u8, 0x79u8, 0x70u8, 0x74u8, 0x69u8, 0x63u8, 0x53u8];
    if reader.is_ok() && !same_bytes(&found, &wanted) {
        reader.fail(ParseErrorKind::MissingCrypticSig);
    }
    reader.read_u32();
    let filetype = reader.read_pascal_string();
    if reader.is_ok() && filetype != String::from_str("Parse7") {
        reader.fail(ParseErrorKind::WrongFileType);
    }
    match reader.fault() {
        None => Ok(reader),
        Some(kind) => Err(ParseError::of_fault(kind)),
    }
}

/// The number of bytes that follow a string pool of `len` bytes, so that
/// the next field starts on a multiple of four.
pub open spec fn pool_padding(len: int) -> int {
    (4 - len % 4) % 4
}

/// The cursor after the string pool at `c`: the number of its bytes, the
/// bytes, and padding. A pool that is not empty and does not begin and end
/// with a NUL byte cannot be turned into strings: a conversion error.
pub open spec fn after_string_pool(c: Cursor) -> Cursor {
    let end = c.advance(4).advance(c.word() as int).pad(pool_padding(c.word() as int));
    if end.ok() && !nul_framed(c.advance(4).bytes(c.word() as int)) {
        end.fail(ParseErrorKind::StringConversion)
    } else {
        end
    }
}

/// Reads the string pool of a record file.
pub fn serialized_read_string_pool(reader: &mut BinReader) -> (result: ParseResult<StringPool>)
    ensures
        final(reader)@ == after_string_pool(old(reader)@),
        match result {
            Ok(pool) => final(reader)@.ok() && pool@ == old(reader)@.advance(4).bytes(
                old(reader)@.word() as int,
            ),
            Err(e) => final(reader)@.fault == Some(e.kind()) && e.wraps_cause(),
        },
{
    let len = reader.read_u32() as usize;
    let bytes = reader.read_bytes(len);
    reader.skip_padding((4 - len % 4) % 4);
    match StringPool::checked(bytes) {
        Some(pool) => reader.finish(pool),
        None => {
            reader.fail(ParseErrorKind::StringConversion);
            Err(ParseError::of_fault(reader.fault().unwrap()))
        },
    }
}

/// Reads the length word of a record. Returns what it announces, and the
/// position of the record's first field.
pub fn read_struct_length(reader: &mut BinReader) -> (result: ParseResult<(u64, u64)>)
    ensures
        final(reader)@ == old(reader)@.advance(4),
        match result {
            Ok((expected_bytes, begin_pos)) => final(reader)@.ok() && (Frame {
                expected_bytes,
                begin_pos,
            }) == old(reader)@.frame(),
            Err(e) => final(reader)@.fault == Some(e.kind()) && e.wraps_cause(),
        },
{
    let frame = reader.open_frame();
    reader.finish((frame.expected_bytes, frame.begin_pos))
}

/// Checks at the end of a record that began at `begin_pos` that decoding
/// it took `expected_bytes` bytes. Returns `return_value` where it did,
/// and a size mismatch that tells both numbers where it did not.
pub fn verify_struct_length<T>(
    return_value: T,
    expected_bytes: u64,
    begin_pos: u64,
    reader: &mut BinReader,
) -> (result: ParseResult<T>)
    ensures
        final(reader)@ == old(reader)@.close(Frame { expected_bytes, begin_pos }),
        final(reader)@.pos == old(reader)@.pos,
        match result {
            Ok(value) => final(reader)@.ok() && value == return_value,
            Err(e) => final(reader)@.fault == Some(e.kind()) && e.wraps_cause(),
        },
        old(reader)@.ok() ==> match result {
            Ok(value) => old(reader)@.taken_since(Frame { expected_bytes, begin_pos })
                == expected_bytes,
            Err(e) => e.kind() == (ParseErrorKind::SizeMismatch {
                expected_bytes,
                read_bytes: old(reader)@.taken_since(Frame { expected_bytes, begin_pos }) as u64,
            }) && old(reader)@.taken_since(Frame { expected_bytes, begin_pos }) != expected_bytes,
        },
{
    reader.close_frame(Frame { expected_bytes, begin_pos });
    reader.finish(return_value)
}

/// An entity that is kept under its name.
pub trait Named {
    /// The name of the entity, if it has one.
    spec fn key(&self) -> Option<Seq<char>>;

    /// The name of the entity, if it has one.
    fn name_key(&self) -> (name: Option<&NameKey>)
        ensures
            name.deep_view() == self.key(),
    ;
}

/// What a collection holds after the first `n` of `items` were put into
/// it in their order, each under its name; an item without a name is left
/// out.
pub open spec fn listing_of<T: Named>(items: Seq<T>, n: nat) -> Listing<T>
    decreases n,
{
    if n == 0 || n > items.len() {
        Listing::empty()
    } else {
        let before = listing_of(items, (n - 1) as nat);
        match items[n - 1].key() {
            Some(name) => before.put(name, items[n - 1]),
            None => before,
        }
    }
}

/// The cursor after a collection at `c`: a record that holds an array of
/// entities.
pub open spec fn scan_keyed<T: BinReadable>(c: Cursor, strings: &StringPool) -> Cursor {
    Vec::<T>::scan(c.advance(4), strings).close(c.frame())
}

/// Whether `listing` is the collection encoded at `c`: there are entities,
/// the ones encoded there, and putting each under its name gives `listing`.
pub open spec fn decoded_keyed<T: BinReadable + Named>(
    c: Cursor,
    strings: &StringPool,
    messages: &MessageStore,
    listing: Listing<T>,
) -> bool {
    exists|items: Seq<T>|
        decoded_arr::<T>(c.advance(4), strings, messages, items) && listing == listing_of(
            items,
            items.len(),
        )
}

/// Reads a collection: a record that holds an array of entities. Each is
/// kept under its name; one without a name is dropped.
pub fn read_keyed<T: BinReadable + Named>(
    reader: &mut BinReader,
    strings: &StringPool,
    messages: &MessageStore,
) -> (result: ParseResult<Keyed<T>>)
    ensures
        final(reader)@ == scan_keyed::<T>(old(reader)@, strings),
        match result {
            Ok(table) => final(reader)@.ok() && table.wf() && decoded_keyed::<T>(
                old(reader)@,
                strings,
                messages,
                table@,
            ),
            Err(e) => final(reader)@.fault == Some(e.kind()) && e.wraps_cause(),
        },
{
    let ghost opened = reader@;
    let frame = reader.open_frame();
    let count = reader.read_u32();
    let ghost first = reader@;
    let ghost mut items: Seq<T> = Seq::empty();
    let mut table: Keyed<T> = Keyed::new();
    let mut i: u32 = 0;
    while i < count && reader.is_ok()
        invariant
            i <= count,
            table.wf(),
            reader@ == reader::scan_n::<T>(first, strings, i as nat),
            reader@.ok() ==> items.len() == i && reader::decoded_n::<T>(
                first,
                strings,
                messages,
                items,
            ) && table@ == listing_of(items, i as nat),
        decreases count - i,
    {
        let ghost before = items;
        let item = T::read_value(reader, strings, messages);
        proof {
            items = items.push(item);
            if reader@.ok() {
                lemma_listing_prefix(before, items, i as nat);
            }
        }
        let name = match item.name_key() {
            Some(name) => Some(name.clone()),
            None => None,
        };
        match name {
            Some(name) => {
                table.insert(name, item);
            },
            None => {},
        }
        i = i + 1;
    }
    proof {
        if i < count {
            reader::lemma_scan_n_fault::<T>(first, strings, i as nat, count as nat);
        }
    }
    reader.close_frame(frame);
    proof {
        if reader@.ok() {
            assert(decoded_arr::<T>(opened.advance(4), strings, messages, items) && table@
                == listing_of(items, items.len()));
        }
    }
    reader.finish(table)
}

/// A listing of items has as many names as entities.
pub proof fn lemma_listing_lengths<T: Named>(items: Seq<T>, n: nat)
    ensures
        listing_of(items, n).keys.len() == listing_of(items, n).values.len(),
    decreases n,
{
    if n > 0 {
        lemma_listing_lengths(items, (n - 1) as nat);
    }
}

/// Each entity of the listing of the first `n` items is one of them.
pub proof fn lemma_listing_source<T: Named>(items: Seq<T>, n: nat, j: int)
    requires
        n <= items.len(),
        0 <= j < listing_of(items, n).values.len(),
    ensures
        exists|i: int| 0 <= i < n && #[trigger] items[i] == listing_of(items, n).values[j],
    decreases n,
{
    let before = listing_of(items, (n - 1) as nat);
    lemma_listing_lengths(items, (n - 1) as nat);
    let replaced = match items[n - 1].key() {
        Some(name) => match position_in(before.keys, fold(name)) {
            Some(i) => i == j,
            None => j == before.values.len(),
        },
        None => false,
    };
    if replaced {
        assert(items[n - 1] == listing_of(items, n).values[j]);
    } else {
        lemma_listing_source(items, (n - 1) as nat, j);
        let i = choose|i: int| 0 <= i < n - 1 && #[trigger] items[i] == before.values[j];
        assert(items[i] == listing_of(items, n).values[j]);
    }
}

/// The listing of the first `n` items does not depend on the items that
/// follow.
pub proof fn lemma_listing_prefix<T: Named>(short: Seq<T>, long: Seq<T>, n: nat)
    requires
        n <= short.len() <= long.len(),
        forall|i: int| 0 <= i < short.len() ==> short[i] == long[i],
    ensures
        listing_of(short, n) == listing_of(long, n),
    decreases n,
{
    if n > 0 {
        lemma_listing_prefix(short, long, (n - 1) as nat);
    }
}

} // verus!
