//! From the bytes of the files to the dictionary of powers.

use super::cascade::{
    cascade, included_stay, lemma_cascade_seeded, lemma_closed_keeps, lemma_closed_twice,
    lemma_seeded_due, lemma_top_level_reached, nominal, nothing_included,
};
use super::nesting::{
    lemma_among_at, lemma_kept_has, lemma_linked_fresh, lemma_linked_nominal,
    lemma_position_listed, lists_power, named_after_owners,
};
use crate::structs::keyed::position_in;
use crate::structs::namekey::fold;
use super::closure::{closed, resolve_references, settled};
use super::hierarchy::{
    any_top_level, archetypes_matched, enh_categories_matched, filter_power_sets, flag_top_level,
    lemma_positions_valid, link_power_sets, link_powers, match_archetypes_to_power_categories,
    match_enh_categories_to_powers, passing, power_sets_linked, powers_linked, top_level_flagged,
};
use crate::structs::config::PowersConfig;
use super::marks::clipped;
use super::redirects::due;
use super::seeding::{include_top_level, top_level_included};
use crate::bin_parse::attribs::serialized_read_attribs;
use crate::bin_parse::cursor::Cursor;
use crate::bin_parse::messagestore::{
    after_message_ids, after_string_table, are_message_ids, ids_after, open_message_store,
    read_message_ids, read_string_table, table_strings, texts_of, MessageId, MS_BIN_VER,
};
use crate::bin_parse::reader::{scan_n, BinReadable, BinReader};
use crate::bin_parse::{
    after_header, after_string_pool, decoded_keyed, lemma_listing_source, open_serialized,
    read_keyed, scan_keyed, serialized_read_string_pool, Named, ParseError, ParseErrorKind,
};
use crate::structs::archetype::Archetype;
use crate::structs::attribs::AttribNames;
use crate::structs::boosts::BoostSet;
use crate::structs::keyed::Keyed;
use crate::structs::powers::{BasePower, BasePowerSet, PowerCategory};
use crate::structs::strings::{MessageStore, StringPool, TextMessage};
use crate::structs::villains::VillainDef;
use vstd::prelude::*;

verus! {

/// An error of the decoder, and what was being done when it came.
#[derive(Debug)]
pub struct ErrContext {
    /// What could not be done.
    pub message: &'static str,
    /// The error.
    pub error: ParseError,
}

/// Why the dictionary of powers could not be loaded.
#[derive(Debug)]
pub enum LoadError {
    /// A file could not be decoded.
    Parse(ErrContext),
    /// The configuration lists categories for the top level, and none of
    /// them is there.
    NoPowerCategories,
}

/// The cursor behind the header and the string pool of a record file.
pub open spec fn after_pool(data: Seq<u8>) -> Cursor {
    after_string_pool(after_header(Cursor::start(data)))
}

/// The bytes of the string pool of a record file.
pub open spec fn pool_bytes(data: Seq<u8>) -> Seq<u8> {
    after_header(Cursor::start(data)).advance(4).bytes(
        after_header(Cursor::start(data)).word() as int,
    )
}

/// Whether `message` and `kind` tell why a record file could not be
/// opened: the fault of the header under `open_message`, or else the
/// fault of the string pool.
pub open spec fn open_failed(
    data: Seq<u8>,
    open_message: Seq<char>,
    message: Seq<char>,
    kind: ParseErrorKind,
) -> bool {
    if !after_header(Cursor::start(data)).ok() {
        message == open_message && after_header(Cursor::start(data)).fault == Some(kind)
    } else {
        message == "Unable to parse string pool!"@ && after_pool(data).fault == Some(kind)
    }
}

/// Opens the bytes of a record file: checks the header and reads the
/// string pool.
pub fn open_with_pool(data: Vec<u8>, open_message: &'static str) -> (result: Result<
    (BinReader, StringPool),
    ErrContext,
>)
    ensures
        result matches Err(e) ==> e.error.wraps_cause(),
        match result {
            Ok((reader, pool)) => after_pool(data@).ok() && reader@ == after_pool(data@) && pool@
                == pool_bytes(data@),
            Err(e) => !after_pool(data@).ok() && open_failed(
                data@,
                open_message@,
                e.message@,
                e.error.kind(),
            ),
        },
{
    match open_serialized(data) {
        Ok(reader) => {
            let mut reader = reader;
            match serialized_read_string_pool(&mut reader) {
                Ok(pool) => Ok((reader, pool)),
                Err(error) => Err(ErrContext { message: "Unable to parse string pool!", error }),
            }
        },
        Err(error) => Err(ErrContext { message: open_message, error }),
    }
}

/// Whether `result` is what reading a collection from the bytes of its
/// file gives: the collection that the file encodes, or the first fault
/// with what was being done, `open_message` for the header and
/// `parse_message` for the collection itself.
#[verifier::opaque]
pub open spec fn table_read<T: BinReadable + Named>(
    data: Seq<u8>,
    messages: &MessageStore,
    open_message: Seq<char>,
    parse_message: Seq<char>,
    result: Result<Keyed<T>, ErrContext>,
) -> bool {
    match result {
        Ok(table) => table.wf() && after_pool(data).ok() && exists|pool: StringPool|
            #![trigger decoded_keyed::<T>(after_pool(data), &pool, messages, table@)]
            pool@ == pool_bytes(data) && scan_keyed::<T>(after_pool(data), &pool).ok()
                && decoded_keyed::<T>(after_pool(data), &pool, messages, table@),
        Err(e) => if !after_pool(data).ok() {
            open_failed(data, open_message, e.message@, e.error.kind())
        } else {
            e.message@ == parse_message && exists|pool: StringPool|
                #![trigger scan_keyed::<T>(after_pool(data), &pool)]
                pool@ == pool_bytes(data) && scan_keyed::<T>(after_pool(data), &pool).fault
                    == Some(e.error.kind())
        },
    }
}

/// Reads a collection from the bytes of its file.
pub fn read_table<T: BinReadable + Named>(
    data: Vec<u8>,
    messages: &MessageStore,
    open_message: &'static str,
    parse_message: &'static str,
) -> (result: Result<Keyed<T>, ErrContext>)
    ensures
        result matches Err(e) ==> e.error.wraps_cause(),
        table_read::<T>(data@, messages, open_message@, parse_message@, result),
        result matches Ok(table) ==> table.wf(),
{
    reveal(table_read);
    match open_with_pool(data, open_message) {
        Ok((reader, strings)) => {
            let mut reader = reader;
            match read_keyed::<T>(&mut reader, &strings, messages) {
                Ok(table) => {
                    Ok(table)
                },
                Err(error) => {
                    Err(ErrContext { message: parse_message, error })
                },
            }
        },
        Err(e) => Err(e),
    }
}

/// Reads the archetypes of players from the bytes of their file.
pub fn read_classes_bin(data: Vec<u8>, messages: &MessageStore) -> (result: Result<
    Keyed<Archetype>,
    ErrContext,
>)
    ensures
        result matches Err(e) ==> e.error.wraps_cause(),
        table_read::<Archetype>(
            data@,
            messages,
            "Unable to open classes!"@,
            "Unable to parse classes table."@,
            result,
        ),
        result matches Ok(table) ==> table.wf(),
{
    read_table::<Archetype>(
        data,
        messages,
        "Unable to open classes!",
        "Unable to parse classes table.",
    )
}

/// Reads the archetypes of villains from the bytes of their file, which
/// has the form of the file of the archetypes of players.
pub fn read_villain_classes_bin(data: Vec<u8>, messages: &MessageStore) -> (result: Result<
    Keyed<Archetype>,
    ErrContext,
>)
    ensures
        result matches Err(e) ==> e.error.wraps_cause(),
        table_read::<Archetype>(
            data@,
            messages,
            "Unable to open classes!"@,
            "Unable to parse classes table."@,
            result,
        ),
        result matches Ok(table) ==> table.wf(),
{
    read_table::<Archetype>(
        data,
        messages,
        "Unable to open classes!",
        "Unable to parse classes table.",
    )
}

/// Reads the enhancement sets from the bytes of their file.
pub fn read_boostsets_bin(data: Vec<u8>, messages: &MessageStore) -> (result: Result<
    Keyed<BoostSet>,
    ErrContext,
>)
    ensures
        result matches Err(e) ==> e.error.wraps_cause(),
        table_read::<BoostSet>(
            data@,
            messages,
            "Unable to open boost sets!"@,
            "Unable to parse boost sets table."@,
            result,
        ),
        result matches Ok(table) ==> table.wf(),
{
    read_table::<BoostSet>(
        data,
        messages,
        "Unable to open boost sets!",
        "Unable to parse boost sets table.",
    )
}

/// Reads the villain definitions from the bytes of their file.
pub fn read_villaindef_bin(data: Vec<u8>, messages: &MessageStore) -> (result: Result<
    Keyed<VillainDef>,
    ErrContext,
>)
    ensures
        result matches Err(e) ==> e.error.wraps_cause(),
        table_read::<VillainDef>(
            data@,
            messages,
            "Unable to open villains!"@,
            "Unable to parse villains table."@,
            result,
        ),
        result matches Ok(table) ==> table.wf(),
{
    read_table::<VillainDef>(
        data,
        messages,
        "Unable to open villains!",
        "Unable to parse villains table.",
    )
}

/// Reads the power sets from the bytes of their file.
pub fn read_powersets_bin(data: Vec<u8>, messages: &MessageStore) -> (result: Result<
    Keyed<BasePowerSet>,
    ErrContext,
>)
    ensures
        result matches Err(e) ==> e.error.wraps_cause(),
        table_read::<BasePowerSet>(
            data@,
            messages,
            "Unable to open power sets!"@,
            "Unable to parse power sets table."@,
            result,
        ),
        result matches Ok(table) ==> table.wf(),
{
    read_table::<BasePowerSet>(
        data,
        messages,
        "Unable to open power sets!",
        "Unable to parse power sets table.",
    )
}

/// Reads the powers from the bytes of their file.
pub fn read_powers_bin(data: Vec<u8>, messages: &MessageStore) -> (result: Result<
    Keyed<BasePower>,
    ErrContext,
>)
    ensures
        result matches Err(e) ==> e.error.wraps_cause(),
        table_read::<BasePower>(
            data@,
            messages,
            "Unable to open powers!"@,
            "Unable to parse powers table."@,
            result,
        ),
        result matches Ok(table) ==> table.wf(),
{
    read_table::<BasePower>(data, messages, "Unable to open powers!", "Unable to parse powers table.")
}

/// Whether `result` is what reading the power categories from the bytes
/// of their file, and flagging those of the top level, gives.
pub open spec fn powercats_read(
    data: Seq<u8>,
    messages: &MessageStore,
    config: &PowersConfig,
    result: Result<Keyed<PowerCategory>, LoadError>,
) -> bool {
    match result {
        Ok(flagged) => flagged.wf() && exists|table: Keyed<PowerCategory>|
            #![trigger top_level_flagged(config, &table, &flagged)]
            table_read::<PowerCategory>(
                data,
                messages,
                "Unable to open power categories!"@,
                "Unable to parse power categories table."@,
                Ok(table),
            ) && top_level_flagged(config, &table, &flagged) && (config.power_categories@.len()
                == 0 || any_top_level(flagged.values(), flagged.values().len())),
        Err(LoadError::Parse(e)) => table_read::<PowerCategory>(
            data,
            messages,
            "Unable to open power categories!"@,
            "Unable to parse power categories table."@,
            Err(e),
        ),
        Err(LoadError::NoPowerCategories) => exists|
            table: Keyed<PowerCategory>,
            flagged: Keyed<PowerCategory>,
        |
            #![trigger top_level_flagged(config, &table, &flagged)]
            table_read::<PowerCategory>(
                data,
                messages,
                "Unable to open power categories!"@,
                "Unable to parse power categories table."@,
                Ok(table),
            ) && top_level_flagged(config, &table, &flagged) && config.power_categories@.len() > 0
                && !any_top_level(flagged.values(), flagged.values().len()),
    }
}

/// Reads the power categories from the bytes of their file, and flags
/// those of the top level: see `flag_top_level`. Where the configuration
/// lists categories and none of them is there, there is nothing to work
/// on.
pub fn read_powercats_bin(data: Vec<u8>, messages: &MessageStore, config: &PowersConfig) -> (result:
    Result<Keyed<PowerCategory>, LoadError>)
    ensures
        result matches Err(LoadError::Parse(e)) ==> e.error.wraps_cause(),
        powercats_read(data@, messages, config, result),
        result matches Ok(table) ==> table.wf(),
{
    let read = read_table::<PowerCategory>(
        data,
        messages,
        "Unable to open power categories!",
        "Unable to parse power categories table.",
    );
    match read {
        Ok(table) => {
            let ghost decoded = table;
            let mut powercats = table;
            if flag_top_level(config, &mut powercats) {
                let result = Ok(powercats);
                assert(powercats_read(data@, messages, config, result));
                result
            } else {
                assert(top_level_flagged(config, &decoded, &powercats));
                Err(LoadError::NoPowerCategories)
            }
        },
        Err(e) => Err(LoadError::Parse(e)),
    }
}

/// Whether `result` is what reading the attribute names from the bytes
/// of their file gives.
#[verifier::opaque]
pub open spec fn attributes_read(
    data: Seq<u8>,
    messages: &MessageStore,
    result: Result<AttribNames, ErrContext>,
) -> bool {
    match result {
        Ok(names) => after_pool(data).ok() && exists|pool: StringPool| #[trigger]
            attributes_in(data, pool, messages, names),
        Err(e) => if !after_pool(data).ok() {
            open_failed(data, "Unable to open attributes!"@, e.message@, e.error.kind())
        } else {
            e.message@ == "Unable to read attribute names!"@ && exists|pool: StringPool| #[trigger]
                attributes_fault(data, pool, e.error.kind())
        },
    }
}

/// Whether `names` are the attribute names that the file encodes, where
/// `pool` is its string pool.
#[verifier::opaque]
pub open spec fn attributes_in(
    data: Seq<u8>,
    pool: StringPool,
    messages: &MessageStore,
    names: AttribNames,
) -> bool {
    pool@ == pool_bytes(data) && AttribNames::scan(after_pool(data), &pool).ok()
        && AttribNames::decoded(after_pool(data), &pool, messages, &names)
}

/// Whether the attribute names of the file cannot be decoded for a fault
/// of the given kind, where `pool` is its string pool.
#[verifier::opaque]
pub open spec fn attributes_fault(data: Seq<u8>, pool: StringPool, kind: ParseErrorKind) -> bool {
    pool@ == pool_bytes(data) && AttribNames::scan(after_pool(data), &pool).fault == Some(kind)
}

/// The attribute names that a file encodes are what reading it gives.
proof fn lemma_attributes_decoded(
    data: Seq<u8>,
    messages: &MessageStore,
    pool: &StringPool,
    names: AttribNames,
)
    requires
        after_pool(data).ok(),
        pool@ == pool_bytes(data),
        AttribNames::scan(after_pool(data), pool).ok(),
        AttribNames::decoded(after_pool(data), pool, messages, &names),
    ensures
        attributes_read(data, messages, Ok(names)),
{
    reveal(attributes_in);
    assert(attributes_in(data, *pool, messages, names));
    let result: Result<AttribNames, ErrContext> = Ok(names);
    assert(result is Ok && result->Ok_0 == names);
    assert(attributes_read(data, messages, result)) by {
        reveal(attributes_read);
    }
}

/// The fault of the attribute names of a file is what reading it gives.
proof fn lemma_attributes_failed(
    data: Seq<u8>,
    messages: &MessageStore,
    pool: &StringPool,
    error: ErrContext,
)
    requires
        after_pool(data).ok(),
        pool@ == pool_bytes(data),
        if after_pool(data).ok() {
            error.message@ == "Unable to read attribute names!"@ && AttribNames::scan(
                after_pool(data),
                pool,
            ).fault == Some(error.error.kind())
        } else {
            open_failed(
                data,
                "Unable to open attributes!"@,
                error.message@,
                error.error.kind(),
            )
        },
    ensures
        attributes_read(data, messages, Err(error)),
{
    reveal(attributes_read);
    reveal(attributes_fault);
    assert(attributes_fault(data, *pool, error.error.kind()));
}

/// Reads the attribute names from the bytes of their file.
pub fn read_attributes(data: Vec<u8>, messages: &MessageStore) -> (result: Result<
    AttribNames,
    ErrContext,
>)
    ensures
        result matches Err(e) ==> e.error.wraps_cause(),
        attributes_read(data@, messages, result),
{
    let opened = open_with_pool(data, "Unable to open attributes!");
    match opened {
        Ok((reader, strings)) => {
            let mut reader = reader;
            let read = serialized_read_attribs(&mut reader, &strings, messages);
            match read {
                Ok(names) => {
                    proof {
                        lemma_attributes_decoded(data@, messages, &strings, names);
                    }
                    Ok(names)
                },
                Err(error) => {
                    let context = ErrContext { message: "Unable to read attribute names!", error };
                    proof {
                        lemma_attributes_failed(data@, messages, &strings, context);
                    }
                    Err(context)
                },
            }
        },
        Err(e) => {
            proof {
                reveal(attributes_read);
            }
            Err(e)
        },
    }
}

/// The cursor behind the signature of the file of client messages: a
/// missing signature where the number at the start is another.
pub open spec fn after_signature(data: Seq<u8>) -> Cursor {
    let start = Cursor::start(data);
    if start.has(4) && start.word() != MS_BIN_VER {
        start.advance(4).fail(ParseErrorKind::MissingCrypticSig)
    } else {
        start.advance(4)
    }
}

/// The bytes of the strings of the table of strings at `c`.
pub open spec fn table_bytes(c: Cursor) -> Seq<u8> {
    c.advance(4).advance(4).bytes(c.advance(4).word() as int)
}

/// Whether `result` is what reading the client messages from the bytes
/// of their file gives: the store that the file encodes, or the first
/// fault with what was being done.
#[verifier::opaque]
pub open spec fn messages_read(data: Seq<u8>, result: Result<MessageStore, ErrContext>) -> bool {
    let opened = after_signature(data);
    let first = after_string_table(opened);
    let second = after_string_table(first);
    let end = after_message_ids(second.advance(4), second.word() as nat);
    match result {
        Ok(store) => {
            &&& end.ok()
            &&& store.messages.deep_view() == texts_of(table_strings(table_bytes(opened)))
            &&& store.variables.deep_view() == texts_of(table_strings(table_bytes(first)))
            &&& exists|entries: Seq<MessageId>|
                entries.len() == second.word() && are_message_ids(second.advance(4), entries)
                    && #[trigger] ids_after(
                    Map::<Seq<char>, TextMessage>::empty(),
                    entries,
                    entries.len(),
                ) == store.message_ids@
        },
        Err(e) => {
            &&& end.fault == Some(e.error.kind())
            &&& e.message@ == (if !opened.ok() {
                "Unable to open client messages!"@
            } else if !first.ok() {
                "Unable to read message string table!"@
            } else if !second.ok() {
                "Unable to read variable string table!"@
            } else {
                "Unable to read message IDs!"@
            })
        },
    }
}

/// A fault is kept through the tables of the file of client messages.
proof fn lemma_messages_kept(c: Cursor, n: nat)
    ensures
        !c.ok() ==> after_string_table(c) == c && after_message_ids(c, n) == c,
    decreases n,
{
    if n > 0 {
        lemma_messages_kept(c, (n - 1) as nat);
    }
}

/// Reads the client messages from the bytes of their file.
pub fn read_client_messages(data: Vec<u8>) -> (result: Result<MessageStore, ErrContext>)
    ensures
        result matches Err(e) ==> e.error.wraps_cause(),
        messages_read(data@, result),
{
    reveal(messages_read);
    let ghost opened = after_signature(data@);
    let ghost first = after_string_table(opened);
    let ghost second = after_string_table(first);
    proof {
        lemma_messages_kept(opened, second.word() as nat);
        lemma_messages_kept(first, second.word() as nat);
        lemma_messages_kept(second, second.word() as nat);
        lemma_messages_kept(second.advance(4), second.word() as nat);
    }
    let mut reader = match open_message_store(data) {
        Ok(reader) => reader,
        Err(error) => {
            return Err(ErrContext { message: "Unable to open client messages!", error });
        },
    };
    let mut messages = MessageStore::new();
    messages.messages = match read_string_table(&mut reader) {
        Ok(texts) => texts,
        Err(error) => {
            return Err(ErrContext { message: "Unable to read message string table!", error });
        },
    };
    messages.variables = match read_string_table(&mut reader) {
        Ok(texts) => texts,
        Err(error) => {
            return Err(ErrContext { message: "Unable to read variable string table!", error });
        },
    };
    match read_message_ids(&mut reader, &mut messages) {
        Ok(_) => Ok(messages),
        Err(error) => Err(ErrContext { message: "Unable to read message IDs!", error }),
    }
}

/// The bytes of the nine files.
pub struct Sources {
    /// The file of client messages.
    pub messages: Vec<u8>,
    /// The file of attribute names.
    pub attrib_names: Vec<u8>,
    /// The file of the archetypes of players.
    pub classes: Vec<u8>,
    /// The file of enhancement sets.
    pub boost_sets: Vec<u8>,
    /// The file of the archetypes of villains.
    pub villain_classes: Vec<u8>,
    /// The file of villain definitions.
    pub villains: Vec<u8>,
    /// The file of power categories.
    pub power_categories: Vec<u8>,
    /// The file of power sets.
    pub power_sets: Vec<u8>,
    /// The file of powers.
    pub powers: Vec<u8>,
}

/// What the nine files hold, each collection as its file gives it; of
/// the power categories those of the top level are flagged.
pub struct Decoded {
    pub messages: MessageStore,
    pub attrib_names: AttribNames,
    pub archetypes: Keyed<Archetype>,
    pub boost_sets: Keyed<BoostSet>,
    pub villain_archetypes: Keyed<Archetype>,
    pub villains: Keyed<VillainDef>,
    pub power_categories: Keyed<PowerCategory>,
    pub power_sets: Keyed<BasePowerSet>,
    pub powers: Keyed<BasePower>,
}

/// Whether `decoded` is what the nine files hold.
#[verifier::opaque]
pub open spec fn sources_decoded(sources: &Sources, config: &PowersConfig, decoded: &Decoded) -> bool {
    &&& messages_read(sources.messages@, Ok(decoded.messages))
    &&& attributes_read(sources.attrib_names@, &decoded.messages, Ok(decoded.attrib_names))
    &&& table_read::<Archetype>(
        sources.classes@,
        &decoded.messages,
        "Unable to open classes!"@,
        "Unable to parse classes table."@,
        Ok(decoded.archetypes),
    )
    &&& table_read::<BoostSet>(
        sources.boost_sets@,
        &decoded.messages,
        "Unable to open boost sets!"@,
        "Unable to parse boost sets table."@,
        Ok(decoded.boost_sets),
    )
    &&& table_read::<Archetype>(
        sources.villain_classes@,
        &decoded.messages,
        "Unable to open classes!"@,
        "Unable to parse classes table."@,
        Ok(decoded.villain_archetypes),
    )
    &&& table_read::<VillainDef>(
        sources.villains@,
        &decoded.messages,
        "Unable to open villains!"@,
        "Unable to parse villains table."@,
        Ok(decoded.villains),
    )
    &&& powercats_read(
        sources.power_categories@,
        &decoded.messages,
        config,
        Ok(decoded.power_categories),
    )
    &&& table_read::<BasePowerSet>(
        sources.power_sets@,
        &decoded.messages,
        "Unable to open power sets!"@,
        "Unable to parse power sets table."@,
        Ok(decoded.power_sets),
    )
    &&& table_read::<BasePower>(
        sources.powers@,
        &decoded.messages,
        "Unable to open powers!"@,
        "Unable to parse powers table."@,
        Ok(decoded.powers),
    )
}

/// Each entity of a collection that a file gives was decoded somewhere in
/// the file.
pub proof fn lemma_table_items<T: BinReadable + Named>(
    data: Seq<u8>,
    messages: &MessageStore,
    open_message: Seq<char>,
    parse_message: Seq<char>,
    table: Keyed<T>,
    j: int,
)
    requires
        table_read::<T>(data, messages, open_message, parse_message, Ok(table)),
        0 <= j < table.values().len(),
    ensures
        exists|c: Cursor, pool: StringPool| #[trigger]
            T::decoded(c, &pool, messages, &table.values()[j]),
{
    reveal(table_read);
    let first = after_pool(data);
    let pool = choose|pool: StringPool|
        #![trigger decoded_keyed::<T>(first, &pool, messages, table@)]
        pool@ == pool_bytes(data) && scan_keyed::<T>(first, &pool).ok() && decoded_keyed::<T>(
            first,
            &pool,
            messages,
            table@,
        );
    let items = choose|items: Seq<T>|
        crate::bin_parse::reader::decoded_arr::<T>(first.advance(4), &pool, messages, items)
            && table@ == crate::bin_parse::listing_of(items, items.len());
    lemma_listing_source(items, items.len(), j);
    let i = choose|i: int| 0 <= i < items.len() && #[trigger] items[i] == table@.values[j];
    assert(T::decoded(
        scan_n::<T>(first.advance(4).advance(4), &pool, i as nat),
        &pool,
        messages,
        &items[i],
    ));
}

/// What the files give is not included: the power categories, the power
/// sets and the powers come from their files with the mark off.
pub proof fn lemma_decoded_fresh(sources: &Sources, config: &PowersConfig, decoded: &Decoded)
    requires
        sources_decoded(sources, config, decoded),
    ensures
        nothing_included(&decoded.power_categories, &decoded.power_sets, &decoded.powers),
{
    reveal(sources_decoded);
    let messages = &decoded.messages;
    assert forall|p: int| 0 <= p < decoded.powers.values().len() implies !(
    #[trigger] decoded.powers.values()[p]).include_in_output by {
        lemma_table_items::<BasePower>(
            sources.powers@,
            messages,
            "Unable to open powers!"@,
            "Unable to parse powers table."@,
            decoded.powers,
            p,
        );
    }
    assert forall|s: int| 0 <= s < decoded.power_sets.values().len() implies !(
    #[trigger] decoded.power_sets.values()[s]).include_in_output by {
        lemma_table_items::<BasePowerSet>(
            sources.power_sets@,
            messages,
            "Unable to open power sets!"@,
            "Unable to parse power sets table."@,
            decoded.power_sets,
            s,
        );
    }
    let table = choose|table: Keyed<PowerCategory>|
        #![trigger top_level_flagged(config, &table, &decoded.power_categories)]
        table_read::<PowerCategory>(
            sources.power_categories@,
            messages,
            "Unable to open power categories!"@,
            "Unable to parse power categories table."@,
            Ok(table),
        ) && top_level_flagged(config, &table, &decoded.power_categories);
    assert forall|c: int| 0 <= c < decoded.power_categories.values().len() implies !(
    #[trigger] decoded.power_categories.values()[c]).include_in_output by {
        lemma_table_items::<PowerCategory>(
            sources.power_categories@,
            messages,
            "Unable to open power categories!"@,
            "Unable to parse power categories table."@,
            table,
            c,
        );
        assert(decoded.power_categories.values()[c].include_in_output
            == table.values()[c].include_in_output);
    }
}

/// Whether the file of the given bytes holds a collection.
pub open spec fn table_sound<T: BinReadable + Named>(
    data: Seq<u8>,
    messages: &MessageStore,
    open_message: Seq<char>,
    parse_message: Seq<char>,
) -> bool {
    exists|table: Keyed<T>|
        #[trigger] table_read::<T>(data, messages, open_message, parse_message, Ok(table))
}

/// Whether `error` is the error of the first of the nine files that
/// cannot be decoded. The files are taken in this order: the client
/// messages, the attribute names, the archetypes of players, the
/// enhancement sets, the archetypes of villains, the villain definitions,
/// the power categories, the power sets, the powers.
#[verifier::opaque]
pub open spec fn sources_failed(sources: &Sources, config: &PowersConfig, error: LoadError) -> bool {
    ||| error matches LoadError::Parse(e) && messages_read(sources.messages@, Err(e))
    ||| exists|messages: MessageStore|
        messages_read(sources.messages@, Ok(messages)) && #[trigger] failed_after_messages(
            sources,
            config,
            &messages,
            error,
        )
}

/// Whether `error` is the error of the first of the files after that of
/// the client messages that cannot be decoded, where `messages` are the
/// client messages.
#[verifier::opaque]
pub open spec fn failed_after_messages(
    sources: &Sources,
    config: &PowersConfig,
    messages: &MessageStore,
    error: LoadError,
) -> bool {
    let attributes = exists|names: AttribNames| #[trigger]
        attributes_read(sources.attrib_names@, messages, Ok(names));
    let classes = table_sound::<Archetype>(
        sources.classes@,
        messages,
        "Unable to open classes!"@,
        "Unable to parse classes table."@,
    );
    let boost_sets = table_sound::<BoostSet>(
        sources.boost_sets@,
        messages,
        "Unable to open boost sets!"@,
        "Unable to parse boost sets table."@,
    );
    let villain_classes = table_sound::<Archetype>(
        sources.villain_classes@,
        messages,
        "Unable to open classes!"@,
        "Unable to parse classes table."@,
    );
    let villains = table_sound::<VillainDef>(
        sources.villains@,
        messages,
        "Unable to open villains!"@,
        "Unable to parse villains table."@,
    );
    let power_categories = exists|table: Keyed<PowerCategory>| #[trigger]
        powercats_read(sources.power_categories@, messages, config, Ok(table));
    let power_sets = table_sound::<BasePowerSet>(
        sources.power_sets@,
        messages,
        "Unable to open power sets!"@,
        "Unable to parse power sets table."@,
    );
    ||| error matches LoadError::Parse(e) && attributes_read(sources.attrib_names@, messages, Err(e))
    ||| error matches LoadError::Parse(e) && attributes && table_read::<Archetype>(
        sources.classes@,
        messages,
        "Unable to open classes!"@,
        "Unable to parse classes table."@,
        Err(e),
    )
    ||| error matches LoadError::Parse(e) && attributes && classes&& table_read::<BoostSet>(
        sources.boost_sets@,
        messages,
        "Unable to open boost sets!"@,
        "Unable to parse boost sets table."@,
        Err(e),
    )
    ||| error matches LoadError::Parse(e) && attributes && classes && boost_sets&& table_read::<Archetype>(
        sources.villain_classes@,
        messages,
        "Unable to open classes!"@,
        "Unable to parse classes table."@,
        Err(e),
    )
    ||| error matches LoadError::Parse(e) && attributes && classes && boost_sets && villain_classes&& table_read::<VillainDef>(
        sources.villains@,
        messages,
        "Unable to open villains!"@,
        "Unable to parse villains table."@,
        Err(e),
    )
    ||| attributes && classes && boost_sets && villain_classes && villains && powercats_read(
        sources.power_categories@,
        messages,
        config,
        Err(error),
    )
    ||| error matches LoadError::Parse(e) && attributes && classes && boost_sets && villain_classes && villains && power_categories&& table_read::<BasePowerSet>(
        sources.power_sets@,
        messages,
        "Unable to open power sets!"@,
        "Unable to parse power sets table."@,
        Err(e),
    )
    ||| error matches LoadError::Parse(e) && attributes && classes && boost_sets && villain_classes && villains && power_categories
        && power_sets&& table_read::<BasePower>(
        sources.powers@,
        messages,
        "Unable to open powers!"@,
        "Unable to parse powers table."@,
        Err(e),
    )
}

/// Decodes the nine files, in the order given at `sources_failed`, and
/// flags the power categories of the top level. Stops at the first file
/// that cannot be decoded.
pub fn read_sources(sources: Sources, config: &PowersConfig) -> (result: Result<Decoded, LoadError>)
    ensures
        result matches Err(LoadError::Parse(e)) ==> e.error.wraps_cause(),
        match result {
            Ok(decoded) => sources_decoded(&sources, config, &decoded) && decoded_wf(&decoded),
            Err(error) => sources_failed(&sources, config, error),
        },
{
    reveal(sources_decoded);
    reveal(sources_failed);
    reveal(failed_after_messages);
    let Sources {
        messages: messages_bin,
        attrib_names: attrib_names_bin,
        classes: classes_bin,
        boost_sets: boost_sets_bin,
        villain_classes: villain_classes_bin,
        villains: villains_bin,
        power_categories: power_categories_bin,
        power_sets: power_sets_bin,
        powers: powers_bin,
    } = sources;
    let messages = match read_client_messages(messages_bin) {
        Ok(messages) => messages,
        Err(e) => {
            return Err(LoadError::Parse(e));
        },
    };
    let attrib_names = match read_attributes(attrib_names_bin, &messages) {
        Ok(names) => names,
        Err(e) => {
            let error = LoadError::Parse(e);
            assert(failed_after_messages(&sources, config, &messages, error));
            return Err(error);
        },
    };
    let archetypes = match read_classes_bin(classes_bin, &messages) {
        Ok(table) => table,
        Err(e) => {
            let error = LoadError::Parse(e);
            assert(failed_after_messages(&sources, config, &messages, error));
            return Err(error);
        },
    };
    let boost_sets = match read_boostsets_bin(boost_sets_bin, &messages) {
        Ok(table) => table,
        Err(e) => {
            let error = LoadError::Parse(e);
            assert(failed_after_messages(&sources, config, &messages, error));
            return Err(error);
        },
    };
    let villain_archetypes = match read_villain_classes_bin(villain_classes_bin, &messages) {
        Ok(table) => table,
        Err(e) => {
            let error = LoadError::Parse(e);
            assert(failed_after_messages(&sources, config, &messages, error));
            return Err(error);
        },
    };
    let villains = match read_villaindef_bin(villains_bin, &messages) {
        Ok(table) => table,
        Err(e) => {
            let error = LoadError::Parse(e);
            assert(failed_after_messages(&sources, config, &messages, error));
            return Err(error);
        },
    };
    let power_categories = match read_powercats_bin(power_categories_bin, &messages, config) {
        Ok(table) => table,
        Err(error) => {
            assert(failed_after_messages(&sources, config, &messages, error));
            return Err(error);
        },
    };
    let power_sets = match read_powersets_bin(power_sets_bin, &messages) {
        Ok(table) => table,
        Err(e) => {
            let error = LoadError::Parse(e);
            assert(failed_after_messages(&sources, config, &messages, error));
            return Err(error);
        },
    };
    let powers = match read_powers_bin(powers_bin, &messages) {
        Ok(table) => table,
        Err(e) => {
            let error = LoadError::Parse(e);
            assert(failed_after_messages(&sources, config, &messages, error));
            return Err(error);
        },
    };
    Ok(
        Decoded {
            messages,
            attrib_names,
            archetypes,
            boost_sets,
            villain_archetypes,
            villains,
            power_categories,
            power_sets,
            powers,
        },
    )
}

/// The dictionary of powers: the collections, linked and resolved.
pub struct PowersDictionary {
    /// The power categories; each holds the positions of its power sets.
    pub power_categories: Keyed<PowerCategory>,
    /// The power sets that were not left out; each holds the positions of
    /// its powers.
    pub power_sets: Keyed<BasePowerSet>,
    /// The powers.
    pub powers: Keyed<BasePower>,
    /// The archetypes of players.
    pub archetypes: Keyed<Archetype>,
    /// The archetypes of villains.
    pub villain_archetypes: Keyed<Archetype>,
    /// The villain definitions.
    pub villains: Keyed<VillainDef>,
    /// The enhancement sets.
    pub boost_sets: Keyed<BoostSet>,
    /// The names of the attributes.
    pub attrib_names: AttribNames,
    /// The client messages.
    pub messages: MessageStore,
    /// The number of passes that the resolution took.
    pub passes: usize,
}

/// Whether `dictionary` is what merging and resolving makes of
/// `decoded`, step by step: the archetypes are assigned to the power
/// categories, the groups of the enhancement sets to the powers, the
/// power sets that the configuration filters are left out, the power
/// sets get the positions of their powers and the categories those of
/// their power sets, the powers of the top level are included, and what
/// the included powers refer to is resolved until nothing is left to
/// resolve. What is included once the powers of the top level are stays
/// included. Where nothing was included before and the names agree with
/// the hierarchy, every power that is included in the end has its power
/// set and its category included with it: that is so where each power
/// set calls its powers by names that begin with its own, and each
/// category lists power sets whose names begin with its own.
#[verifier::opaque]
pub open spec fn merged(config: &PowersConfig, decoded: &Decoded, dictionary: &PowersDictionary) -> bool {
    &&& nothing_included(&decoded.power_categories, &decoded.power_sets, &decoded.powers)
        && named_after_owners(&decoded.power_categories, &decoded.power_sets) ==> cascade(
        &dictionary.power_categories,
        &dictionary.power_sets,
        &dictionary.powers,
    )
    &&& dictionary.archetypes == decoded.archetypes
    &&& dictionary.villain_archetypes == decoded.villain_archetypes
    &&& dictionary.villains == decoded.villains
    &&& dictionary.boost_sets == decoded.boost_sets
    &&& dictionary.attrib_names == decoded.attrib_names
    &&& dictionary.messages == decoded.messages
    &&& dictionary.power_categories.wf()
    &&& dictionary.power_sets.wf()
    &&& dictionary.powers.wf()
    &&& settled(dictionary.powers.values())
    &&& exists|
        matched: Keyed<PowerCategory>,
        allowed: Keyed<BasePower>,
        kept: Keyed<BasePowerSet>,
        sets: Keyed<BasePowerSet>,
        categories: Keyed<PowerCategory>,
        seeded_categories: Keyed<PowerCategory>,
        seeded_sets: Keyed<BasePowerSet>,
        seeded_powers: Keyed<BasePower>,
        productive: nat,
    |
        #![trigger archetypes_matched(&decoded.archetypes, config, &decoded.power_categories, &matched), enh_categories_matched(&decoded.boost_sets, &decoded.powers, &allowed), powers_linked(&allowed, &kept, &sets), power_sets_linked(&sets, &matched, &categories), top_level_included(&categories, &sets, &allowed, &seeded_categories, &seeded_sets, &seeded_powers), clipped(productive + 1)]
        {
            &&& archetypes_matched(
                &decoded.archetypes,
                config,
                &decoded.power_categories,
                &matched,
            )
            &&& enh_categories_matched(&decoded.boost_sets, &decoded.powers, &allowed)
            &&& kept.wf() && kept@ == decoded.power_sets@.kept(
                passing(decoded.power_sets.keys(), config.filter_powersets.deep_view()),
                decoded.power_sets.keys().len(),
            )
            &&& powers_linked(&allowed, &kept, &sets)
            &&& power_sets_linked(&sets, &matched, &categories)
            &&& top_level_included(
                &categories,
                &sets,
                &allowed,
                &seeded_categories,
                &seeded_sets,
                &seeded_powers,
            )
            &&& closed(
                &decoded.villains,
                &decoded.villain_archetypes,
                &seeded_categories,
                &seeded_sets,
                &seeded_powers,
                &dictionary.power_categories,
                &dictionary.power_sets,
                &dictionary.powers,
                productive,
            )
            &&& dictionary.passes == clipped(productive + 1)
            &&& included_stay(
                &seeded_categories,
                &seeded_sets,
                &seeded_powers,
                &dictionary.power_categories,
                &dictionary.power_sets,
                &dictionary.powers,
            )
            &&& nothing_included(&categories, &sets, &allowed) && nominal(
                &categories,
                &sets,
                &allowed,
            ) ==> cascade(
                &dictionary.power_categories,
                &dictionary.power_sets,
                &dictionary.powers,
            )
        }
}

/// What `lemma_merged_top_level` states, of the collections of each step
/// of the merge up to the inclusion of the top level.
proof fn lemma_reach(
    config: &PowersConfig,
    decoded: &Decoded,
    matched: &Keyed<PowerCategory>,
    allowed: &Keyed<BasePower>,
    kept: &Keyed<BasePowerSet>,
    sets: &Keyed<BasePowerSet>,
    categories: &Keyed<PowerCategory>,
    seeded_categories: &Keyed<PowerCategory>,
    seeded_sets: &Keyed<BasePowerSet>,
    seeded_powers: &Keyed<BasePower>,
    c: int,
    s: int,
    p: int,
)
    requires
        decoded_wf(decoded),
        lists_power(
            config.filter_powersets.deep_view(),
            &decoded.power_categories,
            &decoded.power_sets,
            &decoded.powers,
            c,
            s,
            p,
        ),
        decoded.power_categories.values()[c].top_level,
        archetypes_matched(&decoded.archetypes, config, &decoded.power_categories, matched),
        enh_categories_matched(&decoded.boost_sets, &decoded.powers, allowed),
        kept.wf(),
        kept@ == decoded.power_sets@.kept(
            passing(decoded.power_sets.keys(), config.filter_powersets.deep_view()),
            decoded.power_sets.keys().len(),
        ),
        powers_linked(allowed, kept, sets),
        power_sets_linked(sets, matched, categories),
        top_level_included(
            categories,
            sets,
            allowed,
            seeded_categories,
            seeded_sets,
            seeded_powers,
        ),
    ensures
        seeded_powers.keys() == decoded.powers.keys(),
        seeded_categories.keys() == decoded.power_categories.keys(),
        p < seeded_powers.values().len() && seeded_powers.values()[p].include_in_output,
        c < seeded_categories.values().len(),
        seeded_categories.values()[c].include_in_output,
        seeded_categories.values()[c].top_level,
        exists|t: int|
            0 <= t < seeded_sets.values().len() && #[trigger] seeded_sets.keys()[t]
                == decoded.power_sets.keys()[s] && seeded_sets.values()[t].include_in_output,
        !decoded.powers.values()[p].redirects_resolved ==> due(seeded_powers.values()[p]),
{
    let filters = config.filter_powersets.deep_view();
    decoded.powers.lemma_wf();
    decoded.power_sets.lemma_wf();
    decoded.power_categories.lemma_wf();
    kept.lemma_wf();
    // the power set is not left out
    lemma_kept_has(
        decoded.power_sets@,
        passing(decoded.power_sets.keys(), filters),
        decoded.power_sets.keys().len(),
        s,
    );
    let t = choose|t: int|
        0 <= t < kept@.values.len() && t < kept@.keys.len() && #[trigger] kept@.values[t]
            == decoded.power_sets@.values[s] && kept@.keys[t] == decoded.power_sets@.keys[s];
    // the category has its position
    let set_names = matched.values()[c].ppch_power_set_names.deep_view();
    let k = choose|k: int|
        0 <= k < decoded.power_categories.values()[c].ppch_power_set_names.deep_view().len()
            && fold(
            #[trigger] decoded.power_categories.values()[c].ppch_power_set_names.deep_view()[k],
        ) == decoded.power_sets.keys()[s];
    assert(set_names == decoded.power_categories.values()[c].ppch_power_set_names.deep_view());
    assert(sets.keys()[t] == fold(set_names[k]));
    assert(position_in(sets.keys(), fold(set_names[k])) == Some(t));
    lemma_position_listed(sets.keys(), set_names, set_names.len(), k);
    let set_places = categories.values()[c].pp_power_sets@;
    let m = choose|m: int| 0 <= m < set_places.len() && #[trigger] set_places[m] == t;
    lemma_among_at(set_places, m, set_places.len());
    // the power set has the position of the power
    let power_names = kept.values()[t].pp_power_names.deep_view();
    let k2 = choose|k: int|
        0 <= k < decoded.power_sets.values()[s].pp_power_names.deep_view().len() && fold(
            #[trigger] decoded.power_sets.values()[s].pp_power_names.deep_view()[k],
        ) == decoded.powers.keys()[p];
    assert(allowed.keys()[p] == fold(power_names[k2]));
    assert(position_in(allowed.keys(), fold(power_names[k2])) == Some(p));
    lemma_position_listed(allowed.keys(), power_names, power_names.len(), k2);
    let places = sets.values()[t].pp_powers@;
    let m2 = choose|m: int| 0 <= m < places.len() && #[trigger] places[m] == p;
    lemma_among_at(places, m2, places.len());
    assert(categories.values()[c].top_level);
    lemma_top_level_reached(
        categories,
        sets,
        allowed,
        seeded_categories,
        seeded_sets,
        seeded_powers,
        c,
        t,
        p,
    );
    assert(seeded_sets.keys()[t] == decoded.power_sets.keys()[s]);
    if !decoded.powers.values()[p].redirects_resolved {
        assert(!allowed.values()[p].redirects_resolved);
        lemma_seeded_due(
            categories,
            sets,
            allowed,
            seeded_categories,
            seeded_sets,
            seeded_powers,
            p,
        );
    }
}

/// Every power that is listed by a power set which a category of the top
/// level lists, and which the configuration does not filter, is included
/// in the dictionary, together with that power set and that category,
/// which stands at the top level. Where the redirects of such a power
/// were not followed before, at least two passes were made.
pub proof fn lemma_merged_top_level(
    config: &PowersConfig,
    decoded: &Decoded,
    dictionary: &PowersDictionary,
    c: int,
    s: int,
    p: int,
)
    requires
        decoded_wf(decoded),
        merged(config, decoded, dictionary),
        lists_power(
            config.filter_powersets.deep_view(),
            &decoded.power_categories,
            &decoded.power_sets,
            &decoded.powers,
            c,
            s,
            p,
        ),
        decoded.power_categories.values()[c].top_level,
    ensures
        dictionary.powers.keys() == decoded.powers.keys(),
        dictionary.power_categories.keys() == decoded.power_categories.keys(),
        p < dictionary.powers.values().len() && dictionary.powers.values()[p].include_in_output,
        c < dictionary.power_categories.values().len(),
        dictionary.power_categories.values()[c].include_in_output,
        dictionary.power_categories.values()[c].top_level,
        exists|t: int|
            0 <= t < dictionary.power_sets.values().len() && #[trigger] dictionary.power_sets.keys()[t]
                == decoded.power_sets.keys()[s]
                && dictionary.power_sets.values()[t].include_in_output,
        !decoded.powers.values()[p].redirects_resolved ==> dictionary.passes >= 2,
{
    reveal(merged);
    let (
        matched,
        allowed,
        kept,
        sets,
        categories,
        seeded_categories,
        seeded_sets,
        seeded_powers,
        productive,
    ) = choose|
        matched: Keyed<PowerCategory>,
        allowed: Keyed<BasePower>,
        kept: Keyed<BasePowerSet>,
        sets: Keyed<BasePowerSet>,
        categories: Keyed<PowerCategory>,
        seeded_categories: Keyed<PowerCategory>,
        seeded_sets: Keyed<BasePowerSet>,
        seeded_powers: Keyed<BasePower>,
        productive: nat,
    |
        #![trigger archetypes_matched(&decoded.archetypes, config, &decoded.power_categories, &matched), enh_categories_matched(&decoded.boost_sets, &decoded.powers, &allowed), powers_linked(&allowed, &kept, &sets), power_sets_linked(&sets, &matched, &categories), top_level_included(&categories, &sets, &allowed, &seeded_categories, &seeded_sets, &seeded_powers), clipped(productive + 1)]
        {
            &&& archetypes_matched(
                &decoded.archetypes,
                config,
                &decoded.power_categories,
                &matched,
            )
            &&& enh_categories_matched(&decoded.boost_sets, &decoded.powers, &allowed)
            &&& kept.wf() && kept@ == decoded.power_sets@.kept(
                passing(decoded.power_sets.keys(), config.filter_powersets.deep_view()),
                decoded.power_sets.keys().len(),
            )
            &&& powers_linked(&allowed, &kept, &sets)
            &&& power_sets_linked(&sets, &matched, &categories)
            &&& top_level_included(
                &categories,
                &sets,
                &allowed,
                &seeded_categories,
                &seeded_sets,
                &seeded_powers,
            )
            &&& closed(
                &decoded.villains,
                &decoded.villain_archetypes,
                &seeded_categories,
                &seeded_sets,
                &seeded_powers,
                &dictionary.power_categories,
                &dictionary.power_sets,
                &dictionary.powers,
                productive,
            )
            &&& dictionary.passes == clipped(productive + 1)
            &&& included_stay(
                &seeded_categories,
                &seeded_sets,
                &seeded_powers,
                &dictionary.power_categories,
                &dictionary.power_sets,
                &dictionary.powers,
            )
            &&& nothing_included(&categories, &sets, &allowed) && nominal(
                &categories,
                &sets,
                &allowed,
            ) ==> cascade(
                &dictionary.power_categories,
                &dictionary.power_sets,
                &dictionary.powers,
            )
        };
    lemma_reach(
        config,
        decoded,
        &matched,
        &allowed,
        &kept,
        &sets,
        &categories,
        &seeded_categories,
        &seeded_sets,
        &seeded_powers,
        c,
        s,
        p,
    );
    let t = choose|t: int|
        0 <= t < seeded_sets.values().len() && #[trigger] seeded_sets.keys()[t]
            == decoded.power_sets.keys()[s] && seeded_sets.values()[t].include_in_output;
    assert(dictionary.power_sets.keys()[t] == decoded.power_sets.keys()[s]);
    if !decoded.powers.values()[p].redirects_resolved {
        lemma_closed_twice(
            &decoded.villains,
            &decoded.villain_archetypes,
            &seeded_categories,
            &seeded_sets,
            &seeded_powers,
            &dictionary.power_categories,
            &dictionary.power_sets,
            &dictionary.powers,
            productive,
            p,
        );
    }
}

/// Whether the collections are sound.
pub open spec fn decoded_wf(decoded: &Decoded) -> bool {
    &&& decoded.archetypes.wf()
    &&& decoded.boost_sets.wf()
    &&& decoded.villain_archetypes.wf()
    &&& decoded.villains.wf()
    &&& decoded.power_categories.wf()
    &&& decoded.power_sets.wf()
    &&& decoded.powers.wf()
}

/// Merges the decoded collections into one dictionary, and resolves what
/// the powers of the top level refer to: see `merged`.
pub fn merge_dictionaries(config: &PowersConfig, decoded: Decoded) -> (dictionary: PowersDictionary)
    requires
        decoded_wf(&decoded),
    ensures
        merged(config, &decoded, &dictionary),
{
    reveal(merged);
    let Decoded {
        messages,
        attrib_names,
        archetypes,
        boost_sets,
        villain_archetypes,
        villains,
        power_categories,
        power_sets,
        powers,
    } = decoded;
    let ghost read_categories = power_categories;
    let ghost read_sets = power_sets;
    let ghost read_powers = powers;
    // match archetypes to power categories
    let mut power_categories = power_categories;
    match_archetypes_to_power_categories(&archetypes, config, &mut power_categories);
    let ghost matched = power_categories;
    // assign enhancement category names to individual powers
    let mut powers = powers;
    match_enh_categories_to_powers(&boost_sets, &mut powers);
    let ghost allowed = powers;
    // filter out power sets
    let mut power_sets = filter_power_sets(power_sets, &config.filter_powersets);
    let ghost kept = power_sets;
    // move powers into their power sets
    link_powers(&mut power_sets, &powers);
    let ghost sets = power_sets;
    // move power sets into their power categories
    link_power_sets(&mut power_categories, &power_sets);
    let ghost categories = power_categories;
    let set_count = power_sets.len();
    let power_count = powers.len();
    proof {
        sets.lemma_wf();
        allowed.lemma_wf();
        assert forall|c: int, k: int|
            0 <= c < categories.values().len() && 0 <= k
                < categories.values()[c].pp_power_sets@.len() implies #[trigger] categories.values()[c].pp_power_sets@[k]
            < sets.values().len() by {
            lemma_positions_valid(
                sets.keys(),
                matched.values()[c].ppch_power_set_names.deep_view(),
                matched.values()[c].ppch_power_set_names@.len(),
            );
        }
        assert forall|s: int, k: int|
            0 <= s < sets.values().len() && 0 <= k < sets.values()[s].pp_powers@.len() implies #[trigger] sets.values()[s].pp_powers@[k]
            < allowed.values().len() by {
            lemma_positions_valid(
                allowed.keys(),
                kept.values()[s].pp_power_names.deep_view(),
                kept.values()[s].pp_power_names@.len(),
            );
        }
    }
    // automatically include all power sets and powers linked to the top level
    include_top_level(&mut power_categories, &mut power_sets, &mut powers);
    let ghost seeded_categories = power_categories;
    let ghost seeded_sets = power_sets;
    let ghost seeded_powers = powers;
    proof {
        if nothing_included(&read_categories, &read_sets, &read_powers) && named_after_owners(
            &read_categories,
            &read_sets,
        ) {
            lemma_linked_fresh(
                &archetypes,
                &boost_sets,
                config,
                &read_categories,
                &read_sets,
                &read_powers,
                passing(read_sets.keys(), config.filter_powersets.deep_view()),
                &matched,
                &allowed,
                &kept,
                &sets,
                &categories,
            );
            lemma_linked_nominal(&allowed, &kept, &sets, &matched, &categories);
        }
        if nothing_included(&categories, &sets, &allowed) && nominal(&categories, &sets, &allowed) {
            lemma_cascade_seeded(
                &categories,
                &sets,
                &allowed,
                &seeded_categories,
                &seeded_sets,
                &seeded_powers,
            );
        }
    }
    let passes = resolve_references(
        &villains,
        &villain_archetypes,
        &mut power_categories,
        &mut power_sets,
        &mut powers,
    );
    let dictionary = PowersDictionary {
        power_categories,
        power_sets,
        powers,
        archetypes,
        villain_archetypes,
        villains,
        boost_sets,
        attrib_names,
        messages,
        passes,
    };
    proof {
        let productive = choose|productive: nat|
            passes == clipped(productive + 1) && #[trigger] closed(
                &villains,
                &villain_archetypes,
                &seeded_categories,
                &seeded_sets,
                &seeded_powers,
                &dictionary.power_categories,
                &dictionary.power_sets,
                &dictionary.powers,
                productive,
            );
        lemma_closed_keeps(
            &dictionary.villains,
            &dictionary.villain_archetypes,
            &seeded_categories,
            &seeded_sets,
            &seeded_powers,
            &dictionary.power_categories,
            &dictionary.power_sets,
            &dictionary.powers,
            productive,
        );
    }
    dictionary
}

/// Whether every power of `dictionary` that is included has its power set
/// and its category included with it, where the files call each power
/// after the power set that lists it and each power set after the
/// category that lists it.
pub open spec fn loaded_in_cascade(
    sources: &Sources,
    config: &PowersConfig,
    dictionary: &PowersDictionary,
) -> bool {
    exists|decoded: Decoded| #[trigger]
        sources_decoded(sources, config, &decoded) && (named_after_owners(
            &decoded.power_categories,
            &decoded.power_sets,
        ) ==> cascade(
            &dictionary.power_categories,
            &dictionary.power_sets,
            &dictionary.powers,
        ))
}

/// Reads the nine files and merges them into one dictionary of powers:
/// see `read_sources` and `merge_dictionaries`.
pub fn load_powers_dictionary(sources: Sources, config: &PowersConfig) -> (result: Result<
    PowersDictionary,
    LoadError,
>)
    ensures
        result matches Err(LoadError::Parse(e)) ==> e.error.wraps_cause(),
        match result {
            Ok(dictionary) => exists|decoded: Decoded|
                sources_decoded(&sources, config, &decoded) && decoded_wf(&decoded)
                    && #[trigger] merged(config, &decoded, &dictionary),
            Err(error) => sources_failed(&sources, config, error),
        },
        result matches Ok(dictionary) ==> loaded_in_cascade(&sources, config, &dictionary),
{
    let read = read_sources(sources, config);
    match read {
        Ok(decoded) => {
            let ghost held = decoded;
            let dictionary = merge_dictionaries(config, decoded);
            proof {
                reveal(merged);
                lemma_decoded_fresh(&sources, config, &held);
                assert(sources_decoded(&sources, config, &held) && (named_after_owners(
                    &held.power_categories,
                    &held.power_sets,
                ) ==> cascade(
                    &dictionary.power_categories,
                    &dictionary.power_sets,
                    &dictionary.powers,
                )));
            }
            let result = Ok(dictionary);
            assert(result matches Ok(d) && d == dictionary);
            result
        },
        Err(error) => Err(error),
    }
}

} // verus!
