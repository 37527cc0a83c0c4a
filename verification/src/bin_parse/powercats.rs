//! The decoder of the file of power categories.

use super::cursor::Cursor;
use super::reader::{BinReadable, BinReader};
use super::{read_keyed, decoded_keyed, scan_keyed, Named, ParseResult};
use crate::structs::powers::PowerCategory;
use crate::structs::keyed::Keyed;
use crate::structs::namekey::NameKey;
use crate::structs::strings::{MessageStore, StringPool};
use crate::structs::PrimarySecondary;
use vstd::prelude::*;

verus! {

/// Reads all of the power categories in the file: a record that holds an array of
/// them. Each is kept under its name; one without a name is dropped.
pub fn serialized_read_power_categories(
    reader: &mut BinReader,
    strings: &StringPool,
    messages: &MessageStore,
) -> (result: ParseResult<Keyed<PowerCategory>>)
    ensures
        final(reader)@ == scan_keyed::<PowerCategory>(old(reader)@, strings),
        match result {
            Ok(table) => final(reader)@.ok() && table.wf() && decoded_keyed::<PowerCategory>(
                old(reader)@,
                strings,
                messages,
                table@,
            ),
            Err(e) => final(reader)@.fault == Some(e.kind()) && e.wraps_cause(),
        },
{
    read_keyed::<PowerCategory>(reader, strings, messages)
}

impl Named for PowerCategory {
    open spec fn key(&self) -> Option<Seq<char>> {
        self.pch_name.deep_view()
    }

    fn name_key(&self) -> (name: Option<&NameKey>) {
        self.pch_name.as_ref()
    }
}

impl BinReadable for PowerCategory {
    open spec fn scan(c: Cursor, strings: &StringPool) -> Cursor {
        let frame = c.frame();
        let p0 = c.advance(4);
        let p1 = p0.advance(4);
        let p2 = p1.after_required_name(strings);
        let p3 = p2.advance(4);
        let p4 = p3.advance(4);
        let p5 = p4.advance(4);
        let p6 = p5.after_required_names(strings);
        p6.close(frame)
    }

    open spec fn decoded(
        c: Cursor,
        strings: &StringPool,
        messages: &MessageStore,
        value: &PowerCategory,
    ) -> bool {
        let p0 = c.advance(4);
        let p1 = p0.advance(4);
        let p2 = p1.after_required_name(strings);
        let p3 = p2.advance(4);
        let p4 = p3.advance(4);
        let p5 = p4.advance(4);
        &&& value.pch_source_file.deep_view() == p0.text(strings, messages)
        &&& value.pch_name.deep_view() == p1.name(strings)
        &&& value.pch_display_name.deep_view() == p2.text(strings, messages)
        &&& value.pch_display_help.deep_view() == p3.text(strings, messages)
        &&& value.pch_display_short_help.deep_view() == p4.text(strings, messages)
        &&& value.ppch_power_set_names.deep_view() == p5.names(strings)
        &&& value.pp_power_sets@.len() == 0
        &&& value.archetypes@.len() == 0
        &&& value.pri_sec == PrimarySecondary::Neither
        &&& !value.include_in_output
        &&& !value.top_level
    }

    fn read_value(reader: &mut BinReader, strings: &StringPool, messages: &MessageStore) -> (value:
        PowerCategory) {
        let frame = reader.open_frame();
        let pch_source_file = reader.read_pool_string(strings, messages);
        let pch_name = reader.read_required_name_key(strings);
        let pch_display_name = reader.read_pool_string(strings, messages);
        let pch_display_help = reader.read_pool_string(strings, messages);
        let pch_display_short_help = reader.read_pool_string(strings, messages);
        let ppch_power_set_names = reader.read_required_name_key_arr(strings);
        reader.close_frame(frame);
        PowerCategory {
            pch_source_file,
            pch_name,
            pch_display_name,
            pch_display_help,
            pch_display_short_help,
            ppch_power_set_names,
            pp_power_sets: Vec::new(),
            archetypes: Vec::new(),
            pri_sec: PrimarySecondary::Neither,
            include_in_output: false,
            top_level: false,
        }
    }

    proof fn lemma_scan(c: Cursor, strings: &StringPool) {
    }
}

} // verus!
