//! The decoder of the file of enhancement sets.

use super::cursor::Cursor;
use super::reader::{BinReadable, BinReader};
use super::{read_keyed, decoded_keyed, scan_keyed, Named, ParseResult};
use crate::structs::boosts::{BoostList, BoostSet, BoostSetBonus};
use crate::structs::keyed::Keyed;
use crate::structs::namekey::NameKey;
use crate::structs::strings::{MessageStore, StringPool};
use vstd::prelude::*;

verus! {

/// Reads all of the enhancement sets in the file: a record that holds an array of
/// them. Each is kept under its name; one without a name is dropped.
pub fn serialized_read_boost_sets(
    reader: &mut BinReader,
    strings: &StringPool,
    messages: &MessageStore,
) -> (result: ParseResult<Keyed<BoostSet>>)
    ensures
        final(reader)@ == scan_keyed::<BoostSet>(old(reader)@, strings),
        match result {
            Ok(table) => final(reader)@.ok() && table.wf() && decoded_keyed::<BoostSet>(
                old(reader)@,
                strings,
                messages,
                table@,
            ),
            Err(e) => final(reader)@.fault == Some(e.kind()) && e.wraps_cause(),
        },
{
    read_keyed::<BoostSet>(reader, strings, messages)
}

impl Named for BoostSet {
    open spec fn key(&self) -> Option<Seq<char>> {
        self.pch_name.deep_view()
    }

    fn name_key(&self) -> (name: Option<&NameKey>) {
        self.pch_name.as_ref()
    }
}

impl BinReadable for BoostList {
    open spec fn scan(c: Cursor, strings: &StringPool) -> Cursor {
        let frame = c.frame();
        let p0 = c.advance(4);
        let p1 = Vec::<NameKey>::scan(p0, strings);
        p1.close(frame)
    }

    open spec fn decoded(
        c: Cursor,
        strings: &StringPool,
        messages: &MessageStore,
        value: &BoostList,
    ) -> bool {
        let p0 = c.advance(4);
        &&& Vec::<NameKey>::decoded(p0, strings, messages, &value.ppch_boosts)
    }

    fn read_value(reader: &mut BinReader, strings: &StringPool, messages: &MessageStore) -> (value:
        BoostList) {
        let frame = reader.open_frame();
        let ghost at_ppch_boosts = reader@;
        let ppch_boosts = Vec::<NameKey>::read_value(reader, strings, messages);
        proof {
            Vec::<NameKey>::lemma_scan(at_ppch_boosts, strings);
        }
        reader.close_frame(frame);
        BoostList {
            ppch_boosts,
        }
    }

    proof fn lemma_scan(c: Cursor, strings: &StringPool) {
        Vec::<NameKey>::lemma_scan(c, strings);
    }
}

impl BinReadable for BoostSetBonus {
    open spec fn scan(c: Cursor, strings: &StringPool) -> Cursor {
        let frame = c.frame();
        let p0 = c.advance(4);
        let p1 = p0.advance(4);
        let p2 = p1.advance(4);
        let p3 = p2.advance(4);
        let p4 = p3.after_words();
        let p5 = Vec::<NameKey>::scan(p4, strings);
        let p6 = p5.after_padded_pascal();
        p6.close(frame)
    }

    open spec fn decoded(
        c: Cursor,
        strings: &StringPool,
        messages: &MessageStore,
        value: &BoostSetBonus,
    ) -> bool {
        let p0 = c.advance(4);
        let p1 = p0.advance(4);
        let p2 = p1.advance(4);
        let p3 = p2.advance(4);
        let p4 = p3.after_words();
        let p5 = Vec::<NameKey>::scan(p4, strings);
        &&& value.pch_display_name.deep_view() == p0.text(strings, messages)
        &&& value.i_min_boosts == p1.int32()
        &&& value.i_max_boosts == p2.int32()
        &&& value.ppch_requires.deep_view() == p3.texts(strings, messages)
        &&& Vec::<NameKey>::decoded(p4, strings, messages, &value.ppch_auto_powers)
        &&& value.pch_bonus_power.deep_view() == (if p5.pascal().len() == 0 {
            None
        } else {
            Some(p5.pascal())
        })
    }

    fn read_value(reader: &mut BinReader, strings: &StringPool, messages: &MessageStore) -> (value:
        BoostSetBonus) {
        let frame = reader.open_frame();
        let pch_display_name = reader.read_pool_string(strings, messages);
        let i_min_boosts = reader.read_i32();
        let i_max_boosts = reader.read_i32();
        let ppch_requires = reader.read_pool_string_arr(strings, messages);
        let ghost at_ppch_auto_powers = reader@;
        let ppch_auto_powers = Vec::<NameKey>::read_value(reader, strings, messages);
        proof {
            Vec::<NameKey>::lemma_scan(at_ppch_auto_powers, strings);
        }
        let bonus_power = reader.read_pascal_string_with_padding();
        let pch_bonus_power = if bonus_power.as_str().is_empty() {
            None
        } else {
            Some(NameKey::new(bonus_power.as_str()))
        };
        reader.close_frame(frame);
        BoostSetBonus {
            pch_display_name,
            i_min_boosts,
            i_max_boosts,
            ppch_requires,
            ppch_auto_powers,
            pch_bonus_power,
        }
    }

    proof fn lemma_scan(c: Cursor, strings: &StringPool) {
        Vec::<NameKey>::lemma_scan(c, strings);
    }
}

impl BinReadable for BoostSet {
    open spec fn scan(c: Cursor, strings: &StringPool) -> Cursor {
        let frame = c.frame();
        let p0 = c.advance(4);
        let p1 = p0.advance(4);
        let p2 = p1.advance(4);
        let p3 = p2.advance(4);
        let p4 = p3.after_words();
        let p5 = Vec::<NameKey>::scan(p4, strings);
        let p6 = Vec::<BoostList>::scan(p5, strings);
        let p7 = Vec::<BoostSetBonus>::scan(p6, strings);
        let p8 = p7.advance(4);
        let p9 = p8.advance(4);
        let p10 = p9.advance(4);
        p10.close(frame)
    }

    open spec fn decoded(
        c: Cursor,
        strings: &StringPool,
        messages: &MessageStore,
        value: &BoostSet,
    ) -> bool {
        let p0 = c.advance(4);
        let p1 = p0.advance(4);
        let p2 = p1.advance(4);
        let p3 = p2.advance(4);
        let p4 = p3.after_words();
        let p5 = Vec::<NameKey>::scan(p4, strings);
        let p6 = Vec::<BoostList>::scan(p5, strings);
        let p7 = Vec::<BoostSetBonus>::scan(p6, strings);
        let p8 = p7.advance(4);
        let p9 = p8.advance(4);
        &&& value.pch_name.deep_view() == p0.name(strings)
        &&& value.pch_display_name.deep_view() == p1.text(strings, messages)
        &&& value.pch_group_name.deep_view() == p2.text(strings, messages)
        &&& value.ppch_conversion_groups.deep_view() == p3.texts(strings, messages)
        &&& Vec::<NameKey>::decoded(p4, strings, messages, &value.ppch_powers)
        &&& Vec::<BoostList>::decoded(p5, strings, messages, &value.pp_boost_lists)
        &&& Vec::<BoostSetBonus>::decoded(p6, strings, messages, &value.pp_bonuses)
        &&& value.i_min_level == p7.int32()
        &&& value.i_max_level == p8.int32()
        &&& value.pch_store_product.deep_view() == p9.text(strings, messages)
    }

    fn read_value(reader: &mut BinReader, strings: &StringPool, messages: &MessageStore) -> (value:
        BoostSet) {
        let frame = reader.open_frame();
        let pch_name = reader.read_name_key(strings);
        let pch_display_name = reader.read_pool_string(strings, messages);
        let pch_group_name = reader.read_pool_string(strings, messages);
        let ppch_conversion_groups = reader.read_pool_string_arr(strings, messages);
        let ghost at_ppch_powers = reader@;
        let ppch_powers = Vec::<NameKey>::read_value(reader, strings, messages);
        proof {
            Vec::<NameKey>::lemma_scan(at_ppch_powers, strings);
        }
        let ghost at_pp_boost_lists = reader@;
        let pp_boost_lists = Vec::<BoostList>::read_value(reader, strings, messages);
        proof {
            Vec::<BoostList>::lemma_scan(at_pp_boost_lists, strings);
        }
        let ghost at_pp_bonuses = reader@;
        let pp_bonuses = Vec::<BoostSetBonus>::read_value(reader, strings, messages);
        proof {
            Vec::<BoostSetBonus>::lemma_scan(at_pp_bonuses, strings);
        }
        let i_min_level = reader.read_i32();
        let i_max_level = reader.read_i32();
        let pch_store_product = reader.read_pool_string(strings, messages);
        reader.close_frame(frame);
        BoostSet {
            pch_name,
            pch_display_name,
            pch_group_name,
            ppch_conversion_groups,
            ppch_powers,
            pp_boost_lists,
            pp_bonuses,
            i_min_level,
            i_max_level,
            pch_store_product,
        }
    }

    proof fn lemma_scan(c: Cursor, strings: &StringPool) {
        Vec::<NameKey>::lemma_scan(c, strings);
        Vec::<BoostList>::lemma_scan(c, strings);
        Vec::<BoostSetBonus>::lemma_scan(c, strings);
    }
}

} // verus!
