//! The decoder of the file of power sets.

use super::cursor::Cursor;
use super::reader::{bin_read_enum, BinReadable, BinReader, WireEnum};
use super::{read_keyed, decoded_keyed, scan_keyed, Named, ParseResult};
use crate::structs::enums::{PowerSystem, ShowPowerSetting};
use crate::structs::powers::BasePowerSet;
use crate::structs::keyed::Keyed;
use crate::structs::namekey::NameKey;
use crate::structs::strings::{MessageStore, StringPool};
use vstd::prelude::*;

verus! {

/// Reads all of the power sets in the file: a record that holds an array of
/// them. Each is kept under its name; one without a name is dropped.
pub fn serialized_read_powersets(
    reader: &mut BinReader,
    strings: &StringPool,
    messages: &MessageStore,
) -> (result: ParseResult<Keyed<BasePowerSet>>)
    ensures
        final(reader)@ == scan_keyed::<BasePowerSet>(old(reader)@, strings),
        match result {
            Ok(table) => final(reader)@.ok() && table.wf() && decoded_keyed::<BasePowerSet>(
                old(reader)@,
                strings,
                messages,
                table@,
            ),
            Err(e) => final(reader)@.fault == Some(e.kind()) && e.wraps_cause(),
        },
{
    read_keyed::<BasePowerSet>(reader, strings, messages)
}

impl Named for BasePowerSet {
    open spec fn key(&self) -> Option<Seq<char>> {
        self.pch_full_name.deep_view()
    }

    fn name_key(&self) -> (name: Option<&NameKey>) {
        self.pch_full_name.as_ref()
    }
}

impl BinReadable for BasePowerSet {
    open spec fn scan(c: Cursor, strings: &StringPool) -> Cursor {
        let frame = c.frame();
        let p0 = c.advance(4);
        let p1 = p0.advance(4);
        let p2 = p1.advance(4);
        let p3 = p2.advance(4);
        let p4 = p3.advance(4);
        let p5 = p4.advance(4);
        let p6 = p5.advance(4);
        let p7 = p6.advance(4);
        let p8 = p7.advance(4);
        let p9 = p8.advance(4);
        let p10 = p9.after_words();
        let p11 = p10.after_words();
        let p12 = p11.advance(4);
        let p13 = p12.advance(4);
        let p14 = p13.advance(4);
        let p15 = p14.after_words();
        let p16 = p15.advance(4);
        let p17 = p16.advance(4);
        let p18 = p17.advance(4);
        let p19 = p18.advance(4);
        let p20 = p19.advance(4);
        let p21 = p20.after_words();
        let p22 = p21.after_required_names(strings);
        let p23 = Vec::<i32>::scan(p22, strings);
        let p24 = Vec::<i32>::scan(p23, strings);
        let p25 = Vec::<i32>::scan(p24, strings);
        let p26 = Vec::<i32>::scan(p25, strings);
        let p27 = Vec::<i32>::scan(p26, strings);
        let p28 = Vec::<i32>::scan(p27, strings);
        let p29 = p28.advance(4);
        p29.close(frame)
    }

    open spec fn decoded(
        c: Cursor,
        strings: &StringPool,
        messages: &MessageStore,
        value: &BasePowerSet,
    ) -> bool {
        let p0 = c.advance(4);
        let p1 = p0.advance(4);
        let p2 = p1.advance(4);
        let p3 = p2.advance(4);
        let p4 = p3.advance(4);
        let p5 = p4.advance(4);
        let p6 = p5.advance(4);
        let p7 = p6.advance(4);
        let p8 = p7.advance(4);
        let p9 = p8.advance(4);
        let p10 = p9.after_words();
        let p11 = p10.after_words();
        let p12 = p11.advance(4);
        let p13 = p12.advance(4);
        let p14 = p13.advance(4);
        let p15 = p14.after_words();
        let p16 = p15.advance(4);
        let p17 = p16.advance(4);
        let p18 = p17.advance(4);
        let p19 = p18.advance(4);
        let p20 = p19.advance(4);
        let p21 = p20.after_words();
        let p22 = p21.after_required_names(strings);
        let p23 = Vec::<i32>::scan(p22, strings);
        let p24 = Vec::<i32>::scan(p23, strings);
        let p25 = Vec::<i32>::scan(p24, strings);
        let p26 = Vec::<i32>::scan(p25, strings);
        let p27 = Vec::<i32>::scan(p26, strings);
        let p28 = Vec::<i32>::scan(p27, strings);
        &&& value.pch_source_file.deep_view() == p0.text(strings, messages)
        &&& value.pch_full_name.deep_view() == p1.name(strings)
        &&& value.pch_name.deep_view() == p2.text(strings, messages)
        &&& value.e_system == PowerSystem::of_wire(p3.word())
        &&& value.b_is_shared == p4.flag()
        &&& value.pch_display_name.deep_view() == p5.text(strings, messages)
        &&& value.pch_display_help.deep_view() == p6.text(strings, messages)
        &&& value.pch_display_short_help.deep_view() == p7.text(strings, messages)
        &&& value.pch_icon_name.deep_view() == p8.text(strings, messages)
        &&& value.ppch_costume_keys.deep_view() == p9.texts(strings, messages)
        &&& value.ppch_costume_parts.deep_view() == p10.texts(strings, messages)
        &&& value.pch_account_requires.deep_view() == p11.text(strings, messages)
        &&& value.pch_account_tooltip.deep_view() == p12.text(strings, messages)
        &&& value.pch_account_product.deep_view() == p13.text(strings, messages)
        &&& value.ppch_set_buy_requires.deep_view() == p14.texts(strings, messages)
        &&& value.pch_set_buy_requires_failed_text.deep_view() == p15.text(strings, messages)
        &&& value.e_show_in_inventory == ShowPowerSetting::of_wire(p16.word())
        &&& value.b_show_in_manage == p17.flag()
        &&& value.b_show_in_info == p18.flag()
        &&& value.i_specialize_at == p19.int32()
        &&& value.pp_specialize_requires.deep_view() == p20.texts(strings, messages)
        &&& value.pp_power_names.deep_view() == p21.names(strings)
        &&& Vec::<i32>::decoded(p22, strings, messages, &value.pi_available)
        &&& Vec::<i32>::decoded(p23, strings, messages, &value.pi_ai_max_level)
        &&& Vec::<i32>::decoded(p24, strings, messages, &value.pi_ai_min_rank_con)
        &&& Vec::<i32>::decoded(p25, strings, messages, &value.pi_ai_max_rank_con)
        &&& Vec::<i32>::decoded(p26, strings, messages, &value.pi_min_difficulty)
        &&& Vec::<i32>::decoded(p27, strings, messages, &value.pi_max_difficulty)
        &&& value.i_force_level_bought == p28.int32()
        &&& value.pp_powers@.len() == 0
        &&& !value.include_in_output
    }

    fn read_value(reader: &mut BinReader, strings: &StringPool, messages: &MessageStore) -> (value:
        BasePowerSet) {
        let frame = reader.open_frame();
        let pch_source_file = reader.read_pool_string(strings, messages);
        let pch_full_name = reader.read_name_key(strings);
        let pch_name = reader.read_pool_string(strings, messages);
        let e_system = bin_read_enum::<PowerSystem>(reader);
        let b_is_shared = reader.read_bool();
        let pch_display_name = reader.read_pool_string(strings, messages);
        let pch_display_help = reader.read_pool_string(strings, messages);
        let pch_display_short_help = reader.read_pool_string(strings, messages);
        let pch_icon_name = reader.read_pool_string(strings, messages);
        let ppch_costume_keys = reader.read_pool_string_arr(strings, messages);
        let ppch_costume_parts = reader.read_pool_string_arr(strings, messages);
        let pch_account_requires = reader.read_pool_string(strings, messages);
        let pch_account_tooltip = reader.read_pool_string(strings, messages);
        let pch_account_product = reader.read_pool_string(strings, messages);
        let ppch_set_buy_requires = reader.read_pool_string_arr(strings, messages);
        let pch_set_buy_requires_failed_text = reader.read_pool_string(strings, messages);
        let e_show_in_inventory = bin_read_enum::<ShowPowerSetting>(reader);
        let b_show_in_manage = reader.read_bool();
        let b_show_in_info = reader.read_bool();
        let i_specialize_at = reader.read_i32();
        let pp_specialize_requires = reader.read_pool_string_arr(strings, messages);
        let pp_power_names = reader.read_required_name_key_arr(strings);
        let ghost at_pi_available = reader@;
        let pi_available = Vec::<i32>::read_value(reader, strings, messages);
        proof {
            Vec::<i32>::lemma_scan(at_pi_available, strings);
        }
        let ghost at_pi_ai_max_level = reader@;
        let pi_ai_max_level = Vec::<i32>::read_value(reader, strings, messages);
        proof {
            Vec::<i32>::lemma_scan(at_pi_ai_max_level, strings);
        }
        let ghost at_pi_ai_min_rank_con = reader@;
        let pi_ai_min_rank_con = Vec::<i32>::read_value(reader, strings, messages);
        proof {
            Vec::<i32>::lemma_scan(at_pi_ai_min_rank_con, strings);
        }
        let ghost at_pi_ai_max_rank_con = reader@;
        let pi_ai_max_rank_con = Vec::<i32>::read_value(reader, strings, messages);
        proof {
            Vec::<i32>::lemma_scan(at_pi_ai_max_rank_con, strings);
        }
        let ghost at_pi_min_difficulty = reader@;
        let pi_min_difficulty = Vec::<i32>::read_value(reader, strings, messages);
        proof {
            Vec::<i32>::lemma_scan(at_pi_min_difficulty, strings);
        }
        let ghost at_pi_max_difficulty = reader@;
        let pi_max_difficulty = Vec::<i32>::read_value(reader, strings, messages);
        proof {
            Vec::<i32>::lemma_scan(at_pi_max_difficulty, strings);
        }
        let i_force_level_bought = reader.read_i32();
        reader.close_frame(frame);
        BasePowerSet {
            pch_name,
            pch_full_name,
            pch_display_name,
            pch_display_help,
            pch_display_short_help,
            pch_icon_name,
            ppch_costume_keys,
            ppch_costume_parts,
            e_system,
            b_is_shared,
            e_show_in_inventory,
            b_show_in_manage,
            b_show_in_info,
            i_specialize_at,
            pp_specialize_requires,
            pch_account_requires,
            pch_account_tooltip,
            pch_account_product,
            ppch_set_buy_requires,
            pch_set_buy_requires_failed_text,
            pp_powers: Vec::new(),
            pp_power_names,
            pi_available,
            pi_ai_max_level,
            pi_ai_min_rank_con,
            pi_ai_max_rank_con,
            pi_min_difficulty,
            pi_max_difficulty,
            pch_source_file,
            i_force_level_bought,
            include_in_output: false,
        }
    }

    proof fn lemma_scan(c: Cursor, strings: &StringPool) {
        Vec::<i32>::lemma_scan(c, strings);
    }
}

} // verus!
