//! The decoder of the file of villain definitions.

use super::cursor::Cursor;
use super::reader::{bin_read_enum, BinReadable, BinReader, WireEnum};
use super::{read_keyed, decoded_keyed, scan_keyed, Named, ParseResult};
use crate::structs::enums::{Gender, VillainRank};
use crate::structs::flags::{VillainDefFlags, VillainExclusion};
use crate::structs::villains::{PetCommandStrings, PowerNameRef, VillainDef, VillainLevelDef};
use crate::structs::keyed::Keyed;
use crate::structs::namekey::NameKey;
use crate::structs::strings::{MessageStore, StringPool};
use vstd::prelude::*;

verus! {

/// Reads all of the villain definitions in the file: a record that holds an array of
/// them. Each is kept under its name; one without a name is dropped.
pub fn serialized_read_villains(
    reader: &mut BinReader,
    strings: &StringPool,
    messages: &MessageStore,
) -> (result: ParseResult<Keyed<VillainDef>>)
    ensures
        final(reader)@ == scan_keyed::<VillainDef>(old(reader)@, strings),
        match result {
            Ok(table) => final(reader)@.ok() && table.wf() && decoded_keyed::<VillainDef>(
                old(reader)@,
                strings,
                messages,
                table@,
            ),
            Err(e) => final(reader)@.fault == Some(e.kind()) && e.wraps_cause(),
        },
{
    read_keyed::<VillainDef>(reader, strings, messages)
}

impl Named for VillainDef {
    open spec fn key(&self) -> Option<Seq<char>> {
        self.name.deep_view()
    }

    fn name_key(&self) -> (name: Option<&NameKey>) {
        self.name.as_ref()
    }
}

impl BinReadable for PowerNameRef {
    open spec fn scan(c: Cursor, strings: &StringPool) -> Cursor {
        let frame = c.frame();
        let p0 = c.advance(4);
        let p1 = p0.advance(4);
        let p2 = p1.advance(4);
        let p3 = p2.advance(4);
        let p4 = p3.advance(4);
        let p5 = p4.advance(4);
        let p6 = p5.advance(4);
        p6.close(frame)
    }

    open spec fn decoded(
        c: Cursor,
        strings: &StringPool,
        messages: &MessageStore,
        value: &PowerNameRef,
    ) -> bool {
        let p0 = c.advance(4);
        let p1 = p0.advance(4);
        let p2 = p1.advance(4);
        let p3 = p2.advance(4);
        let p4 = p3.advance(4);
        let p5 = p4.advance(4);
        &&& value.power_category.deep_view() == p0.name(strings)
        &&& value.power_set.deep_view() == p1.name(strings)
        &&& value.power.deep_view() == p2.name(strings)
        &&& value.level == p3.int32()
        &&& value.remove == p4.int32()
        &&& value.dont_set_stance == p5.int32()
        &&& value.def_level == 0
        &&& value.fixed_level == 0
    }

    fn read_value(reader: &mut BinReader, strings: &StringPool, messages: &MessageStore) -> (value:
        PowerNameRef) {
        let frame = reader.open_frame();
        let power_category = reader.read_name_key(strings);
        let power_set = reader.read_name_key(strings);
        let power = reader.read_name_key(strings);
        let level = reader.read_i32();
        let remove = reader.read_i32();
        let dont_set_stance = reader.read_i32();
        reader.close_frame(frame);
        PowerNameRef {
            power_category,
            power_set,
            power,
            level,
            def_level: 0,
            remove,
            fixed_level: 0,
            dont_set_stance,
        }
    }

    proof fn lemma_scan(c: Cursor, strings: &StringPool) {
    }
}

impl BinReadable for VillainLevelDef {
    open spec fn scan(c: Cursor, strings: &StringPool) -> Cursor {
        let frame = c.frame();
        let p0 = c.advance(4);
        let p1 = p0.advance(4);
        let p2 = p1.after_words();
        let p3 = p2.after_words();
        let p4 = p3.advance(4);
        p4.close(frame)
    }

    open spec fn decoded(
        c: Cursor,
        strings: &StringPool,
        messages: &MessageStore,
        value: &VillainLevelDef,
    ) -> bool {
        let p0 = c.advance(4);
        let p1 = p0.advance(4);
        let p2 = p1.after_words();
        let p3 = p2.after_words();
        &&& value.level == p0.int32()
        &&& value.display_names.deep_view() == p1.texts(strings, messages)
        &&& value.costumes.deep_view() == p2.texts(strings, messages)
        &&& value.experience == p3.int32()
    }

    fn read_value(reader: &mut BinReader, strings: &StringPool, messages: &MessageStore) -> (value:
        VillainLevelDef) {
        let frame = reader.open_frame();
        let level = reader.read_i32();
        let display_names = reader.read_pool_string_arr(strings, messages);
        let costumes = reader.read_pool_string_arr(strings, messages);
        let experience = reader.read_i32();
        reader.close_frame(frame);
        VillainLevelDef {
            level,
            experience,
            display_names,
            costumes,
        }
    }

    proof fn lemma_scan(c: Cursor, strings: &StringPool) {
    }
}

impl BinReadable for PetCommandStrings {
    open spec fn scan(c: Cursor, strings: &StringPool) -> Cursor {
        let frame = c.frame();
        let p0 = c.advance(4);
        let p1 = p0.after_words();
        let p2 = p1.after_words();
        let p3 = p2.after_words();
        let p4 = p3.after_words();
        let p5 = p4.after_words();
        let p6 = p5.after_words();
        let p7 = p6.after_words();
        let p8 = p7.after_words();
        let p9 = p8.after_words();
        let p10 = p9.after_words();
        let p11 = p10.after_words();
        p11.close(frame)
    }

    open spec fn decoded(
        c: Cursor,
        strings: &StringPool,
        messages: &MessageStore,
        value: &PetCommandStrings,
    ) -> bool {
        let p0 = c.advance(4);
        let p1 = p0.after_words();
        let p2 = p1.after_words();
        let p3 = p2.after_words();
        let p4 = p3.after_words();
        let p5 = p4.after_words();
        let p6 = p5.after_words();
        let p7 = p6.after_words();
        let p8 = p7.after_words();
        let p9 = p8.after_words();
        let p10 = p9.after_words();
        &&& value.ppch_passive.deep_view() == p0.texts(strings, messages)
        &&& value.ppch_defensive.deep_view() == p1.texts(strings, messages)
        &&& value.ppch_aggressive.deep_view() == p2.texts(strings, messages)
        &&& value.ppch_attack_target.deep_view() == p3.texts(strings, messages)
        &&& value.ppch_attack_no_target.deep_view() == p4.texts(strings, messages)
        &&& value.ppch_stay_here.deep_view() == p5.texts(strings, messages)
        &&& value.ppch_use_power.deep_view() == p6.texts(strings, messages)
        &&& value.ppch_use_power_none.deep_view() == p7.texts(strings, messages)
        &&& value.ppch_follow_me.deep_view() == p8.texts(strings, messages)
        &&& value.ppch_goto_spot.deep_view() == p9.texts(strings, messages)
        &&& value.ppch_dismiss.deep_view() == p10.texts(strings, messages)
    }

    fn read_value(reader: &mut BinReader, strings: &StringPool, messages: &MessageStore) -> (value:
        PetCommandStrings) {
        let frame = reader.open_frame();
        let ppch_passive = reader.read_pool_string_arr(strings, messages);
        let ppch_defensive = reader.read_pool_string_arr(strings, messages);
        let ppch_aggressive = reader.read_pool_string_arr(strings, messages);
        let ppch_attack_target = reader.read_pool_string_arr(strings, messages);
        let ppch_attack_no_target = reader.read_pool_string_arr(strings, messages);
        let ppch_stay_here = reader.read_pool_string_arr(strings, messages);
        let ppch_use_power = reader.read_pool_string_arr(strings, messages);
        let ppch_use_power_none = reader.read_pool_string_arr(strings, messages);
        let ppch_follow_me = reader.read_pool_string_arr(strings, messages);
        let ppch_goto_spot = reader.read_pool_string_arr(strings, messages);
        let ppch_dismiss = reader.read_pool_string_arr(strings, messages);
        reader.close_frame(frame);
        PetCommandStrings {
            ppch_passive,
            ppch_defensive,
            ppch_aggressive,
            ppch_attack_target,
            ppch_attack_no_target,
            ppch_stay_here,
            ppch_use_power,
            ppch_use_power_none,
            ppch_follow_me,
            ppch_goto_spot,
            ppch_dismiss,
        }
    }

    proof fn lemma_scan(c: Cursor, strings: &StringPool) {
    }
}

impl BinReadable for VillainDef {
    open spec fn scan(c: Cursor, strings: &StringPool) -> Cursor {
        let frame = c.frame();
        let p0 = c.advance(4);
        let p1 = p0.advance(4);
        let p2 = p1.advance(4);
        let p3 = p2.advance(4);
        let p4 = p3.advance(4);
        let p5 = p4.advance(4);
        let p6 = p5.advance(4);
        let p7 = p6.advance(4);
        let p8 = p7.advance(4);
        let p9 = Vec::<PowerNameRef>::scan(p8, strings);
        let p10 = Vec::<VillainLevelDef>::scan(p9, strings);
        let p11 = p10.advance(4);
        let p12 = p11.advance(4);
        let p13 = p12.advance(4);
        let p14 = p13.advance(4);
        let p15 = p14.advance(4);
        let p16 = p15.advance(4);
        let p17 = p16.advance(4);
        let p18 = p17.advance(4);
        let p19 = p18.advance(4);
        let p20 = p19.advance(4);
        let p21 = p20.after_words();
        let p22 = p21.advance(4);
        let p23 = p22.after_words();
        let p24 = p23.after_words();
        let p25 = p24.advance(4);
        let p26 = p25.after_words();
        let p27 = p26.advance(4);
        let p28 = p27.advance(4);
        let p29 = p28.advance(4);
        let p30 = Vec::<PetCommandStrings>::scan(p29, strings);
        let p31 = p30.advance(4);
        let p32 = p31.advance(4);
        let p33 = p32.advance(4);
        let p34 = p33.advance(4);
        let p35 = p34.advance(4);
        p35.close(frame)
    }

    open spec fn decoded(
        c: Cursor,
        strings: &StringPool,
        messages: &MessageStore,
        value: &VillainDef,
    ) -> bool {
        let p0 = c.advance(4);
        let p1 = p0.advance(4);
        let p2 = p1.advance(4);
        let p3 = p2.advance(4);
        let p4 = p3.advance(4);
        let p5 = p4.advance(4);
        let p6 = p5.advance(4);
        let p7 = p6.advance(4);
        let p8 = p7.advance(4);
        let p9 = Vec::<PowerNameRef>::scan(p8, strings);
        let p10 = Vec::<VillainLevelDef>::scan(p9, strings);
        let p11 = p10.advance(4);
        let p12 = p11.advance(4);
        let p13 = p12.advance(4);
        let p14 = p13.advance(4);
        let p15 = p14.advance(4);
        let p16 = p15.advance(4);
        let p17 = p16.advance(4);
        let p18 = p17.advance(4);
        let p19 = p18.advance(4);
        let p20 = p19.advance(4);
        let p21 = p20.after_words();
        let p22 = p21.advance(4);
        let p23 = p22.after_words();
        let p24 = p23.after_words();
        let p25 = p24.advance(4);
        let p26 = p25.after_words();
        let p27 = p26.advance(4);
        let p28 = p27.advance(4);
        let p29 = p28.advance(4);
        let p30 = Vec::<PetCommandStrings>::scan(p29, strings);
        let p31 = p30.advance(4);
        let p32 = p31.advance(4);
        let p33 = p32.advance(4);
        &&& value.name.deep_view() == p0.name(strings)
        &&& value.character_class_name.deep_view() == p1.name(strings)
        &&& value.gender == Gender::of_wire(p2.word())
        &&& value.description.deep_view() == p3.text(strings, messages)
        &&& value.group_description.deep_view() == p4.text(strings, messages)
        &&& value.display_class_name.deep_view() == p5.text(strings, messages)
        &&& value.ai_config.deep_view() == p6.text(strings, messages)
        &&& value.group == p7.int32()
        &&& Vec::<PowerNameRef>::decoded(p8, strings, messages, &value.powers)
        &&& Vec::<VillainLevelDef>::decoded(p9, strings, messages, &value.levels)
        &&& value.rank == VillainRank::of_wire(p10.word())
        &&& value.ally.deep_view() == p11.text(strings, messages)
        &&& value.gang.deep_view() == p12.text(strings, messages)
        &&& value.exclusion.bits == p13.word() & VillainExclusion::ALL
        &&& value.ignore_combat_mods == p14.flag()
        &&& value.copy_creator_mods == p15.flag()
        &&& value.ignore_reduction == p16.flag()
        &&& value.can_zone == p17.flag()
        &&& value.spawn_limit == p18.int32()
        &&& value.spawn_limit_mission == p19.int32()
        &&& value.additional_rewards.deep_view() == p20.texts(strings, messages)
        &&& value.favorite_weapon.deep_view() == p21.text(strings, messages)
        &&& value.skill_hp_rewards.deep_view() == p22.texts(strings, messages)
        &&& value.skill_status_rewards.deep_view() == p23.texts(strings, messages)
        &&& value.reward_scale == p24.float32()
        &&& value.power_tags.deep_view() == p25.texts(strings, messages)
        &&& value.special_pet_power.deep_view() == p26.text(strings, messages)
        &&& value.file_name.deep_view() == p27.text(strings, messages)
        &&& value.file_age == p28.word()
        &&& Vec::<PetCommandStrings>::decoded(p29, strings, messages, &value.pet_command_strings)
        &&& value.pet_visibility == p30.int32()
        &&& value.pet_commandability == p31.int32()
        &&& value.custom_badge_stat.deep_view() == p32.text(strings, messages)
        &&& value.flags.bits == p33.word() & VillainDefFlags::ALL
        &&& value.process_age == 0
    }

    fn read_value(reader: &mut BinReader, strings: &StringPool, messages: &MessageStore) -> (value:
        VillainDef) {
        let frame = reader.open_frame();
        let name = reader.read_name_key(strings);
        let character_class_name = reader.read_name_key(strings);
        let gender = bin_read_enum::<Gender>(reader);
        let description = reader.read_pool_string(strings, messages);
        let group_description = reader.read_pool_string(strings, messages);
        let display_class_name = reader.read_pool_string(strings, messages);
        let ai_config = reader.read_pool_string(strings, messages);
        let group = reader.read_i32();
        let ghost at_powers = reader@;
        let powers = Vec::<PowerNameRef>::read_value(reader, strings, messages);
        proof {
            Vec::<PowerNameRef>::lemma_scan(at_powers, strings);
        }
        let ghost at_levels = reader@;
        let levels = Vec::<VillainLevelDef>::read_value(reader, strings, messages);
        proof {
            Vec::<VillainLevelDef>::lemma_scan(at_levels, strings);
        }
        let rank = bin_read_enum::<VillainRank>(reader);
        let ally = reader.read_pool_string(strings, messages);
        let gang = reader.read_pool_string(strings, messages);
        let exclusion = VillainExclusion::from_bits_truncate(reader.read_u32());
        let ignore_combat_mods = reader.read_bool();
        let copy_creator_mods = reader.read_bool();
        let ignore_reduction = reader.read_bool();
        let can_zone = reader.read_bool();
        let spawn_limit = reader.read_i32();
        let spawn_limit_mission = reader.read_i32();
        let additional_rewards = reader.read_pool_string_arr(strings, messages);
        let favorite_weapon = reader.read_pool_string(strings, messages);
        let skill_hp_rewards = reader.read_pool_string_arr(strings, messages);
        let skill_status_rewards = reader.read_pool_string_arr(strings, messages);
        let reward_scale = reader.read_float();
        let power_tags = reader.read_pool_string_arr(strings, messages);
        let special_pet_power = reader.read_pool_string(strings, messages);
        let file_name = reader.read_pool_string(strings, messages);
        let file_age = reader.read_u32();
        let ghost at_pet_command_strings = reader@;
        let pet_command_strings = Vec::<PetCommandStrings>::read_value(reader, strings, messages);
        proof {
            Vec::<PetCommandStrings>::lemma_scan(at_pet_command_strings, strings);
        }
        let pet_visibility = reader.read_i32();
        let pet_commandability = reader.read_i32();
        let custom_badge_stat = reader.read_pool_string(strings, messages);
        let flags = VillainDefFlags::from_bits_truncate(reader.read_u32());
        reader.read_u32();
        reader.close_frame(frame);
        VillainDef {
            name,
            gender,
            character_class_name,
            description,
            group_description,
            display_class_name,
            ai_config,
            power_tags,
            additional_rewards,
            skill_hp_rewards,
            skill_status_rewards,
            ally,
            gang,
            reward_scale,
            exclusion,
            favorite_weapon,
            ignore_combat_mods,
            copy_creator_mods,
            spawn_limit,
            spawn_limit_mission,
            ignore_reduction,
            can_zone,
            custom_badge_stat,
            flags,
            rank,
            group,
            powers,
            levels,
            special_pet_power,
            pet_command_strings,
            pet_visibility,
            pet_commandability,
            file_name,
            file_age,
            process_age: 0,
        }
    }

    proof fn lemma_scan(c: Cursor, strings: &StringPool) {
        Vec::<PowerNameRef>::lemma_scan(c, strings);
        Vec::<VillainLevelDef>::lemma_scan(c, strings);
        Vec::<PetCommandStrings>::lemma_scan(c, strings);
    }
}

} // verus!
