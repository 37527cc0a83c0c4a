//! The decoder of the typed parameter blocks of attribute modifiers.
#![allow(non_camel_case_types)]

use super::cursor::Cursor;
use super::reader::{BinReadable, BinReader};
use super::ParseErrorKind;
use crate::structs::params::{AttribModParam, AttribModParam_Behavior, AttribModParam_Costume, AttribModParam_EffectFilter, AttribModParam_EntCreate, AttribModParam_Param11, AttribModParam_Phase, AttribModParam_Power, AttribModParam_Reward, AttribModParam_SZEValue, AttribModParam_Teleport, AttribModParam_Token};
use crate::structs::strings::{MessageStore, StringPool};
use vstd::prelude::*;

verus! {

/// The cursor after the parameter block of an attribute modifier at `c`: a
/// number that tells the layout, zero for no block; then the block as a
/// record of that layout. A number that tells no known layout is a fault.
pub open spec fn scan_params(c: Cursor, strings: &StringPool) -> Cursor {
    let opened = c.advance(4);
    let frame = opened.frame();
    let body = opened.advance(4);
    let end = match c.word() {
        1 => AttribModParam_Costume::scan(body, strings),
        2 => AttribModParam_Reward::scan(body, strings),
        3 => AttribModParam_EntCreate::scan(body, strings),
        4 => AttribModParam_Power::scan(body, strings),
        5 => AttribModParam_Phase::scan(body, strings),
        6 => AttribModParam_Teleport::scan(body, strings),
        7 => AttribModParam_Behavior::scan(body, strings),
        8 => AttribModParam_SZEValue::scan(body, strings),
        9 => AttribModParam_Token::scan(body, strings),
        10 => AttribModParam_EffectFilter::scan(body, strings),
        11 => AttribModParam_Param11::scan(body, strings),
        _ => body.fail(ParseErrorKind::UnknownParameterBlock { struct_id: c.word() }),
    };
    if c.word() == 0 {
        opened
    } else {
        end.close(frame)
    }
}

/// Whether `value` is the parameter block encoded at `c`.
pub open spec fn decoded_params(
    c: Cursor,
    strings: &StringPool,
    messages: &MessageStore,
    value: &Option<AttribModParam>,
) -> bool {
    let body = c.advance(4).advance(4);
    match value {
        None => c.word() == 0,
        Some(AttribModParam::Costume(p)) => c.word() == 1 && AttribModParam_Costume::decoded(
            body,
            strings,
            messages,
            p,
        ),
        Some(AttribModParam::Reward(p)) => c.word() == 2 && AttribModParam_Reward::decoded(
            body,
            strings,
            messages,
            p,
        ),
        Some(AttribModParam::EntCreate(p)) => c.word() == 3 && AttribModParam_EntCreate::decoded(
            body,
            strings,
            messages,
            p,
        ),
        Some(AttribModParam::Power(p)) => c.word() == 4 && AttribModParam_Power::decoded(
            body,
            strings,
            messages,
            p,
        ),
        Some(AttribModParam::Phase(p)) => c.word() == 5 && AttribModParam_Phase::decoded(
            body,
            strings,
            messages,
            p,
        ),
        Some(AttribModParam::Teleport(p)) => c.word() == 6 && AttribModParam_Teleport::decoded(
            body,
            strings,
            messages,
            p,
        ),
        Some(AttribModParam::Behavior(p)) => c.word() == 7 && AttribModParam_Behavior::decoded(
            body,
            strings,
            messages,
            p,
        ),
        Some(AttribModParam::SZEValue(p)) => c.word() == 8 && AttribModParam_SZEValue::decoded(
            body,
            strings,
            messages,
            p,
        ),
        Some(AttribModParam::Token(p)) => c.word() == 9 && AttribModParam_Token::decoded(
            body,
            strings,
            messages,
            p,
        ),
        Some(AttribModParam::EffectFilter(p)) => c.word() == 10
            && AttribModParam_EffectFilter::decoded(body, strings, messages, p),
        Some(AttribModParam::Param11(p)) => c.word() == 11 && AttribModParam_Param11::decoded(
            body,
            strings,
            messages,
            p,
        ),
    }
}

/// A fault is kept through a parameter block.
pub proof fn lemma_scan_params(c: Cursor, strings: &StringPool)
    ensures
        !c.ok() ==> scan_params(c, strings) == c,
{
    AttribModParam_Costume::lemma_scan(c, strings);
    AttribModParam_Reward::lemma_scan(c, strings);
    AttribModParam_EntCreate::lemma_scan(c, strings);
    AttribModParam_Power::lemma_scan(c, strings);
    AttribModParam_Phase::lemma_scan(c, strings);
    AttribModParam_Teleport::lemma_scan(c, strings);
    AttribModParam_Behavior::lemma_scan(c, strings);
    AttribModParam_SZEValue::lemma_scan(c, strings);
    AttribModParam_Token::lemma_scan(c, strings);
    AttribModParam_EffectFilter::lemma_scan(c, strings);
    AttribModParam_Param11::lemma_scan(c, strings);
}

/// Reads the parameter block of an attribute modifier.
pub fn read_attrib_mod_params(
    reader: &mut BinReader,
    strings: &StringPool,
    messages: &MessageStore,
) -> (value: Option<AttribModParam>)
    ensures
        final(reader)@ == scan_params(old(reader)@, strings),
        final(reader)@.ok() ==> decoded_params(old(reader)@, strings, messages, &value),
{
    let struct_id = reader.read_u32();
    if struct_id == 0 {
        return None;
    }
    let frame = reader.open_frame();
    proof {
        lemma_scan_params(old(reader)@, strings);
    }
    let value = match struct_id {
        1 => Some(
            AttribModParam::Costume(AttribModParam_Costume::read_value(reader, strings, messages)),
        ),
        2 => Some(
            AttribModParam::Reward(AttribModParam_Reward::read_value(reader, strings, messages)),
        ),
        3 => Some(
            AttribModParam::EntCreate(
                AttribModParam_EntCreate::read_value(reader, strings, messages),
            ),
        ),
        4 => Some(
            AttribModParam::Power(AttribModParam_Power::read_value(reader, strings, messages)),
        ),
        5 => Some(
            AttribModParam::Phase(AttribModParam_Phase::read_value(reader, strings, messages)),
        ),
        6 => Some(
            AttribModParam::Teleport(
                AttribModParam_Teleport::read_value(reader, strings, messages),
            ),
        ),
        7 => Some(
            AttribModParam::Behavior(
                AttribModParam_Behavior::read_value(reader, strings, messages),
            ),
        ),
        8 => Some(
            AttribModParam::SZEValue(
                AttribModParam_SZEValue::read_value(reader, strings, messages),
            ),
        ),
        9 => Some(
            AttribModParam::Token(AttribModParam_Token::read_value(reader, strings, messages)),
        ),
        10 => Some(
            AttribModParam::EffectFilter(
                AttribModParam_EffectFilter::read_value(reader, strings, messages),
            ),
        ),
        11 => Some(
            AttribModParam::Param11(AttribModParam_Param11::read_value(reader, strings, messages)),
        ),
        _ => {
            reader.fail(ParseErrorKind::UnknownParameterBlock { struct_id });
            None
        },
    };
    reader.close_frame(frame);
    value
}

impl BinReadable for AttribModParam_Costume {
    open spec fn scan(c: Cursor, strings: &StringPool) -> Cursor {
        let p0 = c.advance(4);
        let p1 = p0.advance(4);
        p1
    }

    open spec fn decoded(
        c: Cursor,
        strings: &StringPool,
        messages: &MessageStore,
        value: &AttribModParam_Costume,
    ) -> bool {
        let p0 = c.advance(4);
        &&& value.pch_costume_name.deep_view() == c.text(strings, messages)
        &&& value.i_priority == p0.int32()
    }

    fn read_value(reader: &mut BinReader, strings: &StringPool, messages: &MessageStore) -> (value:
        AttribModParam_Costume) {
        let pch_costume_name = reader.read_pool_string(strings, messages);
        let i_priority = reader.read_i32();
        AttribModParam_Costume {
            pch_costume_name,
            i_priority,
        }
    }

    proof fn lemma_scan(c: Cursor, strings: &StringPool) {
    }
}

impl BinReadable for AttribModParam_Reward {
    open spec fn scan(c: Cursor, strings: &StringPool) -> Cursor {
        let p0 = c.after_words();
        p0
    }

    open spec fn decoded(
        c: Cursor,
        strings: &StringPool,
        messages: &MessageStore,
        value: &AttribModParam_Reward,
    ) -> bool {
        &&& value.ppch_rewards.deep_view() == c.texts(strings, messages)
    }

    fn read_value(reader: &mut BinReader, strings: &StringPool, messages: &MessageStore) -> (value:
        AttribModParam_Reward) {
        let ppch_rewards = reader.read_pool_string_arr(strings, messages);
        AttribModParam_Reward {
            ppch_rewards,
        }
    }

    proof fn lemma_scan(c: Cursor, strings: &StringPool) {
    }
}

impl BinReadable for AttribModParam_EntCreate {
    open spec fn scan(c: Cursor, strings: &StringPool) -> Cursor {
        let p0 = c.advance(4);
        let p1 = p0.advance(4);
        let p2 = p1.advance(4);
        let p3 = p2.advance(4);
        let p4 = p3.advance(4);
        let p5 = p4.advance(4);
        let p6 = p5.after_words();
        let p7 = p6.after_words();
        let p8 = p7.after_words();
        let p9 = p8.after_words();
        p9
    }

    open spec fn decoded(
        c: Cursor,
        strings: &StringPool,
        messages: &MessageStore,
        value: &AttribModParam_EntCreate,
    ) -> bool {
        let p0 = c.advance(4);
        let p1 = p0.advance(4);
        let p2 = p1.advance(4);
        let p3 = p2.advance(4);
        let p4 = p3.advance(4);
        let p5 = p4.advance(4);
        let p6 = p5.after_words();
        let p7 = p6.after_words();
        let p8 = p7.after_words();
        &&& value.pch_entity_def.deep_view() == c.name(strings)
        &&& value.pch_class.deep_view() == p0.text(strings, messages)
        &&& value.pch_costume_name.deep_view() == p1.text(strings, messages)
        &&& value.pch_display_name.deep_view() == p2.text(strings, messages)
        &&& value.pch_priority_list.deep_view() == p3.text(strings, messages)
        &&& value.pch_ai_config.deep_view() == p4.text(strings, messages)
        &&& value.ppch_category_names.deep_view() == p5.names(strings)
        &&& value.ppch_powerset_names.deep_view() == p6.names(strings)
        &&& value.ppch_power_names.deep_view() == p7.names(strings)
        &&& value.redirects.deep_view() == p8.names(strings)
        &&& value.villain_def is None
        &&& value.power_refs@.len() == 0
        &&& !value.resolved
    }

    fn read_value(reader: &mut BinReader, strings: &StringPool, messages: &MessageStore) -> (value:
        AttribModParam_EntCreate) {
        let pch_entity_def = reader.read_name_key(strings);
        let pch_class = reader.read_pool_string(strings, messages);
        let pch_costume_name = reader.read_pool_string(strings, messages);
        let pch_display_name = reader.read_pool_string(strings, messages);
        let pch_priority_list = reader.read_pool_string(strings, messages);
        let pch_ai_config = reader.read_pool_string(strings, messages);
        let ppch_category_names = reader.read_name_key_arr(strings);
        let ppch_powerset_names = reader.read_name_key_arr(strings);
        let ppch_power_names = reader.read_name_key_arr(strings);
        let redirects = reader.read_name_key_arr(strings);
        AttribModParam_EntCreate {
            pch_entity_def,
            pch_class,
            pch_costume_name,
            pch_display_name,
            pch_priority_list,
            pch_ai_config,
            ppch_category_names,
            ppch_powerset_names,
            ppch_power_names,
            redirects,
            villain_def: None,
            power_refs: Vec::new(),
            resolved: false,
        }
    }

    proof fn lemma_scan(c: Cursor, strings: &StringPool) {
    }
}

impl BinReadable for AttribModParam_Power {
    open spec fn scan(c: Cursor, strings: &StringPool) -> Cursor {
        let p0 = c.after_words();
        let p1 = p0.after_words();
        let p2 = p1.after_words();
        let p3 = p2.advance(4);
        p3
    }

    open spec fn decoded(
        c: Cursor,
        strings: &StringPool,
        messages: &MessageStore,
        value: &AttribModParam_Power,
    ) -> bool {
        let p0 = c.after_words();
        let p1 = p0.after_words();
        let p2 = p1.after_words();
        &&& value.ppch_category_names.deep_view() == c.names(strings)
        &&& value.ppch_powerset_names.deep_view() == p0.names(strings)
        &&& value.ppch_power_names.deep_view() == p1.names(strings)
        &&& value.i_count == p2.int32()
        &&& !value.resolved
    }

    fn read_value(reader: &mut BinReader, strings: &StringPool, messages: &MessageStore) -> (value:
        AttribModParam_Power) {
        let ppch_category_names = reader.read_name_key_arr(strings);
        let ppch_powerset_names = reader.read_name_key_arr(strings);
        let ppch_power_names = reader.read_name_key_arr(strings);
        let i_count = reader.read_i32();
        AttribModParam_Power {
            i_count,
            ppch_category_names,
            ppch_powerset_names,
            ppch_power_names,
            resolved: false,
        }
    }

    proof fn lemma_scan(c: Cursor, strings: &StringPool) {
    }
}

impl BinReadable for AttribModParam_Phase {
    open spec fn scan(c: Cursor, strings: &StringPool) -> Cursor {
        let p0 = Vec::<i32>::scan(c, strings);
        let p1 = Vec::<i32>::scan(p0, strings);
        let p2 = p1.advance(4);
        p2
    }

    open spec fn decoded(
        c: Cursor,
        strings: &StringPool,
        messages: &MessageStore,
        value: &AttribModParam_Phase,
    ) -> bool {
        let p0 = Vec::<i32>::scan(c, strings);
        let p1 = Vec::<i32>::scan(p0, strings);
        &&& Vec::<i32>::decoded(c, strings, messages, &value.pi_combat_phases)
        &&& Vec::<i32>::decoded(p0, strings, messages, &value.pi_vision_phases)
        &&& value.i_exclusive_vision_phase == p1.int32()
    }

    fn read_value(reader: &mut BinReader, strings: &StringPool, messages: &MessageStore) -> (value:
        AttribModParam_Phase) {
        let ghost at_pi_combat_phases = reader@;
        let pi_combat_phases = Vec::<i32>::read_value(reader, strings, messages);
        proof {
            Vec::<i32>::lemma_scan(at_pi_combat_phases, strings);
        }
        let ghost at_pi_vision_phases = reader@;
        let pi_vision_phases = Vec::<i32>::read_value(reader, strings, messages);
        proof {
            Vec::<i32>::lemma_scan(at_pi_vision_phases, strings);
        }
        let i_exclusive_vision_phase = reader.read_i32();
        AttribModParam_Phase {
            pi_combat_phases,
            pi_vision_phases,
            i_exclusive_vision_phase,
        }
    }

    proof fn lemma_scan(c: Cursor, strings: &StringPool) {
        Vec::<i32>::lemma_scan(c, strings);
    }
}

impl BinReadable for AttribModParam_Teleport {
    open spec fn scan(c: Cursor, strings: &StringPool) -> Cursor {
        let p0 = c.advance(4);
        p0
    }

    open spec fn decoded(
        c: Cursor,
        strings: &StringPool,
        messages: &MessageStore,
        value: &AttribModParam_Teleport,
    ) -> bool {
        &&& value.pch_destination.deep_view() == c.text(strings, messages)
    }

    fn read_value(reader: &mut BinReader, strings: &StringPool, messages: &MessageStore) -> (value:
        AttribModParam_Teleport) {
        let pch_destination = reader.read_pool_string(strings, messages);
        AttribModParam_Teleport {
            pch_destination,
        }
    }

    proof fn lemma_scan(c: Cursor, strings: &StringPool) {
    }
}

impl BinReadable for AttribModParam_Behavior {
    open spec fn scan(c: Cursor, strings: &StringPool) -> Cursor {
        let p0 = c.after_words();
        p0
    }

    open spec fn decoded(
        c: Cursor,
        strings: &StringPool,
        messages: &MessageStore,
        value: &AttribModParam_Behavior,
    ) -> bool {
        &&& value.ppch_behaviors.deep_view() == c.texts(strings, messages)
    }

    fn read_value(reader: &mut BinReader, strings: &StringPool, messages: &MessageStore) -> (value:
        AttribModParam_Behavior) {
        let ppch_behaviors = reader.read_pool_string_arr(strings, messages);
        AttribModParam_Behavior {
            ppch_behaviors,
        }
    }

    proof fn lemma_scan(c: Cursor, strings: &StringPool) {
    }
}

impl BinReadable for AttribModParam_SZEValue {
    open spec fn scan(c: Cursor, strings: &StringPool) -> Cursor {
        let p0 = c.after_words();
        let p1 = p0.after_words();
        p1
    }

    open spec fn decoded(
        c: Cursor,
        strings: &StringPool,
        messages: &MessageStore,
        value: &AttribModParam_SZEValue,
    ) -> bool {
        let p0 = c.after_words();
        &&& value.ppch_script_id.deep_view() == c.texts(strings, messages)
        &&& value.ppch_script_value.deep_view() == p0.texts(strings, messages)
    }

    fn read_value(reader: &mut BinReader, strings: &StringPool, messages: &MessageStore) -> (value:
        AttribModParam_SZEValue) {
        let ppch_script_id = reader.read_pool_string_arr(strings, messages);
        let ppch_script_value = reader.read_pool_string_arr(strings, messages);
        AttribModParam_SZEValue {
            ppch_script_id,
            ppch_script_value,
        }
    }

    proof fn lemma_scan(c: Cursor, strings: &StringPool) {
    }
}

impl BinReadable for AttribModParam_Token {
    open spec fn scan(c: Cursor, strings: &StringPool) -> Cursor {
        let p0 = c.after_words();
        p0
    }

    open spec fn decoded(
        c: Cursor,
        strings: &StringPool,
        messages: &MessageStore,
        value: &AttribModParam_Token,
    ) -> bool {
        &&& value.ppch_tokens.deep_view() == c.texts(strings, messages)
    }

    fn read_value(reader: &mut BinReader, strings: &StringPool, messages: &MessageStore) -> (value:
        AttribModParam_Token) {
        let ppch_tokens = reader.read_pool_string_arr(strings, messages);
        AttribModParam_Token {
            ppch_tokens,
        }
    }

    proof fn lemma_scan(c: Cursor, strings: &StringPool) {
    }
}

impl BinReadable for AttribModParam_EffectFilter {
    open spec fn scan(c: Cursor, strings: &StringPool) -> Cursor {
        let p0 = c.after_words();
        let p1 = p0.after_words();
        let p2 = p1.after_words();
        let p3 = p2.after_words();
        p3
    }

    open spec fn decoded(
        c: Cursor,
        strings: &StringPool,
        messages: &MessageStore,
        value: &AttribModParam_EffectFilter,
    ) -> bool {
        let p0 = c.after_words();
        let p1 = p0.after_words();
        let p2 = p1.after_words();
        &&& value.ppch_category_names.deep_view() == c.texts(strings, messages)
        &&& value.ppch_powerset_names.deep_view() == p0.texts(strings, messages)
        &&& value.ppch_power_names.deep_view() == p1.texts(strings, messages)
        &&& value.ppch_tags.deep_view() == p2.texts(strings, messages)
    }

    fn read_value(reader: &mut BinReader, strings: &StringPool, messages: &MessageStore) -> (value:
        AttribModParam_EffectFilter) {
        let ppch_category_names = reader.read_pool_string_arr(strings, messages);
        let ppch_powerset_names = reader.read_pool_string_arr(strings, messages);
        let ppch_power_names = reader.read_pool_string_arr(strings, messages);
        let ppch_tags = reader.read_pool_string_arr(strings, messages);
        AttribModParam_EffectFilter {
            ppch_tags,
            ppch_category_names,
            ppch_powerset_names,
            ppch_power_names,
        }
    }

    proof fn lemma_scan(c: Cursor, strings: &StringPool) {
    }
}

impl BinReadable for AttribModParam_Param11 {
    open spec fn scan(c: Cursor, strings: &StringPool) -> Cursor {
        let p0 = c.advance(4);
        let p1 = p0.advance(4);
        let p2 = p1.advance(4);
        let p3 = p2.advance(4);
        let p4 = p3.advance(4);
        let p5 = p4.advance(4);
        let p6 = p5.advance(4);
        let p7 = p6.advance(4);
        let p8 = p7.advance(4);
        let p9 = p8.advance(4);
        p9
    }

    open spec fn decoded(
        c: Cursor,
        strings: &StringPool,
        messages: &MessageStore,
        value: &AttribModParam_Param11,
    ) -> bool {
        let p0 = c.advance(4);
        let p1 = p0.advance(4);
        let p2 = p1.advance(4);
        let p3 = p2.advance(4);
        let p4 = p3.advance(4);
        let p5 = p4.advance(4);
        let p6 = p5.advance(4);
        let p7 = p6.advance(4);
        let p8 = p7.advance(4);
        &&& value.i_unknown_1 == c.int32()
        &&& value.i_unknown_2 == p0.int32()
        &&& value.i_unknown_3 == p1.int32()
        &&& value.f_unknown_4 == p2.float32()
        &&& value.i_unknown_5 == p3.int32()
        &&& value.i_unknown_6 == p4.int32()
        &&& value.f_unknown_7 == p5.float32()
        &&& value.f_unknown_8 == p6.float32()
        &&& value.f_unknown_9 == p7.float32()
        &&& value.f_unknown_10 == p8.float32()
    }

    fn read_value(reader: &mut BinReader, strings: &StringPool, messages: &MessageStore) -> (value:
        AttribModParam_Param11) {
        let i_unknown_1 = reader.read_i32();
        let i_unknown_2 = reader.read_i32();
        let i_unknown_3 = reader.read_i32();
        let f_unknown_4 = reader.read_float();
        let i_unknown_5 = reader.read_i32();
        let i_unknown_6 = reader.read_i32();
        let f_unknown_7 = reader.read_float();
        let f_unknown_8 = reader.read_float();
        let f_unknown_9 = reader.read_float();
        let f_unknown_10 = reader.read_float();
        AttribModParam_Param11 {
            i_unknown_1,
            i_unknown_2,
            i_unknown_3,
            f_unknown_4,
            i_unknown_5,
            i_unknown_6,
            f_unknown_7,
            f_unknown_8,
            f_unknown_9,
            f_unknown_10,
        }
    }

    proof fn lemma_scan(c: Cursor, strings: &StringPool) {
    }
}

} // verus!
